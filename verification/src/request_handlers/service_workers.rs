//! The dispatch protocol of one request: from what the script did with the
//! request event to a ready or a pending response.

use crate::error::{Error, HandlerError};
use crate::request_handlers::{Either, PendingResponse, ReadyResponse};
use crate::value::{Object, Value};
use vstd::prelude::*;

verus! {

/// What the script did with a request event, up to the point where it first
/// gave control back.
#[derive(Debug, PartialEq, Eq)]
pub enum Reaction {
    /// It answered with a value that is settled.
    Responded(Value),
    /// It answered with a value that is still being produced, found in the
    /// script engine under this handle.
    Deferred(u64),
    /// It left the request to default handling, which produced this
    /// response.
    Unhandled(ReadyResponse),
    /// It failed.
    Failed(Error),
}

/// Whether an object describes a response: its `status` is a number that is
/// a status code, and its `body` is a string.
pub open spec fn is_response(object: Object) -> bool {
    &&& object@.contains_key("status"@)
    &&& object@["status"@] matches Value::Number(status)
    &&& 0 <= status <= u16::MAX
    &&& object@.contains_key("body"@)
    &&& object@["body"@] is String
}

/// The response that an object describes.
pub open spec fn response_of(object: Object) -> ReadyResponse
    recommends
        is_response(object),
{
    ReadyResponse {
        status: object@["status"@]->Number_0 as u16,
        body: object@["body"@]->String_0,
    }
}

/// What the settled value of a response comes to: a ready response where the
/// value is an object that describes one, and a failure otherwise.
pub open spec fn fulfilled(value: Value) -> Result<Either<PendingResponse, ReadyResponse>, HandlerError> {
    match value {
        Value::Object(object) => if is_response(object) {
            Ok(Either::Right(response_of(object)))
        } else {
            Err(HandlerError::NotAResponse)
        },
        _ => Err(HandlerError::NotAnObject),
    }
}

/// What the dispatch of a request comes to, by what the script did with it.
pub open spec fn started(reaction: Reaction) -> Result<Either<PendingResponse, ReadyResponse>, HandlerError> {
    match reaction {
        Reaction::Responded(value) => fulfilled(value),
        Reaction::Deferred(promise) => Ok(Either::Left(PendingResponse { promise })),
        Reaction::Unhandled(response) => Ok(Either::Right(response)),
        Reaction::Failed(error) => Err(HandlerError::Script(error)),
    }
}

/// Converts an object that a script answered with into the response that it
/// describes.
pub fn build_response(object: &Object) -> (result: Result<ReadyResponse, HandlerError>)
    ensures
        result == if is_response(*object) {
            Ok::<ReadyResponse, HandlerError>(response_of(*object))
        } else {
            Err(HandlerError::NotAResponse)
        },
{
    let status: u16 = match object.get("status") {
        Some(Value::Number(status)) => {
            if 0 <= *status && *status <= 65535 {
                *status as u16
            } else {
                return Err(HandlerError::NotAResponse);
            }
        },
        _ => {
            return Err(HandlerError::NotAResponse);
        },
    };
    match object.get("body") {
        Some(Value::String(body)) => Ok(ReadyResponse { status, body: body.clone() }),
        _ => Err(HandlerError::NotAResponse),
    }
}

/// Settles what the dispatch of a request comes to, from what the script did
/// with it.
pub fn start_request(reaction: Reaction) -> (result: Result<
    Either<PendingResponse, ReadyResponse>,
    HandlerError,
>)
    ensures
        result == started(reaction),
{
    match reaction {
        Reaction::Responded(value) => match value {
            Value::Object(object) => match build_response(&object) {
                Ok(response) => Ok(Either::Right(response)),
                Err(error) => Err(error),
            },
            _ => Err(HandlerError::NotAnObject),
        },
        Reaction::Deferred(promise) => Ok(Either::Left(PendingResponse { promise })),
        Reaction::Unhandled(response) => Ok(Either::Right(response)),
        Reaction::Failed(error) => Err(HandlerError::Script(error)),
    }
}

} // verus!
