//! The WinterCG request handler: a handler that runs one script or one
//! module graph, and answers requests only after it has done so.

use crate::error::{Error, HandlerError};
use crate::request_handlers::service_workers::{
    build_response, fulfilled, is_response, response_of, start_request, started, Reaction,
};
use crate::request_handlers::{Either, Evaluation, PendingResponse, ReadyResponse, UserCode};
use crate::value::{Object, Value};
use std::marker::PhantomData;
use vstd::prelude::*;

verus! {

/// Marks a handler that has evaluated no user code.
#[derive(Clone, Copy)]
pub struct New;

/// Marks a handler whose user code is evaluated.
#[derive(Clone, Copy)]
pub struct Initialized;

/// A request handler in the state that `State` marks. Only a handler
/// marked [`Initialized`] has the operations that handle requests, and the
/// only way to one is through a handler marked [`New`], which the step
/// consumes.
pub struct WinterCGRequestHandler<State> {
    _state: PhantomData<State>,
}

/// A handler that has evaluated no user code.
pub fn new_handler() -> WinterCGRequestHandler<New> {
    WinterCGRequestHandler::<New> { _state: PhantomData }
}

/// The failure with which a handler that has evaluated nothing refuses to
/// evaluate `code`, if it refuses it: it runs a script or a module, and no
/// directory.
pub open spec fn evaluation_refusal(code: UserCode) -> Option<HandlerError> {
    if code is Directory {
        Some(HandlerError::DirectoriesNotSupported)
    } else {
        None
    }
}

/// The failure with which a handler refuses to layer `code` over a context
/// that is already loaded, if it refuses it: only a script can be layered.
pub open spec fn specialization_refusal(code: UserCode) -> Option<HandlerError> {
    if code is Script {
        None
    } else {
        Some(HandlerError::ModulesNotSpecializable)
    }
}

/// How an initializing step ends: with the refusal, if the code is refused;
/// else with the failure of the script engine, if it failed; else well.
pub open spec fn initialization(refusal: Option<HandlerError>, evaluated: Result<(), Error>) -> Result<
    (),
    HandlerError,
> {
    match refusal {
        Some(error) => Err(error),
        None => match evaluated {
            Ok(_) => Ok(()),
            Err(error) => Err(HandlerError::Script(error)),
        },
    }
}

/// What the host has to run for `code` that is not refused.
pub open spec fn evaluates(code: UserCode, evaluation: Evaluation) -> bool {
    match code {
        UserCode::Script { code: text, file_name } => evaluation matches Evaluation::Script {
            code: run_text,
            file_name: run_name,
        } && run_text@ == text@ && run_name@ == file_name@,
        UserCode::Module(path) => evaluation matches Evaluation::Module(run_path) && run_path@
            == path@,
        UserCode::Directory(_) => false,
    }
}

impl WinterCGRequestHandler<New> {
    /// The standard modules that a context of this handler needs.
    pub fn get_standard_modules(&self) -> WinterCGStandardModules {
        WinterCGStandardModules
    }

    /// What the host has to run in the script engine before
    /// [`Self::evaluate_scripts`], or the failure with which `code` is
    /// refused.
    pub fn evaluation<'a>(&self, code: &'a UserCode) -> (result: Result<Evaluation<'a>, HandlerError>)
        ensures
            match evaluation_refusal(*code) {
                Some(error) => result == Err::<Evaluation, HandlerError>(error),
                None => result is Ok && evaluates(*code, result->Ok_0),
            },
    {
        match code {
            UserCode::Script { code, file_name } => Ok(
                Evaluation::Script { code: code.as_str(), file_name: file_name.as_str() },
            ),
            UserCode::Module(path) => Ok(Evaluation::Module(path.as_str())),
            UserCode::Directory(_) => Err(HandlerError::DirectoriesNotSupported),
        }
    }

    /// What the host has to run in the script engine before
    /// [`Self::specialize_with_scripts`], or the failure with which `code`
    /// is refused.
    pub fn specialization<'a>(&self, code: &'a UserCode) -> (result: Result<
        Evaluation<'a>,
        HandlerError,
    >)
        ensures
            match specialization_refusal(*code) {
                Some(error) => result == Err::<Evaluation, HandlerError>(error),
                None => result is Ok && evaluates(*code, result->Ok_0),
            },
    {
        match code {
            UserCode::Script { code, file_name } => Ok(
                Evaluation::Script { code: code.as_str(), file_name: file_name.as_str() },
            ),
            _ => Err(HandlerError::ModulesNotSpecializable),
        }
    }

    /// Ends the evaluation of `code`, given how the script engine fared with
    /// it. The handler is used up; an initialized one comes back where the
    /// code is accepted and the engine evaluated it.
    pub fn evaluate_scripts(self, code: &UserCode, evaluated: Result<(), Error>) -> (result: Result<
        WinterCGRequestHandler<Initialized>,
        HandlerError,
    >)
        ensures
            match initialization(evaluation_refusal(*code), evaluated) {
                Ok(_) => result is Ok,
                Err(error) => result is Err && result->Err_0 == error,
            },
            *code is Directory ==> result is Err && result->Err_0
                == HandlerError::DirectoriesNotSupported,
    {
        if let Err(refusal) = self.evaluation(code) {
            return Err(refusal);
        }
        match evaluated {
            Ok(_) => Ok(WinterCGRequestHandler::<Initialized> { _state: PhantomData }),
            Err(error) => Err(HandlerError::Script(error)),
        }
    }

    /// Ends the layering of `code` over a context whose module graph is
    /// loaded, given how the script engine fared with it. The handler is
    /// used up; an initialized one comes back where the code is a script
    /// and the engine evaluated it.
    pub fn specialize_with_scripts(self, code: &UserCode, evaluated: Result<(), Error>) -> (result:
        Result<WinterCGRequestHandler<Initialized>, HandlerError>)
        ensures
            match initialization(specialization_refusal(*code), evaluated) {
                Ok(_) => result is Ok,
                Err(error) => result is Err && result->Err_0 == error,
            },
            *code is Module ==> result is Err && result->Err_0
                == HandlerError::ModulesNotSpecializable,
    {
        if let Err(refusal) = self.specialization(code) {
            return Err(refusal);
        }
        match evaluated {
            Ok(_) => Ok(WinterCGRequestHandler::<Initialized> { _state: PhantomData }),
            Err(error) => Err(HandlerError::Script(error)),
        }
    }
}

impl WinterCGRequestHandler<Initialized> {
    /// Settles what the dispatch of a request comes to, from what the
    /// script did with the request event: a ready response, or a pending
    /// one where the script deferred its answer.
    pub fn start_handling_request(&mut self, reaction: Reaction) -> (result: Result<
        Either<PendingResponse, ReadyResponse>,
        HandlerError,
    >)
        ensures
            result == started(reaction),
            *final(self) == *old(self),
    {
        start_request(reaction)
    }

    /// Turns the settled value of a deferred answer into the final
    /// response. A value that is no object fails this request and leaves
    /// the handler as it was; no value makes the request pending again.
    pub fn finish_fulfilled_request(&mut self, val: Value) -> (result: Result<
        Either<PendingResponse, ReadyResponse>,
        HandlerError,
    >)
        ensures
            result == fulfilled(val),
            result matches Ok(outcome) ==> outcome is Right,
            !(val is Object) ==> result == Err::<Either<PendingResponse, ReadyResponse>, HandlerError>(
                HandlerError::NotAnObject,
            ),
            *final(self) == *old(self),
    {
        match val {
            Value::Object(object) => match build_response(&object) {
                Ok(response) => Ok(Either::Right(response)),
                Err(error) => Err(error),
            },
            _ => Err(HandlerError::NotAnObject),
        }
    }
}

/// The standard modules of the WinterCG mode: the globals of the request
/// event, installed at both installation points of a fresh context.
pub struct WinterCGStandardModules;

impl WinterCGStandardModules {
    /// Whether the import-visible bindings are installed, given whether the
    /// script engine defined the globals: the mode has no bindings beyond
    /// them.
    pub fn init_modules(&self, defined: bool) -> (installed: bool)
        ensures
            installed == defined,
    {
        self.init_globals(defined)
    }

    /// Whether the global bindings are installed, given whether the script
    /// engine defined them.
    pub fn init_globals(&self, defined: bool) -> (installed: bool)
        ensures
            installed == defined,
    {
        defined
    }
}

/// An object that describes a response comes to the same ready response
/// whether the script answered with it at once or it is the settled value of
/// an answer that the script deferred.
pub proof fn lemma_settled_as_synchronous(object: Object)
    requires
        is_response(object),
    ensures
        fulfilled(Value::Object(object)) == Ok::<Either<PendingResponse, ReadyResponse>, HandlerError>(
            Either::Right(response_of(object)),
        ),
        started(Reaction::Responded(Value::Object(object))) == fulfilled(Value::Object(object)),
{
}

} // verus!
