//! Error values: the exception that a capability raises into a script, and
//! the failures of the request-handler lifecycle.

use vstd::prelude::*;
use vstd::string::StringExecFns;

verus! {

/// The class of the exception that an [`Error`] becomes in a script.
#[derive(Clone, Copy, Debug, PartialEq, Eq, Structural)]
pub enum ErrorKind {
    Normal,
    Internal,
    Eval,
    Range,
    Reference,
    Syntax,
    Type,
}

/// A failure that surfaces to user code as a catchable exception.
#[derive(Debug, PartialEq, Eq)]
pub struct Error {
    pub kind: ErrorKind,
    pub message: String,
}

/// The text of the one failure that every capability operation defaults to.
pub open spec fn unsupported_message() -> Seq<char> {
    "Operation not supported by the specified algorithm"@
}

impl Error {
    /// An error of the given class with the given text.
    pub fn new(message: &str, kind: ErrorKind) -> (e: Error)
        ensures
            e.kind == kind,
            e.message@ == message@,
    {
        Error { kind, message: String::from_str(message) }
    }

    /// Whether this is the uniform failure of an operation that a provider
    /// does not implement.
    pub open spec fn is_unsupported(&self) -> bool {
        self.kind == ErrorKind::Normal && self.message@ == unsupported_message()
    }

    /// The uniform failure of an operation that a provider does not implement.
    pub fn unsupported() -> (e: Error)
        ensures
            e.is_unsupported(),
    {
        Error::new("Operation not supported by the specified algorithm", ErrorKind::Normal)
    }
}

/// Why the request-handling lifecycle refused a step.
#[derive(Debug, PartialEq, Eq)]
pub enum HandlerError {
    /// The user code is a directory, which this mode cannot run.
    DirectoriesNotSupported,
    /// The user code is not a single script, and only a script can be
    /// layered over a loaded context.
    ModulesNotSpecializable,
    /// The value that a script answered with is not an object.
    NotAnObject,
    /// The object that a script answered with does not describe a response.
    NotAResponse,
    /// The script engine reported a failure while it ran user code.
    Script(Error),
}

impl HandlerError {
    /// The text of the failure.
    pub open spec fn message_text(&self) -> Seq<char> {
        match self {
            HandlerError::DirectoriesNotSupported => "WinterCG mode does not support directories"@,
            HandlerError::ModulesNotSpecializable => "Modules cannot be specialized yet"@,
            HandlerError::NotAnObject => "Script error: value provided to respondWith was not an object"@,
            HandlerError::NotAResponse => "Script error: object provided to respondWith was not a response"@,
            HandlerError::Script(error) => error.message@,
        }
    }

    /// The text of the failure, as the host reports it.
    pub fn message(&self) -> (text: String)
        ensures
            text@ == self.message_text(),
    {
        match self {
            HandlerError::DirectoriesNotSupported => String::from_str(
                "WinterCG mode does not support directories",
            ),
            HandlerError::ModulesNotSpecializable => String::from_str(
                "Modules cannot be specialized yet",
            ),
            HandlerError::NotAnObject => String::from_str(
                "Script error: value provided to respondWith was not an object",
            ),
            HandlerError::NotAResponse => String::from_str(
                "Script error: object provided to respondWith was not a response",
            ),
            HandlerError::Script(error) => error.message.clone(),
        }
    }
}

} // verus!
