//! Request handling: the user code that a handler takes in, and what the
//! dispatch of one request comes to.

pub mod service_workers;
pub mod wintercg;

use vstd::prelude::*;

verus! {

/// The user code that a handler is asked to run.
#[derive(Debug, PartialEq, Eq)]
pub enum UserCode {
    /// The text of one script, and the name that identifies it.
    Script { code: String, file_name: String },
    /// The path of a module.
    Module(String),
    /// The path of a directory of files.
    Directory(String),
}

/// What the host has to run in the script engine to bring user code in.
#[derive(Debug, PartialEq, Eq)]
pub enum Evaluation<'a> {
    /// Evaluate the text of a script under the name that identifies it.
    Script { code: &'a str, file_name: &'a str },
    /// Evaluate the module at a path, with what it imports.
    Module(&'a str),
}

/// One of two things.
#[derive(Debug, PartialEq, Eq)]
pub enum Either<L, R> {
    Left(L),
    Right(R),
}

/// A response that is ready to be sent.
#[derive(Debug, PartialEq, Eq)]
pub struct ReadyResponse {
    pub status: u16,
    pub body: String,
}

/// A response whose value the script is still producing. `promise` is the
/// handle by which the host finds the deferred value in the script engine.
#[derive(Debug, PartialEq, Eq)]
pub struct PendingResponse {
    pub promise: u64,
}

} // verus!
