//! The core of a server-side script runtime: the lifecycle of a request
//! handler and the capability contract of its cryptographic algorithms.
//!
//! The library works on plain values. It decides what is to be run in the
//! script engine and what the outcome means; the host owns the engine, runs
//! what is asked for and hands the outcome back.

pub mod crypto;
pub mod error;
pub mod request_handlers;
pub mod value;
