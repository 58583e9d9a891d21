//! The cryptographic capability surface: keys, and the contract that every
//! algorithm provider implements in part.

pub mod algorithm;
pub mod key;
