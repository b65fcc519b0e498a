//! One error type for a bookmark merge: it takes in the failures of the merge
//! algorithm, of the storage layer, of the host and of string decoding, says
//! each in words, and maps each to a status code of the host.

pub mod cause;
pub mod decimal;
pub mod error;
pub mod laws;
pub mod status;

pub use crate::error::Error;
