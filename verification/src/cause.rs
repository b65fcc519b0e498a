//! The errors of other layers that an error of this library can hold.

use crate::status::Nsresult;
use dogear::Error as MergeError;
use std::string::FromUtf16Error;
use vstd::prelude::*;

verus! {

/// `dogear::Error`, the error of the merge algorithm. The library holds one
/// and hands it on; it looks at nothing inside.
#[verifier::external_type_specification]
#[verifier::external_body]
pub struct ExMergeError(MergeError);

/// `std::string::FromUtf16Error`, the error of decoding UTF-16. The library
/// holds one and hands it on; it looks at nothing inside.
#[verifier::external_type_specification]
#[verifier::external_body]
pub struct ExFromUtf16Error(FromUtf16Error);

/// A failure of the storage layer: the status code that the storage layer
/// gives it, and the message in which the storage layer words it. Whoever
/// takes a storage error in reads the two out of it; the library hands both
/// on as they are.
#[derive(Debug)]
pub struct StorageError {
    pub status: Nsresult,
    pub message: String,
}

/// The error of another layer that lies behind an error of this library,
/// borrowed from it.
#[derive(Debug)]
pub enum Cause<'a> {
    /// The merge algorithm's error.
    Dogear(&'a MergeError),
    /// The storage layer's error.
    Storage(&'a StorageError),
}

} // verus!
