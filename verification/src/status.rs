//! Status codes of the host.

use vstd::prelude::*;

verus! {

/// The host's code for a failure that has no code of its own.
pub const NS_ERROR_UNEXPECTED: u32 = 0x8000_ffff;

/// The host's code for an argument that is not valid.
pub const NS_ERROR_INVALID_ARG: u32 = 0x8007_0057;

/// The host's code for a storage layer that is busy: the caller may try again.
pub const NS_ERROR_STORAGE_BUSY: u32 = 0x8063_0001;

/// A status code of the host. The library hands codes on and compares them;
/// it reads nothing else out of one.
#[derive(Clone, Copy, Debug, PartialEq, Eq, Hash, Structural)]
pub struct Nsresult(pub u32);

/// A status that a host operation returned: its code, and the symbolic
/// name under which the host knows that code. Only the host can look the
/// name up, so whoever takes the status in looks it up then; the library
/// takes the name as it is given.
#[derive(Debug)]
pub struct HostStatus {
    pub code: Nsresult,
    pub name: String,
}

} // verus!
