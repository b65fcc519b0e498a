//! The error type, its messages and its status codes.

use crate::cause::{Cause, StorageError};
use crate::decimal::{decimal, decimal_string};
use crate::status::{
    HostStatus, Nsresult, NS_ERROR_INVALID_ARG, NS_ERROR_STORAGE_BUSY, NS_ERROR_UNEXPECTED,
};
use dogear::Error as MergeError;
use std::string::FromUtf16Error;
use vstd::prelude::*;
use vstd::std_specs::convert::FromSpecImpl;
use vstd::string::to_string_from_display_ensures;

verus! {

/// What a fallible step of a bookmark merge returns.
pub type Result<T> = std::result::Result<T, Error>;

/// What can go wrong in a bookmark merge.
#[derive(Debug)]
pub enum Error {
    /// The merge algorithm failed.
    Dogear(MergeError),
    /// The storage layer failed.
    Storage(StorageError),
    /// The local roots are not as they must be.
    InvalidLocalRoots,
    /// The roots in the mirror database are not as they must be.
    InvalidRemoteRoots,
    /// A host operation failed with this status, which is handed on
    /// unchanged.
    Nsresult(HostStatus),
    /// A stored item has a kind that is none of the known kinds.
    UnknownItemKind(i64),
    /// A stored string is not valid UTF-16.
    MalformedString(FromUtf16Error),
    /// The local tree changed while a merge was under way.
    MergeConflict,
    /// A stored item has a validity that is none of the known validities.
    UnknownItemValidity(i64),
}

impl Error {
    /// The status code under which the host learns of this error. A storage
    /// error keeps the code that the storage layer gave it, and a status of
    /// the host its own. A failed merge and invalid roots are unexpected
    /// failures; an unknown kind, an unknown validity and a malformed string
    /// are invalid arguments. A merge conflict is reported as busy: nothing
    /// is wrong with the input, and the merge can be tried again.
    pub open spec fn status(self) -> Nsresult {
        match self {
            Error::Dogear(_) | Error::InvalidLocalRoots | Error::InvalidRemoteRoots => Nsresult(
                NS_ERROR_UNEXPECTED,
            ),
            Error::Storage(err) => err.status,
            Error::Nsresult(status) => status.code,
            Error::UnknownItemKind(_)
            | Error::MalformedString(_)
            | Error::UnknownItemValidity(_) => Nsresult(NS_ERROR_INVALID_ARG),
            Error::MergeConflict => Nsresult(NS_ERROR_STORAGE_BUSY),
        }
    }

    /// The error of another layer that lies behind this one, if any.
    pub open spec fn cause(&self) -> Option<Cause<'_>> {
        match self {
            Error::Dogear(err) => Some(Cause::Dogear(err)),
            Error::Storage(err) => Some(Cause::Storage(err)),
            _ => None,
        }
    }

    /// The message of this error, where the library itself words it or holds
    /// its words. The merge algorithm's error and the decoding error word
    /// themselves when they are asked: for them this is `None`.
    pub open spec fn message(self) -> Option<Seq<char>> {
        match self {
            Error::Dogear(_) | Error::MalformedString(_) => None,
            Error::Storage(err) => Some(err.message@),
            Error::InvalidLocalRoots => Some("The local roots are invalid"@),
            Error::InvalidRemoteRoots => Some("The roots in the mirror database are invalid"@),
            Error::Nsresult(status) => Some("Operation failed with "@ + status.name@),
            Error::UnknownItemKind(kind) => Some(
                "Unknown item kind "@ + decimal(kind as int) + " in database"@,
            ),
            Error::MergeConflict => Some("Local tree changed during merge"@),
            Error::UnknownItemValidity(validity) => Some(
                "Unknown item validity "@ + decimal(validity as int) + " in database"@,
            ),
        }
    }

    /// Whether `text` is this error in words: the error's message, or, for an
    /// error that words itself, a text that its own `Display` gave for it,
    /// handed on whole.
    pub open spec fn renders_as(self, text: String) -> bool {
        match self {
            Error::Dogear(err) => to_string_from_display_ensures::<MergeError>(&err, text),
            Error::MalformedString(err) => to_string_from_display_ensures::<FromUtf16Error>(
                &err,
                text,
            ),
            _ => self.message() == Some(text@),
        }
    }

    /// The error of another layer that lies behind this one: the merge
    /// algorithm's or the storage layer's. The other errors have none.
    pub fn source(&self) -> (cause: Option<Cause<'_>>)
        ensures
            cause == self.cause(),
            cause is Some <==> *self is Dogear || *self is Storage,
    {
        match self {
            Error::Dogear(err) => Some(Cause::Dogear(err)),
            Error::Storage(err) => Some(Cause::Storage(err)),
            _ => None,
        }
    }

    /// This error in words. An error of the merge algorithm or of decoding
    /// is asked for its own words, and they are returned whole; the words of
    /// the other errors are their `message`.
    pub fn to_string(&self) -> (text: String)
        ensures
            self.renders_as(text),
    {
        match self {
            Error::Dogear(err) => err.to_string(),
            Error::Storage(err) => err.message.clone(),
            Error::InvalidLocalRoots => String::from_str("The local roots are invalid"),
            Error::InvalidRemoteRoots => String::from_str(
                "The roots in the mirror database are invalid",
            ),
            Error::Nsresult(status) => {
                let mut text = String::from_str("Operation failed with ");
                text.append(status.name.as_str());
                text
            },
            Error::UnknownItemKind(kind) => {
                let mut text = String::from_str("Unknown item kind ");
                text.append(decimal_string(*kind).as_str());
                text.append(" in database");
                text
            },
            Error::MalformedString(err) => err.to_string(),
            Error::MergeConflict => String::from_str("Local tree changed during merge"),
            Error::UnknownItemValidity(validity) => {
                let mut text = String::from_str("Unknown item validity ");
                text.append(decimal_string(*validity).as_str());
                text.append(" in database");
                text
            },
        }
    }
}

impl From<MergeError> for Error {
    /// An error of the merge algorithm becomes `Error::Dogear`, and is kept
    /// as it is.
    fn from(err: MergeError) -> (error: Error)
        ensures
            error == Error::Dogear(err),
    {
        Error::Dogear(err)
    }
}

impl FromSpecImpl<MergeError> for Error {
    open spec fn obeys_from_spec() -> bool {
        true
    }

    open spec fn from_spec(err: MergeError) -> Error {
        Error::Dogear(err)
    }
}

impl From<StorageError> for Error {
    /// An error of the storage layer becomes `Error::Storage`, and is kept
    /// as it is.
    fn from(err: StorageError) -> (error: Error)
        ensures
            error == Error::Storage(err),
    {
        Error::Storage(err)
    }
}

impl FromSpecImpl<StorageError> for Error {
    open spec fn obeys_from_spec() -> bool {
        true
    }

    open spec fn from_spec(err: StorageError) -> Error {
        Error::Storage(err)
    }
}

impl From<HostStatus> for Error {
    /// A status of the host becomes `Error::Nsresult`, and is kept as it is.
    fn from(status: HostStatus) -> (error: Error)
        ensures
            error == Error::Nsresult(status),
    {
        Error::Nsresult(status)
    }
}

impl FromSpecImpl<HostStatus> for Error {
    open spec fn obeys_from_spec() -> bool {
        true
    }

    open spec fn from_spec(status: HostStatus) -> Error {
        Error::Nsresult(status)
    }
}

impl From<FromUtf16Error> for Error {
    /// An error of decoding UTF-16 becomes `Error::MalformedString`, and is
    /// kept as it is.
    fn from(err: FromUtf16Error) -> (error: Error)
        ensures
            error == Error::MalformedString(err),
    {
        Error::MalformedString(err)
    }
}

impl FromSpecImpl<FromUtf16Error> for Error {
    open spec fn obeys_from_spec() -> bool {
        true
    }

    open spec fn from_spec(err: FromUtf16Error) -> Error {
        Error::MalformedString(err)
    }
}

impl From<Error> for Nsresult {
    /// The status code under which the host learns of `error`.
    fn from(error: Error) -> (status: Nsresult)
        ensures
            status == error.status(),
    {
        match error {
            Error::Dogear(_) | Error::InvalidLocalRoots | Error::InvalidRemoteRoots => Nsresult(
                NS_ERROR_UNEXPECTED,
            ),
            Error::Storage(err) => err.status,
            Error::Nsresult(status) => status.code,
            Error::UnknownItemKind(_)
            | Error::MalformedString(_)
            | Error::UnknownItemValidity(_) => Nsresult(NS_ERROR_INVALID_ARG),
            Error::MergeConflict => Nsresult(NS_ERROR_STORAGE_BUSY),
        }
    }
}

impl FromSpecImpl<Error> for Nsresult {
    open spec fn obeys_from_spec() -> bool {
        true
    }

    open spec fn from_spec(error: Error) -> Nsresult {
        error.status()
    }
}

} // verus!
