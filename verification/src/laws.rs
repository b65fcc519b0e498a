//! What holds of every error: laws of its status codes, its messages and
//! the ways it is made.

use crate::cause::StorageError;
use crate::decimal::lemma_decimal_is_sign_and_digits;
use crate::error::Error;
use crate::status::{
    HostStatus, Nsresult, NS_ERROR_INVALID_ARG, NS_ERROR_STORAGE_BUSY, NS_ERROR_UNEXPECTED,
};
use dogear::Error as MergeError;
use std::string::FromUtf16Error;
use vstd::prelude::*;
use vstd::std_specs::convert::FromSpec;
use vstd::string::to_string_from_display_ensures;

verus! {

/// Whether `text` is one line: it holds no line break.
pub open spec fn is_one_line(text: Seq<char>) -> bool {
    forall|i: int| 0 <= i < text.len() ==> text[i] != '\n'
}

impl Error {
    /// Whether the library raises this error itself, rather than taking it
    /// in from another layer.
    pub open spec fn is_local(self) -> bool {
        self is InvalidLocalRoots || self is InvalidRemoteRoots || self is UnknownItemKind
            || self is MergeConflict || self is UnknownItemValidity
    }

    /// Whether the words that this error takes whole from another layer are
    /// never empty: the message that a storage error holds, and every text
    /// that a merge error or a decoding error gives for itself. The words of
    /// the other errors begin with words of the library's own.
    pub open spec fn nested_words_are_nonempty(self) -> bool {
        match self {
            Error::Dogear(err) => forall|text: String| #[trigger]
                to_string_from_display_ensures::<MergeError>(&err, text) ==> text@.len() > 0,
            Error::MalformedString(err) => forall|text: String| #[trigger]
                to_string_from_display_ensures::<FromUtf16Error>(&err, text) ==> text@.len()
                    > 0,
            Error::Storage(err) => err.message@.len() > 0,
            _ => true,
        }
    }

    /// Whether the words that this error takes from another layer are one
    /// line: the message that a storage error holds, the name that a host
    /// status holds, and every text that a merge error or a decoding error
    /// gives for itself. The other errors take no words from another layer.
    pub open spec fn nested_words_are_one_line(self) -> bool {
        match self {
            Error::Dogear(err) => forall|text: String| #[trigger]
                to_string_from_display_ensures::<MergeError>(&err, text) ==> is_one_line(text@),
            Error::MalformedString(err) => forall|text: String| #[trigger]
                to_string_from_display_ensures::<FromUtf16Error>(&err, text) ==> is_one_line(
                    text@,
                ),
            Error::Storage(err) => is_one_line(err.message@),
            Error::Nsresult(status) => is_one_line(status.name@),
            _ => true,
        }
    }
}

/// Every error has a status code, and one only: the conversion may be
/// called on any error, and whatever two calls return for the same error is
/// the same code, the one that `Error::status` names.
pub proof fn lemma_status_is_total_and_deterministic(
    error: Error,
    first: Nsresult,
    second: Nsresult,
)
    requires
        call_ensures(<Nsresult as From<Error>>::from, (error,), first),
        call_ensures(<Nsresult as From<Error>>::from, (error,), second),
    ensures
        call_requires(<Nsresult as From<Error>>::from, (error,)),
        first == error.status(),
        second == first,
{
}

/// A status of the host that is made an error comes back as the code it
/// had, whatever the code.
pub proof fn lemma_host_status_round_trip(status: HostStatus)
    ensures
        <Nsresult as FromSpec<Error>>::from_spec(
            <Error as FromSpec<HostStatus>>::from_spec(status),
        ) == status.code,
        Error::Nsresult(status).status() == status.code,
{
}

/// A storage error is reported under the code that the storage layer gave
/// it, whatever the code.
pub proof fn lemma_storage_status_is_handed_on(err: StorageError)
    ensures
        <Nsresult as FromSpec<Error>>::from_spec(
            <Error as FromSpec<StorageError>>::from_spec(err),
        ) == err.status,
        Error::Storage(err).status() == err.status,
{
}

/// Each layer's error is lifted to the variant that is kept for that layer,
/// and to no other, and is held there unchanged.
pub proof fn lemma_each_layer_lifts_to_its_variant(
    merge: MergeError,
    storage: StorageError,
    status: HostStatus,
    decoding: FromUtf16Error,
)
    ensures
        <Error as FromSpec<MergeError>>::from_spec(merge) == Error::Dogear(merge),
        <Error as FromSpec<StorageError>>::from_spec(storage) == Error::Storage(storage),
        <Error as FromSpec<HostStatus>>::from_spec(status) == Error::Nsresult(status),
        <Error as FromSpec<FromUtf16Error>>::from_spec(decoding) == Error::MalformedString(
            decoding,
        ),
        <Error as FromSpec<MergeError>>::from_spec(merge) is Dogear,
        <Error as FromSpec<StorageError>>::from_spec(storage) is Storage,
        <Error as FromSpec<HostStatus>>::from_spec(status) is Nsresult,
        <Error as FromSpec<FromUtf16Error>>::from_spec(decoding) is MalformedString,
{
}

/// The three codes that the library gives out itself differ from each
/// other, and among the errors that the library raises itself the merge
/// conflict, and it alone, is reported as busy.
pub proof fn lemma_only_the_merge_conflict_is_busy(error: Error)
    requires
        error.is_local(),
    ensures
        NS_ERROR_STORAGE_BUSY != NS_ERROR_INVALID_ARG,
        NS_ERROR_STORAGE_BUSY != NS_ERROR_UNEXPECTED,
        NS_ERROR_INVALID_ARG != NS_ERROR_UNEXPECTED,
        error.status() == Nsresult(NS_ERROR_STORAGE_BUSY) <==> error is MergeConflict,
        error.status() == Nsresult(NS_ERROR_INVALID_ARG) <==> error is UnknownItemKind
            || error is UnknownItemValidity,
        error.status() == Nsresult(NS_ERROR_UNEXPECTED) <==> error is InvalidLocalRoots
            || error is InvalidRemoteRoots,
{
}

/// Only the merge algorithm's error and the storage layer's error lie
/// behind an error as its cause; the seven other variants have none.
pub proof fn lemma_cause_only_of_merge_and_storage(error: Error)
    ensures
        error.cause() is Some <==> error is Dogear || error is Storage,
        error.is_local() || error is Nsresult || error is MalformedString ==> error.cause()
            is None,
{
}

/// The words of an error are never empty, unless the words that it takes
/// from another layer are.
pub proof fn lemma_words_are_never_empty(error: Error, text: String)
    requires
        error.renders_as(text),
        error.nested_words_are_nonempty(),
    ensures
        text@.len() > 0,
{
    reveal_strlit("The local roots are invalid");
    reveal_strlit("The roots in the mirror database are invalid");
    reveal_strlit("Operation failed with ");
    reveal_strlit("Unknown item kind ");
    reveal_strlit("Local tree changed during merge");
    reveal_strlit("Unknown item validity ");
}

/// The words of an error are one line, unless the words that it takes from
/// another layer are not.
pub proof fn lemma_words_are_one_line(error: Error, text: String)
    requires
        error.renders_as(text),
        error.nested_words_are_one_line(),
    ensures
        is_one_line(text@),
{
    reveal_strlit("The local roots are invalid");
    reveal_strlit("The roots in the mirror database are invalid");
    reveal_strlit("Operation failed with ");
    reveal_strlit("Unknown item kind ");
    reveal_strlit(" in database");
    reveal_strlit("Local tree changed during merge");
    reveal_strlit("Unknown item validity ");
    match error {
        Error::UnknownItemKind(kind) => {
            lemma_decimal_is_sign_and_digits(kind as int);
        },
        Error::UnknownItemValidity(validity) => {
            lemma_decimal_is_sign_and_digits(validity as int);
        },
        _ => {},
    }
}

} // verus!
