use bookmark_sync::cause::{Cause, StorageError};
use bookmark_sync::status::{
    HostStatus, Nsresult, NS_ERROR_INVALID_ARG, NS_ERROR_STORAGE_BUSY, NS_ERROR_UNEXPECTED,
};
use bookmark_sync::Error;
use dogear::ErrorKind;

fn lone_surrogate() -> std::string::FromUtf16Error {
    String::from_utf16(&[0x0041, 0xdc00]).unwrap_err()
}

fn named(code: u32, name: &str) -> HostStatus {
    HostStatus {
        code: Nsresult(code),
        name: String::from(name),
    }
}

fn storage(code: u32, message: &str) -> StorageError {
    StorageError {
        status: Nsresult(code),
        message: String::from(message),
    }
}

#[test]
fn the_three_codes_have_the_hosts_values() {
    assert_eq!(NS_ERROR_UNEXPECTED, 0x8000_ffff);
    assert_eq!(NS_ERROR_INVALID_ARG, 0x8007_0057);
    assert_eq!(NS_ERROR_STORAGE_BUSY, 0x8063_0001);
}

#[test]
fn the_three_codes_differ() {
    assert_ne!(NS_ERROR_STORAGE_BUSY, NS_ERROR_INVALID_ARG);
    assert_ne!(NS_ERROR_STORAGE_BUSY, NS_ERROR_UNEXPECTED);
    assert_ne!(NS_ERROR_INVALID_ARG, NS_ERROR_UNEXPECTED);
}

#[test]
fn merge_conflict_is_busy() {
    let status = Nsresult::from(Error::MergeConflict);
    assert_eq!(status, Nsresult(NS_ERROR_STORAGE_BUSY));
    assert_ne!(status, Nsresult(NS_ERROR_INVALID_ARG));
    assert_ne!(status, Nsresult(NS_ERROR_UNEXPECTED));
}

#[test]
fn local_failures_map_to_their_codes() {
    assert_eq!(
        Nsresult::from(Error::InvalidLocalRoots),
        Nsresult(NS_ERROR_UNEXPECTED)
    );
    assert_eq!(
        Nsresult::from(Error::InvalidRemoteRoots),
        Nsresult(NS_ERROR_UNEXPECTED)
    );
    assert_eq!(
        Nsresult::from(Error::UnknownItemKind(-1)),
        Nsresult(NS_ERROR_INVALID_ARG)
    );
    assert_eq!(
        Nsresult::from(Error::UnknownItemValidity(9)),
        Nsresult(NS_ERROR_INVALID_ARG)
    );
}

#[test]
fn merge_error_is_unexpected() {
    let error = Error::from(dogear::Error::from(ErrorKind::Abort));
    assert_eq!(Nsresult::from(error), Nsresult(NS_ERROR_UNEXPECTED));
    let error = Error::from(dogear::Error::from(ErrorKind::MergeConflict));
    assert_eq!(Nsresult::from(error), Nsresult(NS_ERROR_UNEXPECTED));
}

#[test]
fn malformed_string_is_an_invalid_argument() {
    let error = Error::from(lone_surrogate());
    assert_eq!(Nsresult::from(error), Nsresult(NS_ERROR_INVALID_ARG));
}

#[test]
fn storage_busy_stays_busy() {
    let error = Error::from(storage(NS_ERROR_STORAGE_BUSY, "database is locked"));
    let status = Nsresult::from(error);
    assert_eq!(status, Nsresult(NS_ERROR_STORAGE_BUSY));
    assert_ne!(status, Nsresult(NS_ERROR_UNEXPECTED));
}

#[test]
fn storage_status_is_handed_on() {
    for code in [0x8063_0002u32, 0x8000_4002, NS_ERROR_UNEXPECTED, 0] {
        let error = Error::from(storage(code, "step failed"));
        assert_eq!(Nsresult::from(error), Nsresult(code));
    }
}

#[test]
fn host_status_comes_back_unchanged() {
    for code in [0u32, 1, 0x8000_4005, NS_ERROR_INVALID_ARG, 0x7fff_ffff, u32::MAX] {
        let error = Error::from(named(code, "NS_SOME_NAME"));
        assert_eq!(Nsresult::from(error), Nsresult(code));
    }
}

#[test]
fn status_is_the_same_each_time() {
    for _ in 0..3 {
        assert_eq!(
            Nsresult::from(Error::UnknownItemKind(5)),
            Nsresult::from(Error::UnknownItemKind(5))
        );
        assert_eq!(
            Nsresult::from(Error::from(named(77, "A"))),
            Nsresult::from(Error::from(named(77, "B")))
        );
    }
}

#[test]
fn each_layer_lifts_to_its_variant() {
    assert!(matches!(
        Error::from(dogear::Error::from(ErrorKind::Abort)),
        Error::Dogear(_)
    ));
    assert!(matches!(
        Error::from(storage(NS_ERROR_STORAGE_BUSY, "busy")),
        Error::Storage(_)
    ));
    assert!(matches!(
        Error::from(named(0x8000_4005, "NS_ERROR_FAILURE")),
        Error::Nsresult(_)
    ));
    assert!(matches!(
        Error::from(lone_surrogate()),
        Error::MalformedString(_)
    ));
}

#[test]
fn lifting_keeps_what_was_lifted() {
    match Error::from(storage(0x8063_0002, "disk I/O error")) {
        Error::Storage(err) => {
            assert_eq!(err.status, Nsresult(0x8063_0002));
            assert_eq!(err.message, "disk I/O error");
        }
        _ => panic!("a storage error lifts to Error::Storage"),
    }
    match Error::from(named(0x8000_4005, "NS_ERROR_FAILURE")) {
        Error::Nsresult(status) => {
            assert_eq!(status.code, Nsresult(0x8000_4005));
            assert_eq!(status.name, "NS_ERROR_FAILURE");
        }
        _ => panic!("a host status lifts to Error::Nsresult"),
    }
    match Error::from(dogear::Error::from(ErrorKind::InvalidByte(9))) {
        Error::Dogear(err) => assert!(matches!(err.kind(), ErrorKind::InvalidByte(9))),
        _ => panic!("a merge error lifts to Error::Dogear"),
    }
}

#[test]
fn merge_and_storage_errors_have_a_source() {
    let error = Error::from(dogear::Error::from(ErrorKind::Abort));
    match error.source() {
        Some(Cause::Dogear(err)) => assert!(matches!(err.kind(), ErrorKind::Abort)),
        _ => panic!("the merge error is the source"),
    }
    let error = Error::from(storage(NS_ERROR_STORAGE_BUSY, "busy"));
    match error.source() {
        Some(Cause::Storage(err)) => {
            assert_eq!(err.status, Nsresult(NS_ERROR_STORAGE_BUSY));
            assert_eq!(err.message, "busy");
        }
        _ => panic!("the storage error is the source"),
    }
}

#[test]
fn the_other_errors_have_no_source() {
    let errors = vec![
        Error::InvalidLocalRoots,
        Error::InvalidRemoteRoots,
        Error::from(named(0x8000_4005, "NS_ERROR_FAILURE")),
        Error::UnknownItemKind(1),
        Error::from(lone_surrogate()),
        Error::MergeConflict,
        Error::UnknownItemValidity(1),
    ];
    assert_eq!(errors.len(), 7);
    for error in errors.iter() {
        assert!(error.source().is_none());
    }
}

#[test]
fn asking_for_the_source_leaves_the_error_whole() {
    let error = Error::from(storage(NS_ERROR_STORAGE_BUSY, "busy"));
    assert!(error.source().is_some());
    assert!(error.source().is_some());
    assert_eq!(error.to_string(), "busy");
    assert_eq!(Nsresult::from(error), Nsresult(NS_ERROR_STORAGE_BUSY));
}

fn decode(units: &[u16]) -> bookmark_sync::error::Result<String> {
    Ok(String::from_utf16(units)?)
}

fn merge_step(abort: bool) -> bookmark_sync::error::Result<u32> {
    let merged: dogear::Result<u32> = if abort {
        Err(dogear::Error::from(ErrorKind::Abort))
    } else {
        Ok(3)
    };
    Ok(merged? + 1)
}

#[test]
fn a_failing_step_is_lifted_on_its_way_up() {
    assert_eq!(decode(&[0x0062, 0x006d]).unwrap(), "bm");
    match decode(&[0x0062, 0xd800]) {
        Err(Error::MalformedString(_)) => {}
        _ => panic!("a lone surrogate is a malformed string"),
    }
    assert_eq!(merge_step(false).unwrap(), 4);
    match merge_step(true) {
        Err(error) => {
            assert!(matches!(error, Error::Dogear(_)));
            assert_eq!(error.to_string(), "Operation aborted");
            assert_eq!(Nsresult::from(error), Nsresult(NS_ERROR_UNEXPECTED));
        }
        Ok(_) => panic!("an aborted merge fails"),
    }
}
