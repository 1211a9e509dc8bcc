//! The wire encoding of status responses and the error-kind to
//! response-code table.

use managesieve::errors::{wire_code, ErrorKind, ProtocolError, ResponseCode};
use managesieve::response::StatusResponse;

#[test]
fn success_without_message() {
    let resp = StatusResponse::success("");
    assert_eq!(resp.encode(), "OK\r\n");
    assert_eq!(resp.into_bytes(), b"OK\r\n".to_vec());
}

#[test]
fn success_with_message() {
    let resp = StatusResponse::success("Logout completed.");
    assert_eq!(resp.encode(), "OK \"Logout completed.\"\r\n");
}

#[test]
fn failure_carries_code_and_message() {
    let resp = StatusResponse::failure(ResponseCode::QuotaMaxSize, "Quota exceeded.");
    assert_eq!(resp.encode(), "NO (QUOTA/MAXSIZE) \"Quota exceeded.\"\r\n");
    assert_eq!(
        resp.into_bytes(),
        b"NO (QUOTA/MAXSIZE) \"Quota exceeded.\"\r\n".to_vec()
    );
}

#[test]
fn encoding_is_utf8() {
    let resp = StatusResponse::success("déjà");
    assert_eq!(resp.into_bytes(), "OK \"déjà\"\r\n".as_bytes().to_vec());
}

#[test]
fn every_kind_has_a_code() {
    assert_eq!(wire_code(ErrorKind::SyntaxMissingParameter), ResponseCode::Syntax);
    assert_eq!(wire_code(ErrorKind::SyntaxInvalidValue), ResponseCode::Syntax);
    assert_eq!(wire_code(ErrorKind::InvalidName), ResponseCode::InvalidName);
    assert_eq!(wire_code(ErrorKind::Unauthorized), ResponseCode::NoPermission);
    assert_eq!(wire_code(ErrorKind::QuotaExceeded), ResponseCode::QuotaMaxSize);
    assert_eq!(wire_code(ErrorKind::StorageFailure), ResponseCode::TryLater);
}

#[test]
fn errors_present_as_failures() {
    let e = ProtocolError::new(ErrorKind::InvalidName, "Invalid script name.");
    let resp = StatusResponse::from_error(e);
    assert_eq!(resp.encode(), "NO (INVALIDNAME) \"Invalid script name.\"\r\n");
}

#[test]
fn code_tokens_are_distinct() {
    let codes = [
        ResponseCode::Syntax,
        ResponseCode::InvalidName,
        ResponseCode::NoPermission,
        ResponseCode::QuotaMaxSize,
        ResponseCode::TryLater,
    ];
    for (i, a) in codes.iter().enumerate() {
        for b in codes.iter().skip(i + 1) {
            let ra = StatusResponse::failure(*a, "m").encode();
            let rb = StatusResponse::failure(*b, "m").encode();
            assert_ne!(ra, rb);
        }
    }
}
