//! End-to-end behaviour of the capacity check: parsing, name validation,
//! the unlimited-quota sentinel, and the quota decision.

use managesieve::errors::{ErrorKind, ResponseCode};
use managesieve::quota::{AccessToken, QuotaCheck, StorageError};
use managesieve::request::{Command, Request};
use managesieve::response::StatusResponse;
use managesieve::session::{Action, HavespaceStep, Session};

fn authed(quota: u64) -> Session {
    let mut s = Session::new();
    s.authenticate(AccessToken { account_id: 7, quota, may_manage_scripts: true });
    s
}

fn havespace(tokens: &[&str]) -> Request {
    Request {
        command: Command::HaveSpace,
        tokens: tokens.iter().map(|t| t.to_string()).collect(),
    }
}

#[test]
fn within_quota_is_ok() {
    // ceiling=1000, used=400, size="500" -> Ok
    let mut s = authed(1000);
    let act = s.dispatch(havespace(&["script1", "500"]));
    match act {
        Action::CheckQuota(check) => {
            assert_eq!(check.account_id, 7);
            assert_eq!(check.size, 500);
            assert_eq!(check.ceiling, 1000);
            let resp = check.resolve(Ok(400));
            assert_eq!(resp, StatusResponse::Success { message: String::new() });
        }
        other => panic!("expected a quota-oracle query, got {:?}", other),
    }
}

#[test]
fn over_quota_is_rejected() {
    // ceiling=1000, used=400, size="700" -> Err(QuotaExceeded)
    let mut s = authed(1000);
    let act = s.dispatch(havespace(&["script1", "700"]));
    match act {
        Action::CheckQuota(check) => {
            let resp = check.resolve(Ok(400));
            assert_eq!(
                resp,
                StatusResponse::Failure {
                    code: ResponseCode::QuotaMaxSize,
                    message: "Quota exceeded.".to_string(),
                }
            );
        }
        other => panic!("expected a quota-oracle query, got {:?}", other),
    }
}

#[test]
fn exact_fit_is_ok() {
    let check = QuotaCheck { account_id: 7, size: 600, ceiling: 1000 };
    let resp = check.resolve(Ok(400));
    assert_eq!(resp, StatusResponse::Success { message: String::new() });
}

#[test]
fn one_byte_over_is_rejected() {
    let check = QuotaCheck { account_id: 7, size: 601, ceiling: 1000 };
    let resp = check.resolve(Ok(400));
    assert!(matches!(
        resp,
        StatusResponse::Failure { code: ResponseCode::QuotaMaxSize, .. }
    ));
}

#[test]
fn zero_ceiling_is_unlimited() {
    // ceiling=0, used=999999, size="999999999" -> Ok without any oracle call
    let mut s = authed(0);
    let act = s.dispatch(havespace(&["script1", "999999999"]));
    assert_eq!(
        act,
        Action::Reply(StatusResponse::Success { message: String::new() })
    );
}

#[test]
fn missing_size_token() {
    // tokens=["script1"] -> Err(SyntaxMissingParameter, "size")
    let s = authed(1000);
    let step = s.handle_havespace(&havespace(&["script1"]));
    match step {
        HavespaceStep::Decided(Err(e)) => {
            assert_eq!(e.kind, ErrorKind::SyntaxMissingParameter);
            assert_eq!(e.message, "Expected script size as a parameter.");
        }
        other => panic!("expected a missing-parameter error, got {:?}", other),
    }
}

#[test]
fn missing_name_token() {
    let s = authed(1000);
    let step = s.handle_havespace(&havespace(&[]));
    match step {
        HavespaceStep::Decided(Err(e)) => {
            assert_eq!(e.kind, ErrorKind::SyntaxMissingParameter);
            assert_eq!(e.message, "Expected script name as a parameter.");
        }
        other => panic!("expected a missing-parameter error, got {:?}", other),
    }
}

#[test]
fn non_numeric_size() {
    // tokens=["script1","abc"] -> Err(SyntaxInvalidValue)
    let s = authed(1000);
    let step = s.handle_havespace(&havespace(&["script1", "abc"]));
    match step {
        HavespaceStep::Decided(Err(e)) => {
            assert_eq!(e.kind, ErrorKind::SyntaxInvalidValue);
            assert_eq!(e.message, "Invalid size parameter.");
        }
        other => panic!("expected an invalid-value error, got {:?}", other),
    }
}

#[test]
fn invalid_name_beats_quota() {
    // tokens=["bad/name","10"] -> Err(InvalidName), ceiling and usage irrelevant
    let s = authed(1);
    let step = s.handle_havespace(&havespace(&["bad/name", "10"]));
    match step {
        HavespaceStep::Decided(Err(e)) => {
            assert_eq!(e.kind, ErrorKind::InvalidName);
            assert_eq!(e.message, "Invalid script name.");
        }
        other => panic!("expected an invalid-name error, got {:?}", other),
    }
}

#[test]
fn invalid_name_with_huge_size_still_invalid_name() {
    let s = authed(10);
    let step = s.handle_havespace(&havespace(&["bad/name", "999999999999"]));
    assert!(matches!(
        step,
        HavespaceStep::Decided(Err(e)) if e.kind == ErrorKind::InvalidName
    ));
}

#[test]
fn non_numeric_size_beats_name_validation() {
    let s = authed(10);
    let step = s.handle_havespace(&havespace(&["bad/name", "abc"]));
    assert!(matches!(
        step,
        HavespaceStep::Decided(Err(e)) if e.kind == ErrorKind::SyntaxInvalidValue
    ));
}

#[test]
fn storage_failure_is_not_success() {
    let check = QuotaCheck { account_id: 7, size: 1, ceiling: 1000 };
    let resp = check.resolve(Err(StorageError { context: "backend unreachable".to_string() }));
    assert_eq!(
        resp,
        StatusResponse::Failure {
            code: ResponseCode::TryLater,
            message: "Temporary server failure.".to_string(),
        }
    );
}

#[test]
fn storage_failure_message_is_opaque() {
    let check = QuotaCheck { account_id: 7, size: 1, ceiling: 1000 };
    let a = check.resolve(Err(StorageError { context: "secret path /var/db".to_string() }));
    let b = check.resolve(Err(StorageError { context: "other cause".to_string() }));
    assert_eq!(a, b);
}

#[test]
fn repeated_checks_are_identical() {
    let mut s = authed(1000);
    let first = s.dispatch(havespace(&["script1", "500"]));
    let second = s.dispatch(havespace(&["script1", "500"]));
    assert_eq!(first, second);
    match (first, second) {
        (Action::CheckQuota(c1), Action::CheckQuota(c2)) => {
            assert_eq!(c1.resolve(Ok(400)), c2.resolve(Ok(400)));
        }
        _ => panic!("expected quota-oracle queries"),
    }
}
