//! Quota policy and the deferred half of the capacity check.
//!
//! The aggregate "used quota" figure is owned by the storage collaborator;
//! this core reads it once per check through the quota oracle and never
//! caches it. A [`QuotaCheck`] records what a handler decided before the
//! oracle was consulted; [`QuotaCheck::resolve`] finishes the decision for
//! whatever the oracle returned.

use crate::errors::{ErrorKind, ProtocolError, ResponseCode};
use crate::response::{StatusResponse, StatusView};
use vstd::prelude::*;

verus! {

/// The authenticated identity snapshot the session holds: the primary
/// account id, the account's quota ceiling in bytes (0 meaning unlimited),
/// and whether the account's scope admits script management. Immutable for
/// the lifetime of one command's processing.
#[derive(Clone, Copy, Debug, PartialEq, Eq, Structural)]
pub struct AccessToken {
    pub account_id: u32,
    pub quota: u64,
    pub may_manage_scripts: bool,
}

/// The quota policy: an upload of `size` bytes is admitted when the ceiling
/// is 0 (unlimited) or the projected usage stays within the ceiling. Stated
/// over mathematical integers, so no overflow can distort the comparison.
pub open spec fn quota_admits(ceiling: u64, used: u64, size: u64) -> bool {
    ceiling == 0 || size + used <= ceiling
}

/// An error of the storage collaborator, carried back to the engine by the
/// caller of the quota oracle. Its context is logged, never shown to the
/// client.
#[derive(Clone, Debug, PartialEq, Eq)]
pub struct StorageError {
    pub context: String,
}

/// A capacity check that still needs the quota oracle: the account to ask
/// about, the candidate size, and the account's non-zero ceiling.
#[derive(Clone, Copy, Debug, PartialEq, Eq, Structural)]
pub struct QuotaCheck {
    pub account_id: u32,
    pub size: u64,
    pub ceiling: u64,
}

/// The outcome of a pending check once the oracle has answered: success
/// exactly when the projected usage fits; quota-exceeded otherwise; and an
/// opaque transient failure when the oracle itself failed, never a false
/// success and never a leak of storage internals.
pub open spec fn spec_resolve(check: QuotaCheck, usage: Result<u64, StorageError>) -> StatusView {
    match usage {
        Ok(used) => if check.size + used <= check.ceiling {
            StatusView::Success { message: ""@ }
        } else {
            StatusView::Failure { code: ResponseCode::QuotaMaxSize, message: "Quota exceeded."@ }
        },
        Err(_) => StatusView::Failure {
            code: ResponseCode::TryLater,
            message: "Temporary server failure."@,
        },
    }
}

impl QuotaCheck {
    /// A pending check is well formed when its ceiling is bounded; an
    /// unlimited account never defers to the oracle.
    pub open spec fn wf(self) -> bool {
        self.ceiling > 0
    }

    /// Finishes the capacity check with the quota oracle's reply. A storage
    /// failure propagates as an error response, never as a false success.
    pub fn resolve(&self, usage: Result<u64, StorageError>) -> (resp: StatusResponse)
        ensures
            resp@ == spec_resolve(*self, usage),
    {
        match usage {
            Ok(used) => {
                if used <= self.ceiling && self.size <= self.ceiling - used {
                    StatusResponse::success("")
                } else {
                    StatusResponse::from_error(
                        ProtocolError::new(ErrorKind::QuotaExceeded, "Quota exceeded."),
                    )
                }
            },
            Err(_) => StatusResponse::from_error(
                ProtocolError::new(ErrorKind::StorageFailure, "Temporary server failure."),
            ),
        }
    }
}

} // verus!
