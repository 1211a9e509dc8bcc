//! The engine's guarantees, stated and proved as theorems over the spec
//! model that the executable contracts are pinned to.

use crate::args::missing_param_message;
use crate::errors::{ErrorKind, ErrorView, ResponseCode};
use crate::name::valid_script_name;
use crate::numbers::{dec_value, valid_size_token};
use crate::quota::{quota_admits, spec_resolve, AccessToken, QuotaCheck};
use crate::request::RequestView;
use crate::response::StatusView;
use crate::session::{spec_dispatch, spec_havespace, ActionView, HavespaceStepView, Session};
use vstd::prelude::*;

verus! {

/// An account with quota ceiling 0 is unlimited: a capacity check with a
/// valid name and a well-formed size succeeds outright, for any size and
/// whatever the account's current usage — the oracle is never consulted.
pub proof fn lemma_unlimited_quota_always_admits(token: AccessToken, r: RequestView)
    requires
        token.quota == 0,
        r.tokens.len() >= 2,
        valid_script_name(r.tokens[0]),
        valid_size_token(r.tokens[1]),
    ensures
        spec_havespace(token, r) == HavespaceStepView::Decided(
            Ok::<StatusView, ErrorView>(StatusView::Success { message: ""@ }),
        ),
{
}

/// An account with a positive quota ceiling defers a well-formed capacity
/// check to the quota oracle, for exactly the parsed candidate size and the
/// account's own ceiling.
pub proof fn lemma_bounded_quota_defers_to_oracle(token: AccessToken, r: RequestView)
    requires
        token.quota > 0,
        r.tokens.len() >= 2,
        valid_script_name(r.tokens[0]),
        valid_size_token(r.tokens[1]),
    ensures
        spec_havespace(token, r) == HavespaceStepView::CheckQuota(
            QuotaCheck {
                account_id: token.account_id,
                size: dec_value(r.tokens[1]) as u64,
                ceiling: token.quota,
            },
        ),
{
}

/// Once the oracle reports `used` bytes, a pending check succeeds if and
/// only if `size + used <= ceiling`, and fails with the quota-exceeded code
/// if and only if `size + used > ceiling`.
pub proof fn lemma_bounded_quota_decision(check: QuotaCheck, used: u64)
    ensures
        (check.size + used <= check.ceiling) <==> spec_resolve(check, Ok(used))
            == (StatusView::Success { message: ""@ }),
        (check.size + used > check.ceiling) <==> spec_resolve(check, Ok(used))
            == (StatusView::Failure {
            code: ResponseCode::QuotaMaxSize,
            message: "Quota exceeded."@,
        }),
{
}

/// A request with no tokens at all is rejected for the missing script
/// name, whatever the account's quota — and regardless of anything that
/// might have stood where the size belongs.
pub proof fn lemma_missing_name_token(token: AccessToken, r: RequestView)
    requires
        r.tokens.len() == 0,
    ensures
        spec_havespace(token, r) == HavespaceStepView::Decided(
            Err::<StatusView, ErrorView>(
                ErrorView {
                    kind: ErrorKind::SyntaxMissingParameter,
                    message: missing_param_message("script name"@),
                },
            ),
        ),
{
}

/// A request whose name token is present but whose size token is absent is
/// rejected for the missing size.
pub proof fn lemma_missing_size_token(token: AccessToken, r: RequestView)
    requires
        r.tokens.len() == 1,
    ensures
        spec_havespace(token, r) == HavespaceStepView::Decided(
            Err::<StatusView, ErrorView>(
                ErrorView {
                    kind: ErrorKind::SyntaxMissingParameter,
                    message: missing_param_message("script size"@),
                },
            ),
        ),
{
}

/// A size token that is not a well-formed decimal numeral is rejected as an
/// invalid value — even when the name is valid, and distinctly from the
/// missing-parameter error.
pub proof fn lemma_invalid_size_token(token: AccessToken, r: RequestView)
    requires
        r.tokens.len() >= 2,
        !valid_size_token(r.tokens[1]),
    ensures
        spec_havespace(token, r) == HavespaceStepView::Decided(
            Err::<StatusView, ErrorView>(
                ErrorView {
                    kind: ErrorKind::SyntaxInvalidValue,
                    message: "Invalid size parameter."@,
                },
            ),
        ),
{
}

/// With a well-formed size, an invalid name is rejected as an invalid name
/// — never as quota-exceeded, whatever the ceiling and however large the
/// size: the name is validated before the quota is even considered.
pub proof fn lemma_invalid_name_before_quota(token: AccessToken, r: RequestView)
    requires
        r.tokens.len() >= 2,
        valid_size_token(r.tokens[1]),
        !valid_script_name(r.tokens[0]),
    ensures
        spec_havespace(token, r) == HavespaceStepView::Decided(
            Err::<StatusView, ErrorView>(
                ErrorView { kind: ErrorKind::InvalidName, message: "Invalid script name."@ },
            ),
        ),
{
}

/// The two phases of the capacity check together implement the quota
/// policy [`quota_admits`]: for a well-formed request, the check ends in
/// success — outright for an unlimited account, through the oracle for a
/// bounded one — exactly when the policy admits the parsed size on top of
/// the reported usage.
pub proof fn lemma_check_implements_quota_policy(token: AccessToken, r: RequestView, used: u64)
    requires
        r.tokens.len() >= 2,
        valid_script_name(r.tokens[0]),
        valid_size_token(r.tokens[1]),
    ensures
        quota_admits(token.quota, used, dec_value(r.tokens[1]) as u64) <==> (match spec_havespace(
            token,
            r,
        ) {
            HavespaceStepView::Decided(result) => result == Ok::<StatusView, ErrorView>(
                StatusView::Success { message: ""@ },
            ),
            HavespaceStepView::CheckQuota(check) => spec_resolve(check, Ok(used)) == (
            StatusView::Success { message: ""@ }),
        }),
{
    crate::numbers::lemma_dec_value_nonneg(r.tokens[1]);
}

/// A script command attempted outside the authenticated state is refused
/// with an authorization failure, and the refusal does not advance the
/// state machine.
pub proof fn lemma_unauthenticated_attempt_refused(s: Session, r: RequestView)
    requires
        r.command.is_script_command(),
        !(s.state is Authenticated),
    ensures
        spec_dispatch(s, r).0 == s,
        spec_dispatch(s, r).1 == ActionView::Reply(
            StatusView::Failure {
                code: ResponseCode::NoPermission,
                message: "Authentication required."@,
            },
        ),
{
}

/// End to end, for a bounded account: a well-formed capacity check passes
/// the dispatcher's gate, defers to the oracle for exactly the parsed size
/// and the account's ceiling, and — once the oracle reports `used` bytes —
/// the client sees success if and only if the candidate size plus `used`
/// fits within the ceiling.
pub proof fn lemma_capacity_check_end_to_end(s: Session, r: RequestView, used: u64)
    requires
        s.wf(),
        s.state is Authenticated,
        s.token->0.may_manage_scripts,
        s.token->0.quota > 0,
        r.command is HaveSpace,
        r.tokens.len() >= 2,
        valid_script_name(r.tokens[0]),
        valid_size_token(r.tokens[1]),
    ensures
        spec_dispatch(s, r).1 == ActionView::CheckQuota(
            QuotaCheck {
                account_id: s.token->0.account_id,
                size: dec_value(r.tokens[1]) as u64,
                ceiling: s.token->0.quota,
            },
        ),
        (spec_resolve(
            QuotaCheck {
                account_id: s.token->0.account_id,
                size: dec_value(r.tokens[1]) as u64,
                ceiling: s.token->0.quota,
            },
            Ok(used),
        ) == (StatusView::Success { message: ""@ })) <==> dec_value(r.tokens[1]) + used
            <= s.token->0.quota,
{
    crate::numbers::lemma_dec_value_nonneg(r.tokens[1]);
}

/// The capacity check is idempotent: it never mutates the session — its
/// outcome is a function of the session, the request, and the oracle
/// reading alone — so dispatching the identical request twice with no
/// intervening writes yields the identical action both times.
pub proof fn lemma_capacity_check_idempotent(s: Session, r: RequestView)
    requires
        r.command is HaveSpace,
    ensures
        spec_dispatch(s, r).0 == s,
        spec_dispatch(spec_dispatch(s, r).0, r) == spec_dispatch(s, r),
{
}

} // verus!
