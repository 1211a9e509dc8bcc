//! One connection's command dispatcher: the session state machine, the
//! routing of each tokenized request to its handler, and the fully
//! specified exemplar handler, the capacity check.
//!
//! The session is single-flight: one request is resolved into an action
//! before the next is accepted, which preserves response ordering on the
//! wire. The handlers never reach the collaborators themselves; where the
//! quota oracle must be consulted, the dispatcher hands back a pending
//! [`QuotaCheck`] and the caller returns the oracle's reply to
//! [`QuotaCheck::resolve`]. The check is advisory and non-transactional:
//! it writes nothing, reserves nothing, and abandoning it is always safe.

use crate::args::{missing_param_message, take_size, take_token};
use crate::errors::{ErrorKind, ErrorView, ProtocolError, ResponseCode};
use crate::name::{valid_script_name, validate_name};
use crate::numbers::{dec_value, valid_size_token};
use crate::quota::{AccessToken, QuotaCheck};
use crate::request::{Command, Request, RequestView};
use crate::response::{failure_view, StatusResponse, StatusView};
use vstd::prelude::*;

verus! {

/// The lifecycle of one session.
#[derive(Clone, Copy, Debug, PartialEq, Eq, Structural)]
pub enum SessionState {
    /// No identity has been established yet.
    Unauthenticated,
    /// The auth collaborator has issued an access token.
    Authenticated,
    /// The client has logged out; the connection is being torn down.
    Closing,
}

/// One client connection's logical state: its lifecycle stage and, once
/// authenticated, the access token the auth collaborator issued.
#[derive(Clone, Copy, Debug)]
pub struct Session {
    pub state: SessionState,
    pub token: Option<AccessToken>,
}

/// What the capacity-check handler decided before any oracle call.
#[derive(Debug, PartialEq, Eq)]
pub enum HavespaceStep {
    /// The outcome is already known: a success response, or the precise
    /// error the request earned.
    Decided(Result<StatusResponse, ProtocolError>),
    /// The arguments passed every check that needs no storage; the quota
    /// oracle must now be consulted for the recorded account.
    CheckQuota(QuotaCheck),
}

/// Mathematical model of a [`HavespaceStep`].
pub enum HavespaceStepView {
    Decided(Result<StatusView, ErrorView>),
    CheckQuota(QuotaCheck),
}

impl View for HavespaceStep {
    type V = HavespaceStepView;

    open spec fn view(&self) -> HavespaceStepView {
        match self {
            HavespaceStep::Decided(Ok(resp)) => HavespaceStepView::Decided(Ok(resp@)),
            HavespaceStep::Decided(Err(e)) => HavespaceStepView::Decided(Err(e@)),
            HavespaceStep::CheckQuota(check) => HavespaceStepView::CheckQuota(*check),
        }
    }
}

/// What the dispatcher asks of its caller for one request.
#[derive(Debug, PartialEq, Eq)]
pub enum Action {
    /// Send this response; the command is fully resolved.
    Reply(StatusResponse),
    /// Ask the quota oracle about the recorded account, then finish the
    /// command with [`QuotaCheck::resolve`] and send its response.
    CheckQuota(QuotaCheck),
    /// The verb is a script command this engine does not itself implement;
    /// hand the request, already past the authorization gate, to the
    /// surrounding handler family.
    Forward(Request),
}

/// Mathematical model of an [`Action`].
pub enum ActionView {
    Reply(StatusView),
    CheckQuota(QuotaCheck),
    Forward(RequestView),
}

impl View for Action {
    type V = ActionView;

    open spec fn view(&self) -> ActionView {
        match self {
            Action::Reply(resp) => ActionView::Reply(resp@),
            Action::CheckQuota(check) => ActionView::CheckQuota(*check),
            Action::Forward(request) => ActionView::Forward(request@),
        }
    }
}

/// The capacity-check decision, given the session's access token and the
/// request: the tokens are parsed positionally (name, then size), the name
/// is validated, and only then is the quota consulted — an unlimited
/// account (ceiling 0) succeeds without the oracle, a bounded one defers
/// to it.
pub open spec fn spec_havespace(token: AccessToken, r: RequestView) -> HavespaceStepView {
    if r.tokens.len() < 1 {
        HavespaceStepView::Decided(
            Err(
                ErrorView {
                    kind: ErrorKind::SyntaxMissingParameter,
                    message: missing_param_message("script name"@),
                },
            ),
        )
    } else if r.tokens.len() < 2 {
        HavespaceStepView::Decided(
            Err(
                ErrorView {
                    kind: ErrorKind::SyntaxMissingParameter,
                    message: missing_param_message("script size"@),
                },
            ),
        )
    } else if !valid_size_token(r.tokens[1]) {
        HavespaceStepView::Decided(
            Err(
                ErrorView {
                    kind: ErrorKind::SyntaxInvalidValue,
                    message: "Invalid size parameter."@,
                },
            ),
        )
    } else if !valid_script_name(r.tokens[0]) {
        HavespaceStepView::Decided(
            Err(ErrorView { kind: ErrorKind::InvalidName, message: "Invalid script name."@ }),
        )
    } else if token.quota == 0 {
        HavespaceStepView::Decided(Ok(StatusView::Success { message: ""@ }))
    } else {
        HavespaceStepView::CheckQuota(
            QuotaCheck {
                account_id: token.account_id,
                size: dec_value(r.tokens[1]) as u64,
                ceiling: token.quota,
            },
        )
    }
}

/// The dispatcher's decision: session verbs and unknown tags resolve in any
/// state; script commands pass the authorization gate first and an attempt
/// outside the authenticated state does not advance the state machine.
pub open spec fn spec_dispatch(s: Session, r: RequestView) -> (Session, ActionView) {
    if r.command is Unknown {
        (
            s,
            ActionView::Reply(
                StatusView::Failure { code: ResponseCode::Syntax, message: "Unknown command."@ },
            ),
        )
    } else if r.command is Logout {
        (
            Session { state: SessionState::Closing, ..s },
            ActionView::Reply(StatusView::Success { message: "Logout completed."@ }),
        )
    } else if r.command is Noop {
        (s, ActionView::Reply(StatusView::Success { message: ""@ }))
    } else if !(s.state is Authenticated) {
        (
            s,
            ActionView::Reply(
                StatusView::Failure {
                    code: ResponseCode::NoPermission,
                    message: "Authentication required."@,
                },
            ),
        )
    } else if !s.token->0.may_manage_scripts {
        (
            s,
            ActionView::Reply(
                StatusView::Failure {
                    code: ResponseCode::NoPermission,
                    message: "Insufficient permissions."@,
                },
            ),
        )
    } else if r.command is HaveSpace {
        match spec_havespace(s.token->0, r) {
            HavespaceStepView::Decided(Ok(resp)) => (s, ActionView::Reply(resp)),
            HavespaceStepView::Decided(Err(e)) => (s, ActionView::Reply(failure_view(e))),
            HavespaceStepView::CheckQuota(check) => (s, ActionView::CheckQuota(check)),
        }
    } else {
        (s, ActionView::Forward(r))
    }
}

impl Session {
    /// A session is well formed when an authenticated state always holds a
    /// token.
    pub open spec fn wf(self) -> bool {
        self.state is Authenticated ==> self.token is Some
    }

    /// A fresh, unauthenticated session.
    pub fn new() -> (s: Session)
        ensures
            s.state is Unauthenticated,
            s.token is None,
            s.wf(),
    {
        Session { state: SessionState::Unauthenticated, token: None }
    }

    /// Installs the access token the auth collaborator issued and moves the
    /// session to the authenticated state.
    pub fn authenticate(&mut self, token: AccessToken)
        requires
            old(self).state is Unauthenticated,
        ensures
            final(self).state is Authenticated,
            final(self).token == Some(token),
            final(self).wf(),
    {
        self.state = SessionState::Authenticated;
        self.token = Some(token);
    }

    /// The capacity-check handler. Parses the two positional tokens (a
    /// script name and a candidate size), validates the name, and decides
    /// the check as far as it can without the quota oracle; it mutates
    /// nothing.
    pub fn handle_havespace(&self, request: &Request) -> (step: HavespaceStep)
        requires
            self.wf(),
            self.state is Authenticated,
        ensures
            step@ == spec_havespace(self.token->0, request@),
    {
        let token = self.token.unwrap();
        let name_token = match take_token(&request.tokens, 0, "script name") {
            Ok(t) => t,
            Err(e) => {
                return HavespaceStep::Decided(Err(e));
            },
        };
        let size = match take_size(&request.tokens, 1) {
            Ok(v) => v,
            Err(e) => {
                return HavespaceStep::Decided(Err(e));
            },
        };
        match validate_name(name_token.as_str()) {
            Ok(_) => (),
            Err(e) => {
                return HavespaceStep::Decided(Err(e));
            },
        };
        if token.quota == 0 {
            HavespaceStep::Decided(Ok(StatusResponse::success("")))
        } else {
            HavespaceStep::CheckQuota(
                QuotaCheck { account_id: token.account_id, size, ceiling: token.quota },
            )
        }
    }

    /// Routes one request to its handler. Session verbs and unknown tags
    /// resolve in any state; script commands are admitted only in the
    /// authenticated state and with the script-management scope, and a
    /// refused attempt leaves the session unchanged. The capacity check is
    /// handled here; sibling script commands are handed back, already past
    /// the authorization gate, as [`Action::Forward`].
    pub fn dispatch(&mut self, request: Request) -> (act: Action)
        requires
            old(self).wf(),
        ensures
            *final(self) == spec_dispatch(*old(self), request@).0,
            act@ == spec_dispatch(*old(self), request@).1,
            final(self).wf(),
    {
        match request.command {
            Command::Unknown => Action::Reply(
                StatusResponse::failure(ResponseCode::Syntax, "Unknown command."),
            ),
            Command::Logout => {
                self.state = SessionState::Closing;
                Action::Reply(StatusResponse::success("Logout completed."))
            },
            Command::Noop => Action::Reply(StatusResponse::success("")),
            _ => {
                let authenticated = match self.state {
                    SessionState::Authenticated => true,
                    _ => false,
                };
                if !authenticated {
                    return Action::Reply(
                        StatusResponse::from_error(
                            ProtocolError::new(ErrorKind::Unauthorized, "Authentication required."),
                        ),
                    );
                }
                if !self.token.unwrap().may_manage_scripts {
                    return Action::Reply(
                        StatusResponse::from_error(
                            ProtocolError::new(
                                ErrorKind::Unauthorized,
                                "Insufficient permissions.",
                            ),
                        ),
                    );
                }
                let havespace = match request.command {
                    Command::HaveSpace => true,
                    _ => false,
                };
                if havespace {
                    match self.handle_havespace(&request) {
                        HavespaceStep::Decided(Ok(resp)) => Action::Reply(resp),
                        HavespaceStep::Decided(Err(e)) => Action::Reply(
                            StatusResponse::from_error(e),
                        ),
                        HavespaceStep::CheckQuota(check) => Action::CheckQuota(check),
                    }
                } else {
                    Action::Forward(request)
                }
            },
        }
    }
}

} // verus!
