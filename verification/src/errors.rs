//! The error taxonomy of the engine and its fixed mapping to wire-visible
//! response codes.

use vstd::prelude::*;

verus! {

/// The kinds of failure a command handler can produce. Every kind has a
/// fixed wire code (see [`code_for`]); the human-readable message travels
/// beside the kind as free-form payload, never as the discriminant.
#[derive(Clone, Copy, Debug, PartialEq, Eq, Structural)]
pub enum ErrorKind {
    /// A required positional token is absent.
    SyntaxMissingParameter,
    /// A token is present but fails type parsing (e.g. a non-numeric size).
    SyntaxInvalidValue,
    /// A script name fails the naming policy.
    InvalidName,
    /// The command was attempted outside an authenticated session, or the
    /// account lacks the required scope.
    Unauthorized,
    /// Projected usage exceeds the account's quota ceiling.
    QuotaExceeded,
    /// A storage collaborator failed; never treated as "quota ok".
    StorageFailure,
}

/// Machine-readable response-code tokens carried on failure status lines,
/// so automated clients can branch without string matching.
#[derive(Clone, Copy, Debug, PartialEq, Eq, Structural)]
pub enum ResponseCode {
    /// Generic protocol-syntax error.
    Syntax,
    /// A script name was rejected by the naming policy.
    InvalidName,
    /// Authorization error.
    NoPermission,
    /// The projected size does not fit within the remaining quota.
    QuotaMaxSize,
    /// A transient server-side failure; the client may retry later.
    TryLater,
}

/// A failure outcome of one command: a kind plus a human-readable message.
#[derive(Clone, Debug, PartialEq, Eq)]
pub struct ProtocolError {
    pub kind: ErrorKind,
    pub message: String,
}

/// Mathematical model of a [`ProtocolError`]: the kind and the message as a
/// sequence of characters.
pub struct ErrorView {
    pub kind: ErrorKind,
    pub message: Seq<char>,
}

impl View for ProtocolError {
    type V = ErrorView;

    open spec fn view(&self) -> ErrorView {
        ErrorView { kind: self.kind, message: self.message@ }
    }
}

impl ProtocolError {
    /// Builds an error of the given kind carrying the given message.
    pub fn new(kind: ErrorKind, message: &str) -> (e: ProtocolError)
        ensures
            e@ == (ErrorView { kind, message: message@ }),
    {
        ProtocolError { kind, message: String::from_str(message) }
    }
}

/// The total, fixed mapping from internal error kind to wire response code:
/// no kind is representable without a corresponding code.
pub open spec fn code_for(kind: ErrorKind) -> ResponseCode {
    match kind {
        ErrorKind::SyntaxMissingParameter => ResponseCode::Syntax,
        ErrorKind::SyntaxInvalidValue => ResponseCode::Syntax,
        ErrorKind::InvalidName => ResponseCode::InvalidName,
        ErrorKind::Unauthorized => ResponseCode::NoPermission,
        ErrorKind::QuotaExceeded => ResponseCode::QuotaMaxSize,
        ErrorKind::StorageFailure => ResponseCode::TryLater,
    }
}

/// Executable form of the kind-to-code table.
pub fn wire_code(kind: ErrorKind) -> (code: ResponseCode)
    ensures
        code == code_for(kind),
{
    match kind {
        ErrorKind::SyntaxMissingParameter => ResponseCode::Syntax,
        ErrorKind::SyntaxInvalidValue => ResponseCode::Syntax,
        ErrorKind::InvalidName => ResponseCode::InvalidName,
        ErrorKind::Unauthorized => ResponseCode::NoPermission,
        ErrorKind::QuotaExceeded => ResponseCode::QuotaMaxSize,
        ErrorKind::StorageFailure => ResponseCode::TryLater,
    }
}

} // verus!
