//! The status response returned to the transport, and its wire encoder.
//!
//! A success line carries the status token and an optional human-readable
//! message; a failure line carries the status token, the machine-readable
//! response code, and the human message, so automated clients can branch on
//! the code without string matching.

use crate::errors::{code_for, wire_code, ErrorView, ProtocolError, ResponseCode};
use vstd::prelude::*;
use vstd::utf8::encode_utf8;

verus! {

/// The terminal outcome of one command, handed to the transport.
#[derive(Clone, Debug, PartialEq, Eq)]
pub enum StatusResponse {
    /// The command succeeded; the message may be empty.
    Success { message: String },
    /// The command failed with a machine-readable code and a human message.
    Failure { code: ResponseCode, message: String },
}

/// Mathematical model of a [`StatusResponse`].
pub enum StatusView {
    Success { message: Seq<char> },
    Failure { code: ResponseCode, message: Seq<char> },
}

impl View for StatusResponse {
    type V = StatusView;

    open spec fn view(&self) -> StatusView {
        match self {
            StatusResponse::Success { message } => StatusView::Success { message: message@ },
            StatusResponse::Failure { code, message } => StatusView::Failure {
                code: *code,
                message: message@,
            },
        }
    }
}

/// The wire spelling of each response code.
pub open spec fn code_token(code: ResponseCode) -> Seq<char> {
    match code {
        ResponseCode::Syntax => "SYNTAX"@,
        ResponseCode::InvalidName => "INVALIDNAME"@,
        ResponseCode::NoPermission => "NOPERM"@,
        ResponseCode::QuotaMaxSize => "QUOTA/MAXSIZE"@,
        ResponseCode::TryLater => "TRYLATER"@,
    }
}

/// Executable form of [`code_token`].
pub fn code_token_str(code: ResponseCode) -> (t: &'static str)
    ensures
        t@ == code_token(code),
{
    match code {
        ResponseCode::Syntax => "SYNTAX",
        ResponseCode::InvalidName => "INVALIDNAME",
        ResponseCode::NoPermission => "NOPERM",
        ResponseCode::QuotaMaxSize => "QUOTA/MAXSIZE",
        ResponseCode::TryLater => "TRYLATER",
    }
}

/// The status line for an outcome: `OK` with an optional quoted message on
/// success; `NO`, the parenthesized response code, and the quoted message
/// on failure. Every line ends in CRLF.
pub open spec fn spec_status_line(v: StatusView) -> Seq<char> {
    match v {
        StatusView::Success { message } => if message.len() == 0 {
            "OK"@ + "\r\n"@
        } else {
            "OK \""@ + message + "\""@ + "\r\n"@
        },
        StatusView::Failure { code, message } => "NO ("@ + code_token(code) + ") \""@ + message
            + "\""@ + "\r\n"@,
    }
}

/// The failure response that presents a handler error to the client,
/// carrying the wire code that [`code_for`] fixes for the error's kind.
pub open spec fn failure_view(e: ErrorView) -> StatusView {
    StatusView::Failure { code: code_for(e.kind), message: e.message }
}

impl StatusResponse {
    /// A success response carrying `message`.
    pub fn success(message: &str) -> (r: StatusResponse)
        ensures
            r@ == (StatusView::Success { message: message@ }),
    {
        StatusResponse::Success { message: String::from_str(message) }
    }

    /// A failure response carrying `code` and `message`.
    pub fn failure(code: ResponseCode, message: &str) -> (r: StatusResponse)
        ensures
            r@ == (StatusView::Failure { code, message: message@ }),
    {
        StatusResponse::Failure { code, message: String::from_str(message) }
    }

    /// Presents a handler error to the client, mapping its kind to the
    /// fixed wire code and keeping the human message as payload.
    pub fn from_error(e: ProtocolError) -> (r: StatusResponse)
        ensures
            r@ == failure_view(e@),
    {
        let code = wire_code(e.kind);
        StatusResponse::Failure { code, message: e.message }
    }

    /// Serializes the response to its wire status line.
    pub fn encode(&self) -> (line: String)
        ensures
            line@ == spec_status_line(self@),
    {
        match self {
            StatusResponse::Success { message } => {
                if message.as_str().unicode_len() == 0 {
                    let mut line = String::from_str("OK");
                    line.append("\r\n");
                    proof {
                        assert(line@ =~= "OK"@ + "\r\n"@);
                    }
                    line
                } else {
                    let mut line = String::from_str("OK \"");
                    line.append(message.as_str());
                    line.append("\"");
                    line.append("\r\n");
                    proof {
                        assert(line@ =~= "OK \""@ + message@ + "\""@ + "\r\n"@);
                    }
                    line
                }
            },
            StatusResponse::Failure { code, message } => {
                let mut line = String::from_str("NO (");
                line.append(code_token_str(*code));
                line.append(") \"");
                line.append(message.as_str());
                line.append("\"");
                line.append("\r\n");
                proof {
                    assert(line@ =~= "NO ("@ + code_token(*code) + ") \""@ + message@ + "\""@
                        + "\r\n"@);
                }
                line
            },
        }
    }

    /// Serializes the response to the bytes put on the wire: the UTF-8
    /// encoding of its status line.
    pub fn into_bytes(self) -> (b: Vec<u8>)
        ensures
            b@ == encode_utf8(spec_status_line(self@)),
    {
        let line = self.encode();
        line.as_str().as_bytes_vec()
    }
}

} // verus!
