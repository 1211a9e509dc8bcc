//! Positional-argument parsing shared by every command handler: an ordered
//! schema of tokens, read left to right, stopping at the first missing or
//! malformed one. A missing token and a token that fails type parsing are
//! reported as distinct syntax errors.

use crate::errors::{ErrorKind, ProtocolError};
use crate::numbers::{dec_value, parse_size, valid_size_token};
use vstd::prelude::*;

verus! {

/// The message reported when the positional parameter described by `what`
/// is absent.
pub open spec fn missing_param_message(what: Seq<char>) -> Seq<char> {
    "Expected "@ + what + " as a parameter."@
}

/// Reads the positional token at `index`. Fails with a missing-parameter
/// syntax error naming `what` exactly when the token is absent.
pub fn take_token<'a>(tokens: &'a Vec<String>, index: usize, what: &str) -> (r: Result<
    &'a String,
    ProtocolError,
>)
    ensures
        r is Ok <==> index < tokens@.len(),
        r matches Ok(t) ==> t@ == tokens@[index as int]@,
        r matches Err(e) ==> e@.kind == ErrorKind::SyntaxMissingParameter && e@.message
            == missing_param_message(what@),
{
    if index < tokens.len() {
        Ok(&tokens[index])
    } else {
        let mut message = String::from_str("Expected ");
        message.append(what);
        message.append(" as a parameter.");
        proof {
            assert(message@ =~= missing_param_message(what@));
        }
        Err(ProtocolError { kind: ErrorKind::SyntaxMissingParameter, message })
    }
}

/// Reads the positional size token at `index` and parses it. A missing
/// token and a token that is not a well-formed size are distinct errors.
pub fn take_size(tokens: &Vec<String>, index: usize) -> (r: Result<u64, ProtocolError>)
    ensures
        r is Ok <==> index < tokens@.len() && valid_size_token(tokens@[index as int]@),
        r matches Ok(v) ==> v == dec_value(tokens@[index as int]@) as u64,
        r matches Err(e) ==> e@.kind == if index < tokens@.len() {
            ErrorKind::SyntaxInvalidValue
        } else {
            ErrorKind::SyntaxMissingParameter
        },
        r matches Err(e) ==> e@.message == if index < tokens@.len() {
            "Invalid size parameter."@
        } else {
            missing_param_message("script size"@)
        },
{
    let token = match take_token(tokens, index, "script size") {
        Ok(t) => t,
        Err(e) => {
            return Err(e);
        },
    };
    match parse_size(token.as_str()) {
        Some(v) => Ok(v),
        None => Err(ProtocolError::new(ErrorKind::SyntaxInvalidValue, "Invalid size parameter.")),
    }
}

} // verus!
