//! The naming policy for scripts, and its side-effect-free validator.
//!
//! A candidate name is accepted when it is non-empty, no longer than
//! [`MAX_SCRIPT_NAME_LEN`] characters, and free of control characters and
//! the protocol's structural delimiters. A failure is always reported,
//! never silently corrected. The per-account collision check that commands
//! creating or renaming a script additionally need consults the storage
//! collaborator and therefore lives outside this validator.

use crate::errors::{ErrorKind, ProtocolError};
use vstd::prelude::*;

verus! {

/// The maximum accepted length of a script name, in characters.
pub const MAX_SCRIPT_NAME_LEN: usize = 512;

/// Characters a script name may not contain: ASCII control characters and
/// the protocol's structural delimiters.
pub open spec fn is_reserved_char(c: char) -> bool {
    (c as u32) < 32 || c as u32 == 127 || c == '/' || c == '"' || c == '\\' || c == '{' || c == '}'
}

/// The naming policy: non-empty, bounded in length, no reserved characters.
pub open spec fn valid_script_name(s: Seq<char>) -> bool {
    0 < s.len() <= MAX_SCRIPT_NAME_LEN && forall|i: int|
        0 <= i < s.len() ==> !is_reserved_char(#[trigger] s[i])
}

/// A script name that has passed the naming policy: every value of this
/// type satisfies [`valid_script_name`], so any name reaching storage has
/// passed the validator.
pub struct ScriptName {
    name: String,
}

impl View for ScriptName {
    type V = Seq<char>;

    closed spec fn view(&self) -> Seq<char> {
        self.name@
    }
}

impl ScriptName {
    /// The validated name, as a string slice.
    pub fn as_str(&self) -> (s: &str)
        ensures
            s@ == self@,
    {
        self.name.as_str()
    }
}

/// Validates a candidate script name against the naming policy. Succeeds
/// exactly on the names the policy admits, and never mutates anything.
pub fn validate_name(candidate: &str) -> (r: Result<ScriptName, ProtocolError>)
    ensures
        r is Ok <==> valid_script_name(candidate@),
        r matches Ok(n) ==> n@ == candidate@ && valid_script_name(n@),
        r matches Err(e) ==> e@.kind == ErrorKind::InvalidName && e@.message
            == "Invalid script name."@,
{
    let len = candidate.unicode_len();
    if len == 0 || len > MAX_SCRIPT_NAME_LEN {
        return Err(ProtocolError::new(ErrorKind::InvalidName, "Invalid script name."));
    }
    let mut i: usize = 0;
    while i < len
        invariant
            0 < len == candidate@.len() <= MAX_SCRIPT_NAME_LEN,
            0 <= i <= len,
            forall|j: int| 0 <= j < i ==> !is_reserved_char(#[trigger] candidate@[j]),
        decreases len - i,
    {
        let c = candidate.get_char(i);
        let cv = c as u32;
        if cv < 32 || cv == 127 || c == '/' || c == '"' || c == '\\' || c == '{' || c == '}' {
            assert(is_reserved_char(candidate@[i as int]));
            return Err(ProtocolError::new(ErrorKind::InvalidName, "Invalid script name."));
        }
        i = i + 1;
    }
    Ok(ScriptName { name: String::from_str(candidate) })
}

} // verus!
