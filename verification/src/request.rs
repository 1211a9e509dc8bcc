//! Tokenized requests, as the transport's tokenizer delivers them: a
//! command verb and an ordered sequence of string tokens. Tokens are
//! untyped until a handler parses them; their order is positional and
//! significant.

use vstd::prelude::*;

verus! {

/// The closed set of command verbs the dispatcher routes.
#[derive(Clone, Copy, Debug, PartialEq, Eq, Structural)]
pub enum Command {
    /// The capacity check: would an upload of a given size fit the quota?
    HaveSpace,
    /// Upload a script.
    PutScript,
    /// Fetch a script.
    GetScript,
    /// Delete a script.
    DeleteScript,
    /// Rename a script.
    RenameScript,
    /// Activate a script.
    SetActive,
    /// List the account's scripts.
    ListScripts,
    /// Session verb: do nothing.
    Noop,
    /// Session verb: end the session.
    Logout,
    /// A command tag the tokenizer did not recognize.
    Unknown,
}

impl Command {
    /// The verbs that manage scripts and therefore need an authenticated,
    /// suitably scoped session.
    pub open spec fn is_script_command(self) -> bool {
        match self {
            Command::HaveSpace => true,
            Command::PutScript => true,
            Command::GetScript => true,
            Command::DeleteScript => true,
            Command::RenameScript => true,
            Command::SetActive => true,
            Command::ListScripts => true,
            Command::Noop => false,
            Command::Logout => false,
            Command::Unknown => false,
        }
    }
}

/// One tokenized request: the verb plus its positional string tokens.
#[derive(Clone, Debug, PartialEq, Eq)]
pub struct Request {
    pub command: Command,
    pub tokens: Vec<String>,
}

/// Mathematical model of a [`Request`].
pub struct RequestView {
    pub command: Command,
    pub tokens: Seq<Seq<char>>,
}

impl View for Request {
    type V = RequestView;

    open spec fn view(&self) -> RequestView {
        RequestView {
            command: self.command,
            tokens: Seq::new(self.tokens@.len(), |i: int| self.tokens@[i]@),
        }
    }
}

} // verus!
