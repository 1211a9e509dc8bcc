//! Command validation and quota enforcement for a ManageSieve-style
//! script-management session.
//!
//! The engine sits between a transport layer, which frames raw bytes into
//! tokenized requests, and the storage back-ends that hold an account's
//! scripts and quota usage. It validates each request against the protocol
//! grammar and the account's policy, decides whether the quota oracle must
//! be consulted, and produces a protocol-correct status response.

pub mod args;
pub mod errors;
pub mod laws;
pub mod name;
pub mod numbers;
pub mod quota;
pub mod request;
pub mod response;
pub mod session;
