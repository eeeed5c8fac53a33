//! The engine's error taxonomy.

use vstd::prelude::*;

verus! {

/// Errors the reconciliation engine can report.
///
/// - `Config`: a credential or setting is missing at startup.
/// - `Transport`: the network call itself failed.
/// - `Provider`: the provider answered with a non-success status or an
///   unusable payload; the detail carries the provider's message.
/// - `Protocol`: a local precondition was violated (for example a
///   cross-domain edit); nothing was sent to the provider.
/// - `Decode`: a response body could not be parsed as the expected schema.
#[derive(Debug, PartialEq, Eq)]
pub enum Error {
    Config(String),
    Transport(String),
    Provider(String),
    Protocol(String),
    Decode(String),
}

impl Error {
    /// The human-readable detail carried by the error.
    pub fn detail(&self) -> (r: &String)
        ensures
            r == self.spec_detail(),
    {
        match self {
            Error::Config(s) => s,
            Error::Transport(s) => s,
            Error::Provider(s) => s,
            Error::Protocol(s) => s,
            Error::Decode(s) => s,
        }
    }

    pub open spec fn spec_detail(&self) -> &String {
        match self {
            Error::Config(s) => s,
            Error::Transport(s) => s,
            Error::Provider(s) => s,
            Error::Protocol(s) => s,
            Error::Decode(s) => s,
        }
    }
}

} // verus!
