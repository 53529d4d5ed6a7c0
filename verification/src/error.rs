//! Error taxonomy of the aggregation core.
//!
//! Each kind carries the diagnostic text surfaced by the failing layer. A
//! failure is always scoped to a single account's fetch chain: it aborts that
//! chain and is reported to the orchestrator, never to sibling fetches.

use vstd::prelude::*;

verus! {

/// One failure kind per layer that can fail inside an account's fetch chain.
#[derive(Debug, Clone, PartialEq, Eq)]
pub enum Error {
    /// RPC-layer failure talking to the account service.
    AccountService(String),
    /// Transport-level failure calling a provider API.
    RemoteHttp(String),
    /// Non-success status code from a provider API, with the surfaced
    /// response body text.
    RemoteApi(String),
    /// Malformed or unexpected payload shape from a provider.
    PayloadDecode(String),
    /// Invalid calendar-date component.
    DateRange(String),
    /// Catch-all for provider-internal failures.
    Unknown(String),
}

impl Error {
    /// The diagnostic text carried by this error, whatever its kind.
    pub open spec fn text(self) -> Seq<char> {
        match self {
            Error::AccountService(s) => s@,
            Error::RemoteHttp(s) => s@,
            Error::RemoteApi(s) => s@,
            Error::PayloadDecode(s) => s@,
            Error::DateRange(s) => s@,
            Error::Unknown(s) => s@,
        }
    }

    /// Surfaces the diagnostic text, for logging by the caller.
    pub fn message(&self) -> (m: &str)
        ensures
            m@ == self.text(),
    {
        match self {
            Error::AccountService(s) => s.as_str(),
            Error::RemoteHttp(s) => s.as_str(),
            Error::RemoteApi(s) => s.as_str(),
            Error::PayloadDecode(s) => s.as_str(),
            Error::DateRange(s) => s.as_str(),
            Error::Unknown(s) => s.as_str(),
        }
    }
}

} // verus!
