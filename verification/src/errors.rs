//! The error taxonomy of the fetcher. Every failure is surfaced to the
//! immediate caller as a typed result; nothing is retried or swallowed.

use vstd::prelude::*;

verus! {

/// Transport construction failed; fatal to startup and not retryable.
#[derive(Debug)]
pub struct ConfigError {
    /// The builder's own description of the failure.
    pub cause: String,
}

/// A failed fetch, one variant per stage of the operation.
#[derive(Debug)]
pub enum FetchError {
    /// Network- or connection-level failure: DNS, connect timeout, TLS,
    /// connection reset.
    Transport(String),
    /// The response body could not be read to completion.
    Body(String),
    /// The body was read in full but was not valid JSON.
    Decode(String),
}

impl FetchError {
    /// The description carried by the error, whichever stage produced it.
    pub open spec fn spec_cause(self) -> String {
        match self {
            FetchError::Transport(m) => m,
            FetchError::Body(m) => m,
            FetchError::Decode(m) => m,
        }
    }

    /// The description carried by the error, whichever stage produced it.
    pub fn cause(&self) -> (r: &String)
        ensures
            r == self.spec_cause(),
    {
        match self {
            FetchError::Transport(m) => m,
            FetchError::Body(m) => m,
            FetchError::Decode(m) => m,
        }
    }
}

} // verus!
