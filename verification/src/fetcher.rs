//! The instrumented fetcher. It owns one long-lived transport client, built
//! once with a fixed connect timeout, and turns each transport outcome into
//! the fetch's typed result together with the one closed span the invocation
//! owes. The transport calls themselves are asynchronous I/O and are driven
//! by the caller; every decision between them is made and verified here.

use vstd::prelude::*;
use crate::errors::{ConfigError, FetchError};
use crate::json::{error_description, json_error_of, json_wf, json_value_of, rendered, render_value, to_json};
use crate::span::{SpanOutcome, SpanRecord};

verus! {

/// The fixed connect timeout, in seconds, that the transport client is built
/// with.
pub const CONNECT_TIMEOUT_SECS: u64 = 1;

#[verifier::external_type_specification]
#[verifier::external_body]
pub struct ExClient(reqwest::Client);

#[verifier::external_type_specification]
#[verifier::external_body]
pub struct ExReqwestError(reqwest::Error);

/// Relies on reqwest::ClientBuilder (new, connect_timeout, build): a client
/// configured with the given connect timeout; `build` fails only when a TLS
/// backend cannot be initialized or the system resolver configuration cannot
/// be loaded.
#[verifier::external_body]
fn build_client(timeout_secs: u64) -> (r: Result<reqwest::Client, reqwest::Error>)
{
    reqwest::ClientBuilder::new()
        .connect_timeout(std::time::Duration::from_secs(timeout_secs))
        .build()
}

/// Relies on the Display impl of reqwest::Error: the rendered description of
/// the transport failure.
#[verifier::external_body]
pub(crate) fn describe_transport_error(e: &reqwest::Error) -> String {
    e.to_string()
}

/// What the transport reported for one fetch, handed in by the driver of the
/// asynchronous calls: the full response body as text, or the stage that
/// failed with its description.
pub enum TransportEvent {
    /// The request succeeded and the body was read to completion.
    Fetched(String),
    /// Network- or connection-level failure: nothing was received.
    TransportFailed(String),
    /// The response arrived but its body could not be read in full.
    BodyFailed(String),
}

/// Everything one fetch invocation concludes with: the typed result and the
/// single span record, closed with the outcome it recorded.
pub struct FetchConclusion {
    /// The value or the typed error returned to the caller.
    pub result: Result<serde_json::Value, FetchError>,
    /// The invocation's span, closed before the conclusion is handed back.
    pub span: SpanRecord,
}

/// Owns the one transport client, created at process start and immutable for
/// its lifetime; no client is allocated per request.
pub struct Fetcher {
    client: reqwest::Client,
    timeout_secs: u64,
}

impl Fetcher {
    /// The connect timeout, in seconds, the client was built with.
    pub closed spec fn spec_timeout_secs(self) -> u64 {
        self.timeout_secs
    }

    /// The connect timeout, in seconds, the client was built with.
    pub fn timeout_secs(&self) -> (r: u64)
        ensures
            r == self.spec_timeout_secs(),
    {
        self.timeout_secs
    }

    /// Build the fetcher's transport client with the fixed connect timeout.
    /// Fails with `ConfigError` when the transport cannot be constructed; a
    /// local, non-retryable failure.
    pub fn new() -> (r: Result<Fetcher, ConfigError>)
        ensures
            (r matches Ok(f) ==> f.spec_timeout_secs() == CONNECT_TIMEOUT_SECS),
    {
        match build_client(CONNECT_TIMEOUT_SECS) {
            Ok(client) => Ok(Fetcher { client, timeout_secs: CONNECT_TIMEOUT_SECS }),
            Err(e) => Err(ConfigError { cause: describe_transport_error(&e) }),
        }
    }

    /// The owned transport client, for the caller that drives the
    /// asynchronous request with it.
    pub fn client(&self) -> &reqwest::Client {
        &self.client
    }

    /// Conclude one fetch of `url` from what the transport reported: decode
    /// the body, classify any failure, and close the invocation's span with
    /// the recorded outcome. The returned result is a function of `url` and
    /// `event` alone, so concurrent invocations cannot interfere.
    pub fn conclude(url: &str, event: TransportEvent) -> (c: FetchConclusion)
        ensures
            c.span.wf(),
            !c.span.open,
            c.span.name@ == crate::span::op_name(),
            c.span.diagnostic@ == url@.reverse(),
            c.result is Ok <==> (event matches TransportEvent::Fetched(t) && json_wf(t@)),
            (event matches TransportEvent::Fetched(t) ==> (json_wf(t@) ==>
                (c.result matches Ok(v) && v == json_value_of(t@))
                && (c.span.outcome matches Some(SpanOutcome::Value(s))
                    && s@ == rendered(json_value_of(t@))))),
            (event matches TransportEvent::Fetched(t) ==> (!json_wf(t@) ==>
                (c.result matches Err(e) && e matches FetchError::Decode(m)
                    && m@ == error_description(json_error_of(t@))))),
            (event matches TransportEvent::TransportFailed(m) ==>
                (c.result matches Err(e) && e matches FetchError::Transport(mm) && mm == m)),
            (event matches TransportEvent::BodyFailed(m) ==>
                (c.result matches Err(e) && e matches FetchError::Body(mm) && mm == m)),
            (c.result matches Err(e) ==>
                (c.span.outcome matches Some(SpanOutcome::Error(d)) && d@ == e.spec_cause()@)),
    {
        let mut span = SpanRecord::open_for(url);
        let result: Result<serde_json::Value, FetchError> = match event {
            TransportEvent::Fetched(text) => to_json(text.as_str()),
            TransportEvent::TransportFailed(m) => Err(FetchError::Transport(m)),
            TransportEvent::BodyFailed(m) => Err(FetchError::Body(m)),
        };
        match &result {
            Ok(v) => span.close_with(SpanOutcome::Value(render_value(v))),
            Err(e) => span.close_with(SpanOutcome::Error(e.cause().clone())),
        }
        FetchConclusion { result, span }
    }
}

/// Concurrent fetches cannot be confused through their telemetry: two
/// conclusions whose spans were opened for different URLs carry different
/// diagnostic attributes, so each span, and with it the recorded outcome,
/// belongs to exactly one invocation.
pub proof fn lemma_conclusions_distinct(
    u1: Seq<char>,
    u2: Seq<char>,
    c1: FetchConclusion,
    c2: FetchConclusion,
)
    requires
        u1 != u2,
        c1.span.diagnostic@ == u1.reverse(),
        c2.span.diagnostic@ == u2.reverse(),
    ensures
        c1.span.diagnostic@ != c2.span.diagnostic@,
{
    if c1.span.diagnostic@ == c2.span.diagnostic@ {
        crate::diag::lemma_reverse_injective(u1, u2);
    }
}

} // verus!
