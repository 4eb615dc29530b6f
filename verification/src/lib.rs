//! A verified core for an instrumented HTTP fetch-and-decode operation.
//!
//! The library plans a tracing span for each fetch, classifies the transport
//! outcome, decodes the response body as JSON, and closes the span with the
//! recorded result. The transport itself and the telemetry pipeline are
//! external collaborators; the decisions between their calls are verified
//! here.

pub mod diag;
pub mod errors;
pub mod fetcher;
pub mod json;
pub mod span;
