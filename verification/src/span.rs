//! A span is an ephemeral tracing record: a name, a diagnostic attribute
//! derived from the input URL, and a recorded outcome. Exactly one span is
//! made per fetch invocation, and it is closed, success or failure, before
//! the invocation returns. The record built here is handed to the telemetry
//! pipeline by the caller; the decisions about its contents are verified.

use vstd::prelude::*;
use crate::diag::reversed;

verus! {

/// The operation name every fetch span carries.
pub open spec fn op_name() -> Seq<char> {
    "get_json_with_tracing"@
}

/// What a closed span recorded: the rendered success value or the error's
/// description.
pub enum SpanOutcome {
    Value(String),
    Error(String),
}

/// One tracing record. It starts open with no outcome and is closed exactly
/// once, with the outcome recorded at that moment.
pub struct SpanRecord {
    /// The operation name.
    pub name: String,
    /// The reversed-URL diagnostic attribute.
    pub diagnostic: String,
    /// Whether the span is still open.
    pub open: bool,
    /// The recorded outcome; present exactly when the span is closed.
    pub outcome: Option<SpanOutcome>,
}

impl SpanRecord {
    /// A span is open with no outcome yet, or closed with one recorded.
    pub open spec fn wf(self) -> bool {
        self.open <==> self.outcome is None
    }

    /// Open the span for one fetch of `url`: named after the operation,
    /// tagged with the reversed-URL diagnostic, and not yet concluded.
    pub fn open_for(url: &str) -> (s: SpanRecord)
        ensures
            s.wf(),
            s.open,
            s.name@ == op_name(),
            s.diagnostic@ == url@.reverse(),
    {
        SpanRecord {
            name: String::from_str("get_json_with_tracing"),
            diagnostic: reversed(url),
            open: true,
            outcome: None,
        }
    }

    /// Record the outcome and close the span. The name and the diagnostic
    /// attribute are kept as they were opened.
    pub fn close_with(&mut self, outcome: SpanOutcome)
        requires
            old(self).open,
        ensures
            final(self).wf(),
            !final(self).open,
            final(self).outcome == Some(outcome),
            final(self).name == old(self).name,
            final(self).diagnostic == old(self).diagnostic,
    {
        self.open = false;
        self.outcome = Some(outcome);
    }
}

} // verus!
