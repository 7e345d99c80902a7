//! Exemplars: the trace and span of the call that made an observation.

use opentelemetry_api::trace::TraceContextExt;
use tracing_opentelemetry::OpenTelemetrySpanExt;
use vstd::prelude::*;

verus! {

/// Label name under which an exemplar carries the trace id.
pub const TRACE_ID_KEY: &'static str = "trace_id";

/// Label name under which an exemplar carries the span id.
pub const SPAN_ID_KEY: &'static str = "span_id";

/// The span context of the current tracing span, as plain values.
pub struct SpanContextInfo {
    /// Whether the span context is valid: a span context without an active
    /// trace is not.
    pub valid: bool,
    /// The trace id, in its textual form.
    pub trace_id: String,
    /// The span id, in its textual form.
    pub span_id: String,
}

/// `digit` is one of `0` to `9` or `a` to `f`.
pub open spec fn is_lower_hex_digit(digit: char) -> bool {
    ('0' <= digit && digit <= '9') || ('a' <= digit && digit <= 'f')
}

/// `text` is an id of `digits` hexadecimal digits in lower case that is not
/// zero: the textual form of the id of a trace (32 digits) or of a span (16
/// digits) that exists.
pub open spec fn is_id(text: Seq<char>, digits: nat) -> bool {
    &&& text.len() == digits
    &&& forall|i: int| 0 <= i < text.len() ==> is_lower_hex_digit(#[trigger] text[i])
    &&& exists|i: int| 0 <= i < text.len() && #[trigger] text[i] != '0'
}

/// `text` is the id zero in `digits` digits, which stands for no trace or
/// no span.
pub open spec fn is_zero_id(text: Seq<char>, digits: nat) -> bool {
    &&& text.len() == digits
    &&& forall|i: int| 0 <= i < text.len() ==> #[trigger] text[i] == '0'
}

impl SpanContextInfo {
    /// What holds of a span context as it is read from a span: the ids
    /// have 32 and 16 hexadecimal digits, and the context is valid exactly
    /// where neither id is zero.
    pub open spec fn as_read(&self) -> bool {
        &&& is_id(self.trace_id@, 32) || is_zero_id(self.trace_id@, 32)
        &&& is_id(self.span_id@, 16) || is_zero_id(self.span_id@, 16)
        &&& self.valid <==> is_id(self.trace_id@, 32) && is_id(self.span_id@, 16)
    }
}

/// The labels that tie one observation to a trace.
pub struct TraceLabels {
    pub trace_id: String,
    pub span_id: String,
}

impl DeepView for TraceLabels {
    type V = (Seq<char>, Seq<char>);

    /// The characters of the trace id and of the span id.
    open spec fn deep_view(&self) -> (Seq<char>, Seq<char>) {
        (self.trace_id@, self.span_id@)
    }
}

impl TraceLabels {
    /// The labels as pairs of name and value, `trace_id` first.
    pub open spec fn pairs(&self) -> Seq<(Seq<char>, Seq<char>)> {
        seq![(TRACE_ID_KEY@, self.trace_id@), (SPAN_ID_KEY@, self.span_id@)]
    }

    pub fn into_array(self) -> (labels: [(&'static str, String); 2])
        ensures
            labels.deep_view() == self.pairs(),
    {
        let labels = [(TRACE_ID_KEY, self.trace_id), (SPAN_ID_KEY, self.span_id)];
        labels
    }
}

/// The exemplar that a span context gives: its trace id and span id where
/// it is valid, none where it is not.
pub open spec fn exemplar_model(context: SpanContextInfo) -> Option<(Seq<char>, Seq<char>)> {
    if context.valid {
        Some((context.trace_id@, context.span_id@))
    } else {
        None
    }
}

/// Reads the span context of the span that `tracing::Span::current()`
/// returns: the OpenTelemetry context that
/// `tracing_opentelemetry::OpenTelemetrySpanExt::context` finds for it, the
/// span of that context (`TraceContextExt::span`) and its
/// `SpanRef::span_context`, of which `SpanContext::is_valid`, `trace_id` and
/// `span_id` are handed over, the ids as `to_string` renders them. Which
/// span context comes back depends on the span that is current on this
/// thread. The contract claims what holds of every span context: a trace id
/// is rendered in 32 and a span id in 16 hexadecimal digits in lower case,
/// and `is_valid` holds exactly where neither id is zero.
#[verifier::external_body]
fn current_span_context() -> (info: SpanContextInfo)
    ensures
        info.as_read(),
{
    let context = tracing::Span::current().context();
    let span = context.span();
    let span_context = span.span_context();
    SpanContextInfo {
        valid: span_context.is_valid(),
        trace_id: span_context.trace_id().to_string(),
        span_id: span_context.span_id().to_string(),
    }
}

/// The exemplar labels for a span context: present exactly where the
/// context is valid, and then they carry its trace id and span id.
pub fn exemplar_of(context: SpanContextInfo) -> (labels: Option<TraceLabels>)
    ensures
        labels.deep_view() == exemplar_model(context),
{
    if context.valid {
        Some(TraceLabels { trace_id: context.trace_id, span_id: context.span_id })
    } else {
        None
    }
}

/// The exemplar labels of the span that is current on this thread, if it
/// belongs to a valid trace. Labels that come back carry an id of a trace
/// and an id of a span, neither of them zero.
pub fn get_exemplar() -> (labels: Option<TraceLabels>)
    ensures
        labels matches Some(found) ==> is_id(found.trace_id@, 32) && is_id(found.span_id@, 16),
{
    exemplar_of(current_span_context())
}

/// An observation made under a valid span context carries the trace id and
/// the span id of that context; one made under a span context that is not
/// valid carries no exemplar.
pub proof fn lemma_exemplar_matches_context(context: SpanContextInfo, labels: Option<TraceLabels>)
    requires
        call_ensures(exemplar_of, (context,), labels),
    ensures
        context.valid ==> labels is Some && labels->0.trace_id@ == context.trace_id@
            && labels->0.span_id@ == context.span_id@,
        !context.valid ==> labels is None,
{
}

} // verus!
