//! Putting spans into the form in which the protocol sends them.
use opentelemetry::sdk::export::trace::SpanData;
use opentelemetry_proto::tonic::trace::v1::ResourceSpans;
use vstd::prelude::*;

verus! {

/// Whether the message is a form in which the protocol sends the span. A span has more than one:
/// its attributes, and those of its resource, may be listed in any order.
pub uninterp spec fn is_form_of(message: ResourceSpans, span: SpanData) -> bool;

/// `ResourceSpans::from(SpanData)`: some form of the span. Which one is left open, since the order
/// of the attributes is that in which a hash map is walked.
#[verifier::external_body]
fn resource_span(span: SpanData) -> (message: ResourceSpans)
    ensures
        is_form_of(message, span),
{
    span.into()
}

/// Whether the messages are forms of the spans of a batch: one for each span, in the same order.
pub open spec fn converted(batch: Seq<SpanData>, messages: Seq<ResourceSpans>) -> bool {
    &&& messages.len() == batch.len()
    &&& forall|i: int| 0 <= i < batch.len() ==> is_form_of(#[trigger] messages[i], batch[i])
}

/// The batch in the form of the protocol: one message for each span, in the same order.
pub fn resource_spans(batch: Vec<SpanData>) -> (messages: Vec<ResourceSpans>)
    ensures
        converted(batch@, messages@),
{
    let ghost spans = batch@;
    let mut messages: Vec<ResourceSpans> = Vec::new();
    for span in iter: batch
        invariant
            iter.seq() == spans,
            messages@.len() == iter.index(),
            forall|i: int|
                0 <= i < messages@.len() ==> is_form_of(#[trigger] messages@[i], spans[i]),
    {
        messages.push(resource_span(span));
    }
    messages
}

} // verus!
