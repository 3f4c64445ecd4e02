//! What holds of the calls and requests into which an exporter turns a batch.
use opentelemetry::sdk::export::trace::SpanData;
use opentelemetry_proto::tonic::trace::v1::ResourceSpans;
use tonic::metadata::MetadataMap;
use vstd::prelude::*;

use crate::exporter::http_proto::MAX_HEADER_NAMES;
use crate::exporter::metadata::{
    configured_entries, entries_of, metadata_entries, request_metadata, MetadataEntry,
};
use crate::laws::posting::{
    batch_posted, batch_refused, given, lemma_sent_over_http, may_be_sent, spans_kept,
};
use crate::span::{export_result, ExportAction, SpanExporter};
use crate::transform::{is_form_of, resource_spans};
use crate::Error;

verus! {

/// The entries of configured metadata, none if there is none.
pub open spec fn given_entries(metadata: Option<MetadataMap>) -> Seq<MetadataEntry> {
    if metadata is Some {
        metadata_entries(metadata->0)
    } else {
        Seq::empty()
    }
}

/// Those of the entries that have the key, in their order.
pub open spec fn having_key(entries: Seq<MetadataEntry>, key: Seq<char>) -> Seq<MetadataEntry> {
    entries.filter(|entry: MetadataEntry| entry.key == key)
}

/// Whether entries are sent as they are given: for each key the same entries, in the same order.
pub open spec fn entries_kept(given: Seq<MetadataEntry>, sent: Seq<MetadataEntry>) -> bool {
    forall|key: Seq<char>| #[trigger] having_key(sent, key) == having_key(given, key)
}

/// The number of distinct keys of the entries.
pub open spec fn distinct_keys(entries: Seq<MetadataEntry>) -> nat {
    entries.map_values(|entry: MetadataEntry| entry.key).to_set().len()
}

/// The form of a batch has one message for each span, in the place of the span.
pub proof fn law_every_span_gets_a_message(batch: Vec<SpanData>, messages: Vec<ResourceSpans>)
    requires
        call_ensures(resource_spans, (batch,), messages),
    ensures
        messages@.len() == batch@.len(),
        forall|i: int| 0 <= i < batch@.len() ==> is_form_of(#[trigger] messages@[i], batch@[i]),
{
}

/// What the contract says of metadata, for each key.
proof fn lemma_entries_kept(metadata: Option<MetadataMap>, sent: MetadataMap)
    requires
        crate::exporter::metadata::sent_as_metadata(metadata, Ok(sent)),
    ensures
        entries_kept(given_entries(metadata), metadata_entries(sent)),
{
    let configured = given_entries(metadata);
    assert(configured == configured_entries(metadata));
    assert forall|key: Seq<char>| #[trigger]
        having_key(metadata_entries(sent), key) == having_key(configured, key) by {
        assert(entries_of(metadata_entries(sent), key) == entries_of(configured, key));
    }
}

/// Entries that are kept for each key are kept one by one: each occurs as often as it is given.
proof fn lemma_entry_count(entries: Seq<MetadataEntry>, entry: MetadataEntry)
    ensures
        entries.to_multiset().count(entry) == having_key(entries, entry.key).to_multiset().count(
            entry,
        ),
    decreases entries.len(),
{
    broadcast use vstd::seq_lib::group_to_multiset_ensures;

    reveal(Seq::filter);
    if entries.len() > 0 {
        let rest = entries.drop_last();
        lemma_entry_count(rest, entry);
        assert(entries =~= rest.push(entries.last()));
    }
}

/// The metadata of a request is the configured metadata, nothing lost and nothing added: for each key
/// the same entries in the same order, and every entry as often as it is configured. It is refused
/// only for a very large number of keys.
pub proof fn law_request_metadata_is_the_configured(
    metadata: Option<MetadataMap>,
    r: Result<MetadataMap, Error>,
)
    requires
        call_ensures(request_metadata, (&metadata,), r),
    ensures
        match r {
            Ok(sent) => {
                &&& entries_kept(given_entries(metadata), metadata_entries(sent))
                &&& metadata_entries(sent).to_multiset() =~= given_entries(metadata).to_multiset()
            },
            Err(error) => {
                &&& error is TooManyHeaders
                &&& metadata is Some
                &&& distinct_keys(given_entries(metadata)) >= MAX_HEADER_NAMES
            },
        },
{
    if let Ok(sent) = r {
        lemma_entries_kept(metadata, sent);
        let given = given_entries(metadata);
        let sent = metadata_entries(sent);
        assert forall|entry: MetadataEntry| #[trigger]
            sent.to_multiset().count(entry) == given.to_multiset().count(entry) by {
            lemma_entry_count(sent, entry);
            lemma_entry_count(given, entry);
            assert(having_key(sent, entry.key) == having_key(given, entry.key));
        }
    }
}

/// Over tonic no span is lost, doubled or moved, whether or not there is metadata: the call has as
/// many messages as the batch has spans, each a form of the span in its place. It goes out over the
/// exporter's channel with the configured metadata. Only a very large number of metadata keys keeps it
/// from going out.
pub proof fn law_tonic_call_carries_every_span<T, H>(
    exporter: SpanExporter<T, H>,
    batch: Vec<SpanData>,
    r: Result<ExportAction<'_, T, H>, Error>,
)
    requires
        exporter is Tonic,
        call_ensures(SpanExporter::<T, H>::export, (&exporter, batch), r),
    ensures
        match (exporter, r) {
            (
                SpanExporter::Tonic { metadata: configured, trace_exporter: channel, .. },
                Ok(ExportAction::Tonic { trace_exporter, resource_spans, metadata }),
            ) => {
                &&& resource_spans@.len() == batch@.len()
                &&& forall|i: int|
                    0 <= i < batch@.len() ==> is_form_of(#[trigger] resource_spans@[i], batch@[i])
                &&& *trace_exporter == channel
                &&& entries_kept(given_entries(configured), metadata_entries(metadata))
            },
            (SpanExporter::Tonic { metadata: configured, .. }, Err(error)) => {
                &&& error is TooManyHeaders
                &&& configured is Some
                &&& distinct_keys(given_entries(configured)) >= MAX_HEADER_NAMES
            },
            _ => false,
        },
{
    if let SpanExporter::Tonic { metadata: configured, .. } = exporter {
        if let Ok(ExportAction::Tonic { metadata, .. }) = r {
            lemma_entries_kept(configured, metadata);
        }
    }
}

/// Over the gRPC core library the call carries the spans of the batch, the same number of them and in
/// the same order, over the exporter's channel and with its timeout and headers.
pub proof fn law_grpcio_call_carries_every_span<T, H>(
    exporter: SpanExporter<T, H>,
    batch: Vec<SpanData>,
    r: Result<ExportAction<'_, T, H>, Error>,
)
    requires
        exporter is Grpcio,
        call_ensures(SpanExporter::<T, H>::export, (&exporter, batch), r),
    ensures
        match (exporter, r) {
            (
                SpanExporter::Grpcio { timeout, headers, trace_exporter: channel },
                Ok(
                    ExportAction::Grpcio {
                        trace_exporter,
                        batch: sent,
                        timeout: limit,
                        headers: added,
                    },
                ),
            ) => {
                &&& sent@.len() == batch@.len()
                &&& forall|i: int| 0 <= i < batch@.len() ==> #[trigger] sent@[i] == batch@[i]
                &&& *trace_exporter == channel
                &&& limit == timeout
                &&& *added == headers
            },
            _ => false,
        },
{
}

/// Over HTTP nothing is sent without a client. With one, it is the exporter's client that sends, in
/// the exporter's time and to its URL, a request with its headers, from whose body every span of the
/// batch can be decoded; or else the batch could not be encoded or the headers are at fault.
pub proof fn law_http_export_carries_every_span<T, H>(
    exporter: SpanExporter<T, H>,
    batch: Vec<SpanData>,
    r: Result<ExportAction<'_, T, H>, Error>,
)
    requires
        exporter is Http,
        call_ensures(SpanExporter::<T, H>::export, (&exporter, batch), r),
    ensures
        match (exporter, r) {
            (
                SpanExporter::Http {
                    timeout,
                    headers,
                    collector_endpoint,
                    trace_exporter: Some(client),
                },
                Ok(ExportAction::Http { trace_exporter, request, timeout: limit }),
            ) => {
                &&& *trace_exporter == client
                &&& limit == timeout
                &&& batch_posted(batch@, headers, collector_endpoint, request)
            },
            (SpanExporter::Http { headers, trace_exporter: Some(_), .. }, Err(error)) => {
                batch_refused(batch@, headers, error)
            },
            (SpanExporter::Http { trace_exporter: None, .. }, Err(error)) => error is NoHttpClient,
            _ => false,
        },
{
    if let SpanExporter::Http { headers, collector_endpoint, trace_exporter, .. } = exporter {
        if trace_exporter is Some {
            match r {
                Ok(ExportAction::Http { request, .. }) => {
                    lemma_sent_over_http(batch@, headers, collector_endpoint, Ok(request));
                },
                Ok(_) => {},
                Err(error) => {
                    lemma_sent_over_http(batch@, headers, collector_endpoint, Err(error));
                },
            }
        }
    }
}

/// Over HTTP a request is owed if there is a client, every header may be sent, there are not very many
/// of them, and no form of the batch fails to be encoded.
pub proof fn law_http_export_is_owed<T, H>(
    exporter: SpanExporter<T, H>,
    batch: Vec<SpanData>,
    r: Result<ExportAction<'_, T, H>, Error>,
)
    requires
        call_ensures(SpanExporter::<T, H>::export, (&exporter, batch), r),
        match exporter {
            SpanExporter::Http { headers, trace_exporter, .. } => {
                &&& trace_exporter is Some
                &&& given(headers).len() < MAX_HEADER_NAMES
                &&& forall|i: int|
                    0 <= i < given(headers).len() ==> may_be_sent(#[trigger] given(headers)[i])
            },
            _ => false,
        },
        forall|messages: Seq<ResourceSpans>| #[trigger]
            spans_kept(batch@, messages)
                ==> crate::exporter::http_proto::encoded_request(messages) is Ok,
    ensures
        r is Ok,
{
    law_http_export_carries_every_span(exporter, batch, r);
}

/// A reply of any kind makes an export succeed, and a failure to get one is reported unchanged.
pub proof fn law_only_a_missing_reply_fails<S, E>(reply: Result<S, E>, r: Result<(), E>)
    requires
        call_ensures(export_result::<S, E>, (reply,), r),
    ensures
        r is Ok <==> reply is Ok,
        r is Err ==> r->Err_0 == reply->Err_0,
{
}

} // verus!
