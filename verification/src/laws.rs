//! What holds of the exporter as a whole, whatever it is given.
pub mod building;
pub mod channels;
pub mod debugging;
pub mod exporting;
pub mod posting;

use http::Uri;
use opentelemetry::sdk::export::trace::SpanData;
use opentelemetry::sdk::trace::Config;
use opentelemetry_proto::tonic::trace::v1::ResourceSpans;
use std::time::Duration;
use tonic::metadata::MetadataMap;
use tonic::transport::{ClientTlsConfig, Endpoint};
use vstd::prelude::*;

use crate::exporter::grpc_sys::{channel_security, ChannelSecurity, Credentials};
use crate::exporter::grpc_tonic::{
    endpoint_with_tls, parsed_u64, traces_endpoint_text, traces_timeout_of, Channel, ChannelChoice,
    ExporterChannel, TonicExporterBuilder,
};
use crate::exporter::http_proto::{
    decoded_request, first_fault, header_contents, header_fault, header_name, header_value,
    overlaid, posted, sent_over_http, HttpRequest, MAX_HEADER_NAMES,
};
use crate::exporter::metadata::{
    configured_entries, entries_of, keys_of, lemma_keys_of, metadata_entries, same_metadata,
    MetadataEntry,
};
use crate::span::{
    ExportAction, OtlpTracePipeline, SpanExporter, SpanExporterBuilder, SpanProcessor,
    TRACER_NAME, TRACER_VERSION,
};
use crate::transform::converted;
use crate::{Error, ErrorView};

verus! {

/// A custom channel is used whatever the builder had before, be it an error: the exporter is built
/// over it, with the builder's timeout and metadata.
pub proof fn law_custom_channel_is_used<T, C, H>(
    builder: TonicExporterBuilder<T>,
    channel: Channel<C>,
)
    ensures
        SpanExporterBuilder::<C, H>::Tonic(builder.setting_channel(channel)).built() == Ok::<
            SpanExporter<C, H>,
            ErrorView,
        >(
            SpanExporter::Tonic {
                timeout: builder.exporter_config.timeout,
                metadata: builder.tonic_config.metadata,
                trace_exporter: ExporterChannel::Custom(channel.0),
            },
        ),
{
}

/// A custom channel overrides TLS settings, whether these are made before it or after.
pub proof fn law_custom_channel_overrides_tls<T, C, H>(
    builder: TonicExporterBuilder<T>,
    channel: Channel<C>,
    tls_config: ClientTlsConfig,
)
    ensures
        SpanExporterBuilder::<C, H>::Tonic(
            builder.setting_tls_config(tls_config).setting_channel(channel),
        ).built() == SpanExporterBuilder::<C, H>::Tonic(builder.setting_channel(channel)).built(),
        SpanExporterBuilder::<C, H>::Tonic(
            builder.setting_channel(channel).setting_tls_config(tls_config),
        ).built() == SpanExporterBuilder::<C, H>::Tonic(builder.setting_channel(channel)).built(),
{
}

/// TLS settings protect the channel to the collector endpoint: unless there is a custom channel, the
/// exporter is built over that endpoint under the settings, with the builder's timeout and metadata.
/// Settings that cannot be applied keep it from being built.
pub proof fn law_tls_settings_protect_the_channel<T, H>(
    builder: TonicExporterBuilder<T>,
    endpoint: Endpoint,
    tls_config: ClientTlsConfig,
)
    requires
        builder.channel == ChannelChoice::<T>::Collector(Ok(Channel(endpoint))),
    ensures
        SpanExporterBuilder::<T, H>::Tonic(builder.setting_tls_config(tls_config)).built()
            == match endpoint_with_tls(endpoint, tls_config) {
            Ok(secured) => Ok::<SpanExporter<T, H>, ErrorView>(
                SpanExporter::Tonic {
                    timeout: builder.exporter_config.timeout,
                    metadata: builder.tonic_config.metadata,
                    trace_exporter: ExporterChannel::Collector(secured),
                },
            ),
            Err(reason) => Err(ErrorView::Transport(reason)),
        },
{
}

/// Without a custom channel and without TLS settings, the exporter is built over the collector
/// endpoint as it is; if that could not be made, the exporter cannot be built for the same reason,
/// whatever the settings are.
pub proof fn law_collector_channel_is_used<T, H>(
    builder: TonicExporterBuilder<T>,
    channel: Result<Channel<Endpoint>, Error>,
)
    requires
        builder.channel == ChannelChoice::<T>::Collector(channel),
        channel is Ok ==> builder.tonic_config.tls_config is None,
    ensures
        SpanExporterBuilder::<T, H>::Tonic(builder).built() == match channel {
            Ok(channel) => Ok::<SpanExporter<T, H>, ErrorView>(
                SpanExporter::Tonic {
                    timeout: builder.exporter_config.timeout,
                    metadata: builder.tonic_config.metadata,
                    trace_exporter: ExporterChannel::Collector(channel.0),
                },
            ),
            Err(error) => Err(error@),
        },
{
}

/// The settings of a tonic exporter do not interfere: they may be made in any order.
pub proof fn law_tonic_settings_commute<T, C>(
    builder: TonicExporterBuilder<T>,
    metadata: MetadataMap,
    tls_config: ClientTlsConfig,
    channel: Channel<C>,
)
    ensures
        builder.setting_metadata(metadata).setting_tls_config(tls_config)
            == builder.setting_tls_config(tls_config).setting_metadata(metadata),
        builder.setting_metadata(metadata).setting_channel(channel) == builder.setting_channel(
            channel,
        ).setting_metadata(metadata),
        builder.setting_tls_config(tls_config).setting_channel(channel) == builder.setting_channel(
            channel,
        ).setting_tls_config(tls_config),
{
}

/// Of two settings of the same kind the later one holds.
pub proof fn law_last_tonic_setting_holds<T, C, D>(
    builder: TonicExporterBuilder<T>,
    metadata: (MetadataMap, MetadataMap),
    tls_config: (ClientTlsConfig, ClientTlsConfig),
    channel: Channel<C>,
    later: Channel<D>,
)
    ensures
        builder.setting_metadata(metadata.0).setting_metadata(metadata.1)
            == builder.setting_metadata(metadata.1),
        builder.setting_tls_config(tls_config.0).setting_tls_config(tls_config.1)
            == builder.setting_tls_config(tls_config.1),
        builder.setting_channel(channel).setting_channel(later) == builder.setting_channel(later),
{
}

/// The settings of a pipeline may be made in either order, and of two exporters, or two
/// configurations, the later one holds.
pub proof fn law_pipeline_settings<T, H>(
    pipeline: OtlpTracePipeline<T, H>,
    builder: SpanExporterBuilder<T, H>,
    later_builder: SpanExporterBuilder<T, H>,
    config: Config,
    later_config: Config,
)
    ensures
        pipeline.setting_exporter(builder).setting_trace_config(config)
            == pipeline.setting_trace_config(config).setting_exporter(builder),
        pipeline.setting_exporter(builder).setting_exporter(later_builder)
            == pipeline.setting_exporter(later_builder),
        pipeline.setting_trace_config(config).setting_trace_config(later_config)
            == pipeline.setting_trace_config(later_config),
{
}

/// A pipeline to which no exporter was given is not installed, whatever else is set.
pub proof fn law_install_needs_exporter<T, H, R>(config: Config, processor: SpanProcessor<R>)
    ensures
        OtlpTracePipeline::<T, H>::unset().installed(processor) is Err,
        OtlpTracePipeline::<T, H>::unset().installed(processor)->Err_0 == ErrorView::NoExporterBuilder,
        OtlpTracePipeline::<T, H>::unset().setting_trace_config(config).installed(processor) is Err,
        OtlpTracePipeline::<T, H>::unset().setting_trace_config(config).installed(processor)->Err_0
            == ErrorView::NoExporterBuilder,
{
}

/// A pipeline is installed exactly if an exporter was given to it and that exporter can be built;
/// what is installed is that exporter, under the name and the version of this crate.
pub proof fn law_install_is_building<T, H, R>(
    pipeline: OtlpTracePipeline<T, H>,
    builder: SpanExporterBuilder<T, H>,
    processor: SpanProcessor<R>,
)
    ensures
        match builder.built() {
            Ok(exporter) => {
                &&& pipeline.setting_exporter(builder).installed(processor) matches Ok(setup)
                &&& setup.exporter == exporter
                &&& setup.processor == processor
                &&& setup.trace_config == pipeline.trace_config
                &&& setup.tracer_name == TRACER_NAME
                &&& setup.tracer_version == Some(TRACER_VERSION)
            },
            Err(error) => {
                &&& pipeline.setting_exporter(builder).installed(processor) matches Err(reason)
                &&& reason == error
            },
        },
{
}

/// Whether spans are processed one by one or in batches decides nothing else: both kinds of
/// installation fail with the same error, or set up the same exporter, configuration and tracer.
pub proof fn law_installations_agree<T, H, R>(pipeline: OtlpTracePipeline<T, H>, runtime: R)
    ensures
        match (
            pipeline.installed(SpanProcessor::<()>::Simple),
            pipeline.installed(SpanProcessor::Batch(runtime)),
        ) {
            (Ok(simple), Ok(batch)) => {
                &&& simple.exporter == batch.exporter
                &&& simple.trace_config == batch.trace_config
                &&& simple.tracer_name == batch.tracer_name
                &&& simple.tracer_version == batch.tracer_version
                &&& simple.schema_url == batch.schema_url
            },
            (Err(simple), Err(batch)) => simple == batch,
            _ => false,
        },
{
}

/// A channel is left unprotected exactly if there are no credentials and TLS is not asked for.
pub proof fn law_unprotected_only_on_purpose(
    credentials: Option<Credentials>,
    use_tls: Option<bool>,
)
    ensures
        channel_security(credentials, use_tls) is Insecure <==> credentials is None && use_tls
            != Some(true),
        credentials is Some ==> channel_security(credentials, use_tls)
            == ChannelSecurity::TlsWithCredentials(credentials->0),
{
}

/// An endpoint that is given for spans is taken as it is: no path is added to it, and the base
/// address does not matter.
pub proof fn law_given_endpoint_is_taken(endpoint: String, base: Seq<char>, other: Seq<char>)
    ensures
        traces_endpoint_text(Some(endpoint), base) == endpoint@,
        traces_endpoint_text(Some(endpoint), base) == traces_endpoint_text(Some(endpoint), other),
{
}

/// A timeout that is not a number counts as not given.
pub proof fn law_unreadable_timeout_is_ignored(text: String, configured: Duration)
    requires
        parsed_u64(text@) is None,
    ensures
        traces_timeout_of(Some(text), configured) == traces_timeout_of(None, configured),
        traces_timeout_of(Some(text), configured) == configured,
{
}

/// Batches may be put together: the messages of two batches, one after the other, are messages of
/// the joined batch.
pub proof fn law_batches_join(
    first: Seq<SpanData>,
    first_messages: Seq<ResourceSpans>,
    second: Seq<SpanData>,
    second_messages: Seq<ResourceSpans>,
)
    requires
        converted(first, first_messages),
        converted(second, second_messages),
    ensures
        converted(first + second, first_messages + second_messages),
{
    assert forall|i: int| 0 <= i < (first + second).len() implies crate::transform::is_form_of(
        #[trigger] (first_messages + second_messages)[i],
        (first + second)[i],
    ) by {
        if i < first.len() {
            assert(crate::transform::is_form_of(first_messages[i], first[i]));
        } else {
            let j = i - first.len();
            assert(crate::transform::is_form_of(second_messages[j], second[j]));
        }
    }
}

/// A request over tonic has exactly the keys of the configured metadata.
pub proof fn law_metadata_keys(sent: Seq<MetadataEntry>, configured: Seq<MetadataEntry>)
    requires
        same_metadata(sent, configured),
    ensures
        keys_of(sent) == keys_of(configured),
{
    assert forall|key: Seq<char>| keys_of(sent).contains(key) <==> keys_of(configured).contains(
        key,
    ) by {
        lemma_keys_of(sent, key);
        lemma_keys_of(configured, key);
        assert(entries_of(sent, key) == entries_of(configured, key));
    }
    assert(keys_of(sent) =~= keys_of(configured));
}

/// A call over gRPC is owed: a batch is sent if fewer than [`MAX_HEADER_NAMES`] distinct keys of
/// metadata are configured, and over the gRPC core library in any case.
pub proof fn law_call_is_owed<T, H>(
    exporter: SpanExporter<T, H>,
    batch: Seq<SpanData>,
    r: Result<ExportAction<'_, T, H>, Error>,
)
    requires
        exporter.exports(batch, r),
        match exporter {
            SpanExporter::Tonic { metadata, .. } => keys_of(configured_entries(metadata)).len()
                < MAX_HEADER_NAMES,
            SpanExporter::Grpcio { .. } => true,
            SpanExporter::Http { .. } => false,
        },
    ensures
        r is Ok,
{
}

/// Metadata that was sent with an earlier request is not sent twice with a later one, nor left out:
/// whatever the batches are, two calls over tonic go out over the same channel with the same metadata,
/// two calls over the gRPC core library with the same headers and timeout, and two HTTP requests by
/// the same client to the same URL with the same method, headers and timeout.
pub proof fn law_exports_do_not_accumulate<T, H>(
    exporter: SpanExporter<T, H>,
    batch: Seq<SpanData>,
    exported: ExportAction<'_, T, H>,
    later_batch: Seq<SpanData>,
    later_exported: ExportAction<'_, T, H>,
)
    requires
        exporter.exports(batch, Ok(exported)),
        exporter.exports(later_batch, Ok(later_exported)),
    ensures
        match (exported, later_exported) {
            (
                ExportAction::Tonic { trace_exporter, metadata, .. },
                ExportAction::Tonic { trace_exporter: later, metadata: later_metadata, .. },
            ) => {
                &&& *trace_exporter == *later
                &&& same_metadata(metadata_entries(metadata), metadata_entries(later_metadata))
            },
            (
                ExportAction::Grpcio { trace_exporter, timeout, headers, .. },
                ExportAction::Grpcio {
                    trace_exporter: later,
                    timeout: later_timeout,
                    headers: later_headers,
                    ..
                },
            ) => {
                &&& *trace_exporter == *later
                &&& timeout == later_timeout
                &&& *headers == *later_headers
            },
            (
                ExportAction::Http { trace_exporter, request, timeout },
                ExportAction::Http {
                    trace_exporter: later,
                    request: later_request,
                    timeout: later_timeout,
                },
            ) => {
                &&& *trace_exporter == *later
                &&& timeout == later_timeout
                &&& request.method@ == later_request.method@
                &&& request.uri == later_request.uri
                &&& header_contents(request.headers) == header_contents(later_request.headers)
            },
            _ => false,
        },
{
    if let (
        ExportAction::Tonic { metadata, .. },
        ExportAction::Tonic { metadata: later_metadata, .. },
    ) = (exported, later_exported) {
        if let SpanExporter::Tonic { metadata: configured, .. } = exporter {
            assert forall|key: Seq<char>| #[trigger]
                entries_of(metadata_entries(metadata), key) == entries_of(
                    metadata_entries(later_metadata),
                    key,
                ) by {
                assert(entries_of(metadata_entries(metadata), key) == entries_of(
                    configured_entries(configured),
                    key,
                ));
                assert(entries_of(metadata_entries(later_metadata), key) == entries_of(
                    configured_entries(configured),
                    key,
                ));
            }
        }
    }
}

/// The body of an HTTP request holds the batch: decoding it gives back one message for each span, in
/// the order of the batch.
pub proof fn law_body_holds_the_batch(
    batch: Seq<SpanData>,
    headers: Seq<(String, String)>,
    collector_endpoint: Uri,
    request: HttpRequest,
)
    requires
        sent_over_http(batch, headers, collector_endpoint, Ok(request)),
    ensures
        decoded_request(request.body@) is Some,
        converted(batch, decoded_request(request.body@)->0),
{
}

/// Whether an exporter posts over HTTP but has no client to do so.
pub open spec fn lacks_client<T, H>(exporter: SpanExporter<T, H>) -> bool {
    match exporter {
        SpanExporter::Http { trace_exporter, .. } => trace_exporter is None,
        _ => false,
    }
}

/// Without a client nothing is sent over HTTP, whatever the batch is.
pub proof fn law_no_client_no_request<T, H>(
    exporter: SpanExporter<T, H>,
    batch: Seq<SpanData>,
    r: Result<ExportAction<'_, T, H>, Error>,
)
    requires
        lacks_client(exporter),
        exporter.exports(batch, r),
    ensures
        r is Err,
        r->Err_0 == Error::NoHttpClient,
{
}

/// Whether two exporters have everything in common but their clients and where these send to.
pub open spec fn alike_but_for_client<T, H>(a: SpanExporter<T, H>, b: SpanExporter<T, H>) -> bool {
    match (a, b) {
        (
            SpanExporter::Tonic { timeout, metadata, .. },
            SpanExporter::Tonic { timeout: other_timeout, metadata: other_metadata, .. },
        ) => timeout == other_timeout && metadata == other_metadata,
        (
            SpanExporter::Grpcio { timeout, headers, .. },
            SpanExporter::Grpcio { timeout: other_timeout, headers: other_headers, .. },
        ) => timeout == other_timeout && headers == other_headers,
        (
            SpanExporter::Http { timeout, headers, .. },
            SpanExporter::Http { timeout: other_timeout, headers: other_headers, .. },
        ) => timeout == other_timeout && headers == other_headers,
        _ => false,
    }
}

/// The debug output of an exporter tells nothing of its client, nor of where that sends to.
pub proof fn law_debug_hides_client<T, H>(a: SpanExporter<T, H>, b: SpanExporter<T, H>)
    requires
        alike_but_for_client(a, b),
    ensures
        a.shown() == b.shown(),
{
}

/// Headers are accepted exactly if none of them is faulty.
pub proof fn law_headers_accepted(headers: Seq<(String, String)>)
    ensures
        first_fault(headers) is None <==> forall|i: int|
            0 <= i < headers.len() ==> header_fault(#[trigger] headers[i]) is None,
    decreases headers.len(),
{
    if headers.len() > 0 {
        let rest = headers.drop_last();
        law_headers_accepted(rest);
        if first_fault(headers) is None {
            assert forall|i: int| 0 <= i < headers.len() implies header_fault(
                #[trigger] headers[i],
            ) is None by {
                if i < rest.len() {
                    assert(header_fault(rest[i]) is None);
                }
            }
        } else if first_fault(rest) is Some {
            let i = choose|i: int| 0 <= i < rest.len() && header_fault(#[trigger] rest[i]) is Some;
            assert(header_fault(headers[i]) is Some);
        } else {
            assert(header_fault(headers[headers.len() - 1]) is Some);
        }
    }
}

/// The fault that is reported is that of the first faulty header.
pub proof fn law_first_fault_reported(headers: Seq<(String, String)>, i: int)
    requires
        0 <= i < headers.len(),
        header_fault(headers[i]) is Some,
        forall|j: int| 0 <= j < i ==> header_fault(#[trigger] headers[j]) is None,
    ensures
        first_fault(headers) == header_fault(headers[i]),
    decreases headers.len(),
{
    let rest = headers.drop_last();
    if i == headers.len() - 1 {
        law_headers_accepted(rest);
    } else {
        law_first_fault_reported(rest, i);
    }
}

/// A request is owed: a batch that was encoded is posted if none of fewer than
/// [`MAX_HEADER_NAMES`] headers is faulty.
pub proof fn law_request_is_owed(
    body: Seq<u8>,
    headers: Seq<(String, String)>,
    collector_endpoint: Uri,
    r: Result<HttpRequest, Error>,
)
    requires
        posted(Ok(body), headers, collector_endpoint, r),
        forall|i: int| 0 <= i < headers.len() ==> header_fault(#[trigger] headers[i]) is None,
        headers.len() < MAX_HEADER_NAMES,
    ensures
        r is Ok,
        r->Ok_0.body@ == body,
{
    law_headers_accepted(headers);
}

/// A name that no configured header has keeps what it had, the type of the body included.
pub proof fn law_other_headers_stay(
    contents: Map<Seq<char>, Seq<Seq<u8>>>,
    headers: Seq<(String, String)>,
    name: Seq<char>,
)
    requires
        first_fault(headers) is None,
        forall|i: int| 0 <= i < headers.len() ==> header_name(#[trigger] headers[i].0@) != Some(name),
    ensures
        overlaid(contents, headers).contains_key(name) == contents.contains_key(name),
        overlaid(contents, headers)[name] == contents[name],
    decreases headers.len(),
{
    if headers.len() > 0 {
        let rest = headers.drop_last();
        assert forall|i: int| 0 <= i < rest.len() implies header_name(#[trigger] rest[i].0@) != Some(
            name,
        ) by {
            assert(headers[i] == rest[i]);
        }
        law_other_headers_stay(contents, rest, name);
        assert(header_name(headers[headers.len() - 1].0@) != Some(name));
        assert(header_fault(headers.last()) is None);
    }
}

/// A configured header is sent: the last header of a name gives the only value of that name,
/// whatever the name had before.
pub proof fn law_last_header_is_sent(
    contents: Map<Seq<char>, Seq<Seq<u8>>>,
    headers: Seq<(String, String)>,
    i: int,
)
    requires
        first_fault(headers) is None,
        0 <= i < headers.len(),
        forall|j: int|
            i < j < headers.len() ==> header_name(#[trigger] headers[j].0@) != header_name(
                headers[i].0@,
            ),
    ensures
        overlaid(contents, headers).contains_key(header_name(headers[i].0@)->0),
        overlaid(contents, headers)[header_name(headers[i].0@)->0] == seq![
            header_value(headers[i].1@)->0,
        ],
    decreases headers.len(),
{
    law_headers_accepted(headers);
    assert(header_fault(headers[i]) is None);
    if i < headers.len() - 1 {
        let rest = headers.drop_last();
        assert forall|j: int| i < j < rest.len() implies header_name(#[trigger] rest[j].0@)
            != header_name(rest[i].0@) by {
            assert(headers[j] == rest[j]);
        }
        law_last_header_is_sent(contents, rest, i);
        assert(header_name(headers[headers.len() - 1].0@) != header_name(headers[i].0@));
        assert(header_fault(headers[headers.len() - 1]) is None);
    }
}

/// The last header of a list that has the name of a given one.
proof fn lemma_last_of_name(headers: Seq<(String, String)>, i: int) -> (last: int)
    requires
        0 <= i < headers.len(),
    ensures
        i <= last < headers.len(),
        header_name(headers[last].0@) == header_name(headers[i].0@),
        forall|j: int|
            last < j < headers.len() ==> header_name(#[trigger] headers[j].0@) != header_name(
                headers[i].0@,
            ),
    decreases headers.len() - i,
{
    if exists|j: int|
        i < j < headers.len() && header_name(#[trigger] headers[j].0@) == header_name(
            headers[i].0@,
        ) {
        let j = choose|j: int|
            i < j < headers.len() && header_name(#[trigger] headers[j].0@) == header_name(
                headers[i].0@,
            );
        lemma_last_of_name(headers, j)
    } else {
        i
    }
}

/// The order in which headers are listed does not matter, as long as no two of them have the same
/// name: the same headers in any other order give the same request headers.
pub proof fn law_header_order_is_irrelevant(
    contents: Map<Seq<char>, Seq<Seq<u8>>>,
    headers: Seq<(String, String)>,
    reordered: Seq<(String, String)>,
)
    requires
        headers.to_set() == reordered.to_set(),
        first_fault(headers) is None,
        forall|i: int, j: int|
            0 <= i < j < headers.len() ==> header_name(#[trigger] headers[i].0@) != header_name(
                #[trigger] headers[j].0@,
            ),
    ensures
        first_fault(reordered) is None,
        overlaid(contents, reordered) == overlaid(contents, headers),
{
    law_headers_accepted(headers);
    assert forall|i: int| 0 <= i < reordered.len() implies header_fault(
        #[trigger] reordered[i],
    ) is None by {
        assert(reordered.to_set().contains(reordered[i]));
        assert(headers.contains(reordered[i]));
    }
    law_headers_accepted(reordered);
    let before = overlaid(contents, headers);
    let after = overlaid(contents, reordered);
    assert forall|name: Seq<char>| #[trigger]
        after.contains_key(name) == before.contains_key(name) && after[name] == before[name] by {
        if exists|i: int|
            0 <= i < headers.len() && header_name(#[trigger] headers[i].0@) == Some(name) {
            let i = choose|i: int|
                0 <= i < headers.len() && header_name(#[trigger] headers[i].0@) == Some(name);
            law_last_header_is_sent(contents, headers, i);
            assert(headers.to_set().contains(headers[i]));
            assert(reordered.contains(headers[i]));
            let j = choose|j: int| 0 <= j < reordered.len() && reordered[j] == headers[i];
            let last = lemma_last_of_name(reordered, j);
            assert(reordered.to_set().contains(reordered[last]));
            assert(headers.contains(reordered[last]));
            let k = choose|k: int| 0 <= k < headers.len() && headers[k] == reordered[last];
            assert(k == i);
            law_last_header_is_sent(contents, reordered, last);
        } else {
            law_other_headers_stay(contents, headers, name);
            assert forall|j: int| 0 <= j < reordered.len() implies header_name(
                #[trigger] reordered[j].0@,
            ) != Some(name) by {
                assert(reordered.to_set().contains(reordered[j]));
                assert(headers.contains(reordered[j]));
            }
            law_other_headers_stay(contents, reordered, name);
        }
    }
    assert(after =~= before);
}

} // verus!
