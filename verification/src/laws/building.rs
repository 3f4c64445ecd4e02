//! What holds of the exporters that are built and the pipelines that are installed.
use http::header::{InvalidHeaderName, InvalidHeaderValue, MaxSizeReached};
use http::uri::InvalidUri;
use http::Uri;
use opentelemetry::sdk::trace::Config;
use prost::EncodeError;
use std::time::Duration;
use tonic::metadata::MetadataMap;
use tonic::transport::{ClientTlsConfig, Endpoint};
use tonic::Status;
use vstd::prelude::*;

use crate::exporter::grpc_sys::{
    ChannelSecurity, Compression, Credentials, GrpcioChannel, GrpcioConfig, GrpcioExporterBuilder,
};
use crate::exporter::grpc_tonic::{
    endpoint_with_tls, secured_channel, Channel, ChannelChoice, ExporterChannel, TonicConfig,
    TonicExporterBuilder,
};
use crate::exporter::http_proto::{parsed_uri, HttpConfig, HttpExporterBuilder};
use crate::exporter::{duration_from_secs, ExportConfig};
use crate::span::{
    new_pipeline, OtlpPipeline, OtlpTracePipeline, SpanExporter, SpanExporterBuilder,
    SpanProcessor, TracerSetup,
};
use crate::Error;

verus! {

/// Whether two errors are the same, reasons given as text being the same character by character.
pub open spec fn same_error(a: Error, b: Error) -> bool {
    match (a, b) {
        (Error::Transport(reason), Error::Transport(other)) => reason@ == other@,
        (Error::RequestFailed(reason), Error::RequestFailed(other)) => reason@ == other@,
        _ => a == b,
    }
}

/// Whether a channel of the gRPC core library is as configured. With credentials it is protected by
/// these, without any by TLS exactly if that is asked for, and otherwise not at all.
pub open spec fn grpcio_channel_as_configured(
    channel: GrpcioChannel,
    endpoint: Seq<char>,
    completion_queue_count: usize,
    compression: Option<Compression>,
    credentials: Option<Credentials>,
    use_tls: Option<bool>,
) -> bool {
    &&& channel.endpoint@ == endpoint
    &&& channel.completion_queue_count == completion_queue_count
    &&& channel.compression == compression
    &&& credentials is Some ==> channel.security is TlsWithCredentials
        && channel.security->TlsWithCredentials_0 == credentials->0
    &&& credentials is None && use_tls == Some(true) ==> channel.security is Tls
    &&& credentials is None && use_tls != Some(true) ==> channel.security is Insecure
}

/// Whether an exporter over the gRPC core library is as configured.
pub open spec fn grpcio_as_configured<T, H>(
    exporter: SpanExporter<T, H>,
    config: ExportConfig,
    grpcio_config: GrpcioConfig,
) -> bool {
    match exporter {
        SpanExporter::Grpcio { timeout, headers, trace_exporter } => {
            &&& timeout == config.timeout
            &&& headers == grpcio_config.headers
            &&& grpcio_channel_as_configured(
                trace_exporter,
                config.endpoint@,
                grpcio_config.completion_queue_count,
                grpcio_config.compression,
                grpcio_config.credentials,
                grpcio_config.use_tls,
            )
        },
        _ => false,
    }
}

/// Whether building over HTTP comes to what is configured: an exporter with the timeout, the headers
/// and the client given, that posts to the endpoint, or the reason why that is not a URI.
pub open spec fn http_as_configured<T, H>(
    r: Result<SpanExporter<T, H>, Error>,
    endpoint: Result<Uri, InvalidUri>,
    limit: Duration,
    http_config: HttpConfig<H>,
) -> bool {
    match r {
        Ok(SpanExporter::Http { timeout, headers, collector_endpoint, trace_exporter }) => {
            &&& endpoint is Ok
            &&& collector_endpoint == endpoint->Ok_0
            &&& timeout == limit
            &&& headers == http_config.headers
            &&& trace_exporter == http_config.client
        },
        Ok(_) => false,
        Err(error) => {
            &&& endpoint is Err
            &&& error is InvalidUri
            &&& error->InvalidUri_0 == endpoint->Err_0
        },
    }
}

/// Whether a channel is made ready as chosen: a custom one as it is, the one to the collector under
/// the TLS settings if there are any. There is none exactly if the collector's could not be made or
/// the settings do not apply to it.
pub open spec fn channel_as_chosen<T>(
    r: Result<ExporterChannel<T>, Error>,
    choice: ChannelChoice<T>,
    tls_config: Option<ClientTlsConfig>,
) -> bool {
    match (choice, r) {
        (ChannelChoice::Custom(given), Ok(ExporterChannel::Custom(channel))) => channel == given.0,
        (ChannelChoice::Collector(Ok(given)), Ok(ExporterChannel::Collector(endpoint))) => {
            &&& tls_config is None ==> endpoint == given.0
            &&& tls_config is Some ==> endpoint_with_tls(given.0, tls_config->0) is Ok
                && endpoint == endpoint_with_tls(given.0, tls_config->0)->Ok_0
        },
        (ChannelChoice::Collector(Ok(given)), Err(error)) => {
            &&& tls_config is Some
            &&& endpoint_with_tls(given.0, tls_config->0) is Err
            &&& error is Transport
            &&& error->Transport_0@ == endpoint_with_tls(given.0, tls_config->0)->Err_0
        },
        (ChannelChoice::Collector(Err(reason)), Err(error)) => same_error(error, reason),
        _ => false,
    }
}

/// Whether building over tonic comes to what is configured: an exporter with the timeout and the
/// metadata given, over the channel that is chosen.
pub open spec fn tonic_as_configured<T, H>(
    r: Result<SpanExporter<T, H>, Error>,
    builder: TonicExporterBuilder<T>,
) -> bool {
    let tls_config = builder.tonic_config.tls_config;
    match r {
        Ok(SpanExporter::Tonic { timeout, metadata, trace_exporter }) => {
            &&& timeout == builder.exporter_config.timeout
            &&& metadata == builder.tonic_config.metadata
            &&& channel_as_chosen(Ok(trace_exporter), builder.channel, tls_config)
        },
        Ok(_) => false,
        Err(error) => channel_as_chosen(Err(error), builder.channel, tls_config),
    }
}

/// Whether building comes to what the builder is configured for.
pub open spec fn built_as_configured<T, H>(
    r: Result<SpanExporter<T, H>, Error>,
    builder: SpanExporterBuilder<T, H>,
) -> bool {
    match builder {
        SpanExporterBuilder::Tonic(builder) => tonic_as_configured(r, builder),
        SpanExporterBuilder::Grpcio(builder) => r is Ok && grpcio_as_configured(
            r->Ok_0,
            builder.exporter_config,
            builder.grpcio_config,
        ),
        SpanExporterBuilder::Http(builder) => http_as_configured(
            r,
            parsed_uri(builder.exporter_config.endpoint@),
            builder.exporter_config.timeout,
            builder.http_config,
        ),
    }
}

/// What is built, over any transport, is what the builder is configured for: nothing that was set is
/// lost or changed on the way, and there is no exporter exactly if the endpoint is not a URI or the
/// TLS settings do not apply to it.
pub proof fn law_exporter_is_as_configured<T, H>(
    builder: SpanExporterBuilder<T, H>,
    r: Result<SpanExporter<T, H>, Error>,
)
    requires
        call_ensures(SpanExporterBuilder::<T, H>::build_span_exporter, (builder,), r),
    ensures
        built_as_configured(r, builder),
{
}

/// If the endpoint of an HTTP builder is a URI, an HTTP exporter is built that posts to it, with the
/// timeout, the headers and the client of the builder; if not, the reason is reported.
pub proof fn law_http_builder_is_kept<T, H>(
    builder: HttpExporterBuilder<H>,
    r: Result<SpanExporter<T, H>, Error>,
)
    requires
        call_ensures(
            SpanExporterBuilder::<T, H>::build_span_exporter,
            (SpanExporterBuilder::Http(builder),),
            r,
        ),
    ensures
        match (parsed_uri(builder.exporter_config.endpoint@), r) {
            (
                Ok(url),
                Ok(SpanExporter::Http { timeout, headers, collector_endpoint, trace_exporter }),
            ) => {
                &&& collector_endpoint == url
                &&& timeout == builder.exporter_config.timeout
                &&& headers == builder.http_config.headers
                &&& trace_exporter == builder.http_config.client
            },
            (Err(reason), Err(Error::InvalidUri(error))) => error == reason,
            _ => false,
        },
{
}

/// An exporter that is made to post to an endpoint does so with the timeout, the headers and the
/// client given, if the endpoint is a URI.
pub proof fn law_new_http_is_as_configured<T, H>(
    config: ExportConfig,
    http_config: HttpConfig<H>,
    r: Result<SpanExporter<T, H>, Error>,
)
    requires
        call_ensures(SpanExporter::<T, H>::new_http, (config, http_config), r),
    ensures
        http_as_configured(r, parsed_uri(config.endpoint@), config.timeout, http_config),
{
}

/// The same holds if the endpoint was parsed before.
pub proof fn law_parsed_endpoint_is_posted_to<T, H>(
    endpoint: Result<Uri, InvalidUri>,
    timeout: Duration,
    http_config: HttpConfig<H>,
    r: Result<SpanExporter<T, H>, Error>,
)
    requires
        call_ensures(
            SpanExporter::<T, H>::with_collector_endpoint,
            (endpoint, timeout, http_config),
            r,
        ),
    ensures
        http_as_configured(r, endpoint, timeout, http_config),
{
}

/// Credentials protect the channel of an exporter that is made over the gRPC core library, whatever
/// else is asked for; without any, TLS does so exactly if it is asked for. Endpoint, queues,
/// compression, timeout and headers are those configured.
pub proof fn law_new_grpcio_is_as_configured<T, H>(
    config: ExportConfig,
    grpcio_config: GrpcioConfig,
    exporter: SpanExporter<T, H>,
)
    requires
        call_ensures(SpanExporter::<T, H>::new_grpcio, (config, grpcio_config), exporter),
    ensures
        match exporter {
            SpanExporter::Grpcio { timeout, headers, trace_exporter } => {
                &&& timeout == config.timeout
                &&& headers == grpcio_config.headers
                &&& trace_exporter.endpoint@ == config.endpoint@
                &&& trace_exporter.completion_queue_count == grpcio_config.completion_queue_count
                &&& trace_exporter.compression == grpcio_config.compression
                &&& match (grpcio_config.credentials, trace_exporter.security) {
                    (Some(given), ChannelSecurity::TlsWithCredentials(shown)) => {
                        &&& shown.cert@ == given.cert@
                        &&& shown.key@ == given.key@
                    },
                    (None, ChannelSecurity::Tls) => grpcio_config.use_tls == Some(true),
                    (None, ChannelSecurity::Insecure) => grpcio_config.use_tls != Some(true),
                    _ => false,
                }
            },
            _ => false,
        },
        grpcio_as_configured(exporter, config, grpcio_config),
{
}

/// What holds of the channel of such an exporter holds of every channel of the gRPC core library.
pub proof fn law_grpcio_channel_is_as_configured(
    endpoint: String,
    completion_queue_count: usize,
    compression: Option<Compression>,
    credentials: Option<Credentials>,
    use_tls: Option<bool>,
    channel: GrpcioChannel,
)
    requires
        call_ensures(
            GrpcioChannel::new,
            (endpoint, completion_queue_count, compression, credentials, use_tls),
            channel,
        ),
    ensures
        grpcio_channel_as_configured(
            channel,
            endpoint@,
            completion_queue_count,
            compression,
            credentials,
            use_tls,
        ),
{
}

/// An exporter that is made over a custom channel sends over it, with the timeout and the metadata
/// given.
pub proof fn law_tonic_channel_is_taken<T, H>(
    config: ExportConfig,
    tonic_config: TonicConfig,
    channel: T,
    exporter: SpanExporter<T, H>,
)
    requires
        call_ensures(
            SpanExporter::<T, H>::from_tonic_channel,
            (config, tonic_config, channel),
            exporter,
        ),
    ensures
        match exporter {
            SpanExporter::Tonic { timeout, metadata, trace_exporter } => {
                &&& timeout == config.timeout
                &&& metadata == tonic_config.metadata
                &&& trace_exporter == ExporterChannel::Custom(channel)
            },
            _ => false,
        },
{
}

/// A channel is made ready as chosen, under the TLS settings where they apply.
pub proof fn law_channel_is_as_chosen<T>(
    choice: ChannelChoice<T>,
    tls_config: Option<ClientTlsConfig>,
    r: Result<ExporterChannel<T>, Error>,
)
    requires
        call_ensures(ChannelChoice::<T>::with_tls, (choice, tls_config), r),
    ensures
        channel_as_chosen(r, choice, tls_config),
{
}

/// An endpoint to which TLS settings were applied is sent to; if they could not be applied, the
/// reason is reported.
pub proof fn law_secured_channel_is_kept<T>(
    applied: Result<Endpoint, String>,
    r: Result<ExporterChannel<T>, Error>,
)
    requires
        call_ensures(secured_channel::<T>, (applied,), r),
    ensures
        match (applied, r) {
            (Ok(given), Ok(ExporterChannel::Collector(endpoint))) => endpoint == given,
            (Err(reason), Err(Error::Transport(text))) => text@ == reason@,
            _ => false,
        },
{
}

/// A new tonic builder has the default endpoint and timeout, neither metadata nor TLS settings, and
/// the channel to the collector that it is given.
pub proof fn law_tonic_builder_defaults<T>(
    channel: Result<Channel<Endpoint>, Error>,
    builder: TonicExporterBuilder<T>,
)
    requires
        call_ensures(TonicExporterBuilder::<T>::with_default_config, (channel,), builder),
    ensures
        builder.exporter_config.endpoint@ == "https://localhost:4317"@,
        builder.exporter_config.timeout == duration_from_secs(10),
        builder.tonic_config.metadata is None,
        builder.tonic_config.tls_config is None,
        builder.channel is Collector,
        builder.channel->Collector_0 == channel,
{
}

/// The defaults on their own: the endpoint and timeout of a configuration, and a configuration of
/// tonic in which nothing is set.
pub proof fn law_config_defaults(config: ExportConfig, tonic_config: TonicConfig)
    requires
        call_ensures(<ExportConfig as Default>::default, (), config),
        call_ensures(<TonicConfig as Default>::default, (), tonic_config),
    ensures
        config.endpoint@ == "https://localhost:4317"@,
        config.timeout == duration_from_secs(10),
        tonic_config.metadata is None,
        tonic_config.tls_config is None,
{
}

/// Setting metadata sets the metadata of a tonic builder and nothing else.
pub proof fn law_metadata_is_set<T>(
    builder: TonicExporterBuilder<T>,
    metadata: MetadataMap,
    r: TonicExporterBuilder<T>,
)
    requires
        call_ensures(TonicExporterBuilder::<T>::with_metadata, (builder, metadata), r),
    ensures
        r.tonic_config.metadata == Some(metadata),
        r.tonic_config.tls_config == builder.tonic_config.tls_config,
        r.exporter_config == builder.exporter_config,
        r.channel == builder.channel,
{
}

/// Setting TLS settings sets those of a tonic builder and nothing else.
pub proof fn law_tls_config_is_set<T>(
    builder: TonicExporterBuilder<T>,
    tls_config: ClientTlsConfig,
    r: TonicExporterBuilder<T>,
)
    requires
        call_ensures(TonicExporterBuilder::<T>::with_tls_config, (builder, tls_config), r),
    ensures
        r.tonic_config.tls_config == Some(tls_config),
        r.tonic_config.metadata == builder.tonic_config.metadata,
        r.exporter_config == builder.exporter_config,
        r.channel == builder.channel,
{
}

/// Setting a custom channel sets the channel of a tonic builder and nothing else.
pub proof fn law_channel_is_set<T, C>(
    builder: TonicExporterBuilder<T>,
    channel: Channel<C>,
    r: TonicExporterBuilder<C>,
)
    requires
        call_ensures(TonicExporterBuilder::<T>::with_channel::<C>, (builder, channel), r),
    ensures
        r.channel is Custom,
        r.channel->Custom_0 == channel,
        r.tonic_config == builder.tonic_config,
        r.exporter_config == builder.exporter_config,
{
}

/// A builder of each transport becomes an exporter builder for that transport, unchanged.
pub proof fn law_builders_convert<T, H>(
    tonic: TonicExporterBuilder<T>,
    grpcio: GrpcioExporterBuilder,
    http: HttpExporterBuilder<H>,
    from_tonic: SpanExporterBuilder<T, H>,
    from_grpcio: SpanExporterBuilder<T, H>,
    from_http: SpanExporterBuilder<T, H>,
)
    requires
        call_ensures(
            <SpanExporterBuilder<T, H> as From<TonicExporterBuilder<T>>>::from,
            (tonic,),
            from_tonic,
        ),
        call_ensures(
            <SpanExporterBuilder<T, H> as From<GrpcioExporterBuilder>>::from,
            (grpcio,),
            from_grpcio,
        ),
        call_ensures(
            <SpanExporterBuilder<T, H> as From<HttpExporterBuilder<H>>>::from,
            (http,),
            from_http,
        ),
    ensures
        from_tonic is Tonic && from_tonic->Tonic_0 == tonic,
        from_grpcio is Grpcio && from_grpcio->Grpcio_0 == grpcio,
        from_http is Http && from_http->Http_0 == http,
{
}

/// A tracing pipeline starts with nothing set.
pub proof fn law_pipeline_starts_empty<T, H>(
    start: OtlpPipeline,
    pipeline: OtlpTracePipeline<T, H>,
    default: OtlpTracePipeline<T, H>,
)
    requires
        call_ensures(new_pipeline, (), start),
        call_ensures(OtlpPipeline::tracing::<T, H>, (start,), pipeline),
        call_ensures(<OtlpTracePipeline<T, H> as Default>::default, (), default),
    ensures
        pipeline.exporter_builder is None,
        pipeline.trace_config is None,
        default.exporter_builder is None,
        default.trace_config is None,
{
}

/// Setting a configuration sets that of the pipeline and nothing else.
pub proof fn law_trace_config_is_set<T, H>(
    pipeline: OtlpTracePipeline<T, H>,
    trace_config: Config,
    r: OtlpTracePipeline<T, H>,
)
    requires
        call_ensures(OtlpTracePipeline::<T, H>::with_trace_config, (pipeline, trace_config), r),
    ensures
        r.trace_config == Some(trace_config),
        r.exporter_builder == pipeline.exporter_builder,
{
}

/// Setting a builder of any transport sets the exporter of the pipeline to it and nothing else.
pub proof fn law_exporter_is_set<T, H>(
    pipeline: OtlpTracePipeline<T, H>,
    tonic: TonicExporterBuilder<T>,
    grpcio: GrpcioExporterBuilder,
    http: HttpExporterBuilder<H>,
    over_tonic: OtlpTracePipeline<T, H>,
    over_grpcio: OtlpTracePipeline<T, H>,
    over_http: OtlpTracePipeline<T, H>,
)
    requires
        call_ensures(
            OtlpTracePipeline::<T, H>::with_exporter::<TonicExporterBuilder<T>>,
            (pipeline, tonic),
            over_tonic,
        ),
        call_ensures(
            OtlpTracePipeline::<T, H>::with_exporter::<GrpcioExporterBuilder>,
            (pipeline, grpcio),
            over_grpcio,
        ),
        call_ensures(
            OtlpTracePipeline::<T, H>::with_exporter::<HttpExporterBuilder<H>>,
            (pipeline, http),
            over_http,
        ),
    ensures
        over_tonic.exporter_builder == Some(SpanExporterBuilder::<T, H>::Tonic(tonic)),
        over_grpcio.exporter_builder == Some(SpanExporterBuilder::<T, H>::Grpcio(grpcio)),
        over_http.exporter_builder == Some(SpanExporterBuilder::<T, H>::Http(http)),
        over_tonic.trace_config == pipeline.trace_config,
        over_grpcio.trace_config == pipeline.trace_config,
        over_http.trace_config == pipeline.trace_config,
{
}

/// Whether installing comes to what the pipeline is configured for: the exporter of its builder, its
/// configuration, and a tracer under the name and the version of this crate. There is nothing to
/// install exactly if there is no builder or nothing can be built.
pub open spec fn installed_as_configured<T, H, R>(
    r: Result<TracerSetup<T, H, R>, Error>,
    pipeline: OtlpTracePipeline<T, H>,
) -> bool {
    match (pipeline.exporter_builder, r) {
        (None, Err(error)) => error is NoExporterBuilder,
        (None, Ok(_)) => false,
        (Some(builder), Ok(setup)) => {
            &&& built_as_configured(Ok(setup.exporter), builder)
            &&& setup.trace_config == pipeline.trace_config
            &&& setup.tracer_name@ == "opentelemetry-otlp"@
            &&& setup.tracer_version is Some
            &&& setup.tracer_version->0@ == "0.11.0"@
            &&& setup.schema_url is None
        },
        (Some(builder), Err(error)) => built_as_configured(Err(error), builder),
    }
}

/// Installing simply sets up what the pipeline is configured for, spans being exported one by one.
pub proof fn law_simple_installation_is_as_configured<T, H>(
    pipeline: OtlpTracePipeline<T, H>,
    r: Result<TracerSetup<T, H, ()>, Error>,
)
    requires
        call_ensures(OtlpTracePipeline::<T, H>::install_simple, (pipeline,), r),
    ensures
        installed_as_configured(r, pipeline),
        r is Ok ==> r->Ok_0.processor is Simple,
{
}

/// Installing in batches sets up what the pipeline is configured for, spans being exported in batches
/// on the given runtime.
pub proof fn law_batch_installation_is_as_configured<T, H, R>(
    pipeline: OtlpTracePipeline<T, H>,
    runtime: R,
    r: Result<TracerSetup<T, H, R>, Error>,
)
    requires
        call_ensures(OtlpTracePipeline::<T, H>::install_batch::<R>, (pipeline, runtime), r),
    ensures
        installed_as_configured(r, pipeline),
        r is Ok ==> r->Ok_0.processor == SpanProcessor::Batch(runtime),
{
}

/// An error of another crate is kept in the library's error for it.
pub proof fn law_errors_are_kept(
    uri: InvalidUri,
    status: Status,
    value: InvalidHeaderValue,
    name: InvalidHeaderName,
    size: MaxSizeReached,
    encoding: EncodeError,
    r: (Error, Error, Error, Error, Error, Error),
)
    requires
        call_ensures(<Error as From<InvalidUri>>::from, (uri,), r.0),
        call_ensures(<Error as From<Status>>::from, (status,), r.1),
        call_ensures(<Error as From<InvalidHeaderValue>>::from, (value,), r.2),
        call_ensures(<Error as From<InvalidHeaderName>>::from, (name,), r.3),
        call_ensures(<Error as From<MaxSizeReached>>::from, (size,), r.4),
        call_ensures(<Error as From<EncodeError>>::from, (encoding,), r.5),
    ensures
        r.0 == Error::InvalidUri(uri),
        r.1 == Error::Status(status),
        r.2 == Error::InvalidHeaderValue(value),
        r.3 == Error::InvalidHeaderName(name),
        r.4 == Error::TooManyHeaders(size),
        r.5 == Error::EncodeError(encoding),
{
}

} // verus!
