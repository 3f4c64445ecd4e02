//! # OTLP - Span Exporter
//!
//! Defines a [`SpanExporter`] that makes trace data ready to be sent via the OpenTelemetry Protocol
//! (OTLP), and the pipeline that sets one up.
use http::uri::InvalidUri;
use http::Uri;
use opentelemetry::sdk::export::trace::SpanData;
use opentelemetry::sdk::trace::Config;
use opentelemetry_proto::tonic::trace::v1::ResourceSpans;
use std::time::Duration;
use tonic::metadata::MetadataMap;
use vstd::prelude::*;

use crate::debug::{
    debug_exporter, debug_headers, debug_metadata, exporter_debug, headers_debug,
    optional_metadata_debug,
};
use crate::exporter::grpc_sys::{channel_for, GrpcioChannel, GrpcioConfig, GrpcioExporterBuilder};
use crate::exporter::grpc_tonic::{ExporterChannel, TonicConfig, TonicExporterBuilder};
use crate::exporter::http_proto::{
    header_list, http_send_request, parse_uri, parsed_uri, sent_over_http, HttpConfig,
    HttpExporterBuilder, HttpRequest,
};
use crate::exporter::metadata::{request_metadata, sent_as_metadata};
use crate::exporter::{keys_distinct, ExportConfig};
use crate::transform::{converted, resource_spans};
use crate::{outcome, Error, ErrorView};

verus! {

/// Target to which the exporter is going to send spans, defaults to
/// https://localhost:4317/v1/traces.
pub const OTEL_EXPORTER_OTLP_TRACES_ENDPOINT: &'static str = "OTEL_EXPORTER_OTLP_TRACES_ENDPOINT";

/// Max waiting time for the backend to process each spans batch, defaults to 10s.
pub const OTEL_EXPORTER_OTLP_TRACES_TIMEOUT: &'static str = "OTEL_EXPORTER_OTLP_TRACES_TIMEOUT";

/// The name of the tracer that a pipeline installs.
pub const TRACER_NAME: &'static str = "opentelemetry-otlp";

/// The version of the tracer that a pipeline installs: that of this crate.
pub const TRACER_VERSION: &'static str = "0.11.0";

/// Builds pipelines.
#[derive(Debug)]
pub struct OtlpPipeline;

/// Creates a pipeline to set up.
pub fn new_pipeline() -> (r: OtlpPipeline)
    ensures
        r == OtlpPipeline,
{
    OtlpPipeline
}

impl OtlpPipeline {
    /// Creates an OTLP tracing pipeline.
    pub fn tracing<T, H>(self) -> (r: OtlpTracePipeline<T, H>)
        ensures
            r == OtlpTracePipeline::<T, H>::unset(),
    {
        OtlpTracePipeline { exporter_builder: None, trace_config: None }
    }
}

/// Recommended configuration for an OTLP exporter pipeline.
pub struct OtlpTracePipeline<T, H> {
    /// The builder of the exporter, once one is set.
    pub exporter_builder: Option<SpanExporterBuilder<T, H>>,
    /// The configuration of the tracer provider, once one is set.
    pub trace_config: Option<Config>,
}

impl<T, H> Default for OtlpTracePipeline<T, H> {
    fn default() -> (r: Self)
        ensures
            r == Self::unset(),
    {
        OtlpTracePipeline { exporter_builder: None, trace_config: None }
    }
}

/// How finished spans reach the exporter of a tracer provider.
#[derive(Debug)]
pub enum SpanProcessor<R> {
    /// One by one, as they end.
    Simple,
    /// In batches, by a task that runs on the given runtime.
    Batch(R),
}

/// What is to be installed: a tracer provider with an exporter, and the tracer taken from it.
pub struct TracerSetup<T, H, R> {
    /// The exporter.
    pub exporter: SpanExporter<T, H>,
    /// How spans reach the exporter.
    pub processor: SpanProcessor<R>,
    /// The configuration of the provider, if it is not the default one.
    pub trace_config: Option<Config>,
    /// The name of the tracer.
    pub tracer_name: &'static str,
    /// The version of the tracer.
    pub tracer_version: Option<&'static str>,
    /// The schema of what the tracer emits.
    pub schema_url: Option<&'static str>,
}

/// The setup of an exporter and a configuration: the tracer bears the name and the version of this
/// crate.
pub open spec fn setup_of<T, H, R>(
    exporter: SpanExporter<T, H>,
    processor: SpanProcessor<R>,
    trace_config: Option<Config>,
) -> TracerSetup<T, H, R> {
    TracerSetup {
        exporter,
        processor,
        trace_config,
        tracer_name: TRACER_NAME,
        tracer_version: Some(TRACER_VERSION),
        schema_url: None,
    }
}

impl<T, H> OtlpTracePipeline<T, H> {
    /// A pipeline in which nothing is set.
    pub open spec fn unset() -> Self {
        OtlpTracePipeline { exporter_builder: None, trace_config: None }
    }

    /// The pipeline with this configuration in place of its own.
    pub open spec fn setting_trace_config(self, trace_config: Config) -> Self {
        OtlpTracePipeline {
            exporter_builder: self.exporter_builder,
            trace_config: Some(trace_config),
        }
    }

    /// The pipeline with this exporter builder in place of its own.
    pub open spec fn setting_exporter(self, builder: SpanExporterBuilder<T, H>) -> Self {
        OtlpTracePipeline { exporter_builder: Some(builder), trace_config: self.trace_config }
    }

    /// What installing the pipeline sets up, or why it cannot be installed: no exporter is set, or
    /// the exporter cannot be built.
    pub open spec fn installed<R>(self, processor: SpanProcessor<R>) -> Result<
        TracerSetup<T, H, R>,
        ErrorView,
    > {
        match self.exporter_builder {
            None => Err(ErrorView::NoExporterBuilder),
            Some(builder) => match builder.built() {
                Err(error) => Err(error),
                Ok(exporter) => Ok(setup_of(exporter, processor, self.trace_config)),
            },
        }
    }

    /// Sets the trace provider configuration.
    pub fn with_trace_config(self, trace_config: Config) -> (r: Self)
        ensures
            r == self.setting_trace_config(trace_config),
    {
        let mut pipeline = self;
        pipeline.trace_config = Some(trace_config);
        pipeline
    }

    /// Sets the OTLP span exporter builder.
    ///
    /// Note that the pipeline will not build the exporter until
    /// [`install_batch`](OtlpTracePipeline::install_batch) or
    /// [`install_simple`](OtlpTracePipeline::install_simple) is called.
    pub fn with_exporter<B: Into<SpanExporterBuilder<T, H>>>(self, pipeline: B) -> (r: Self)
        ensures
            exists|builder: SpanExporterBuilder<T, H>|
                {
                    &&& #[trigger] call_ensures(B::into, (pipeline,), builder)
                    &&& r == self.setting_exporter(builder)
                },
            <B as vstd::std_specs::convert::IntoSpec<SpanExporterBuilder<T, H>>>::obeys_into_spec()
                ==> r == self.setting_exporter(
                <B as vstd::std_specs::convert::IntoSpec<SpanExporterBuilder<T, H>>>::into_spec(
                    pipeline,
                ),
            ),
    {
        let builder: SpanExporterBuilder<T, H> = pipeline.into();
        OtlpTracePipeline { exporter_builder: Some(builder), trace_config: self.trace_config }
    }

    /// Installs the configured span exporter.
    ///
    /// The tracer has the name `opentelemetry-otlp` and the current crate version.
    pub fn install_simple(self) -> (r: Result<TracerSetup<T, H, ()>, Error>)
        ensures
            outcome(r) == self.installed(SpanProcessor::<()>::Simple),
    {
        let builder = match self.exporter_builder {
            Some(builder) => builder,
            None => return Err(Error::NoExporterBuilder),
        };
        match builder.build_span_exporter() {
            Ok(exporter) => Ok(build_simple_with_exporter(exporter, self.trace_config)),
            Err(error) => Err(error),
        }
    }

    /// Installs the configured span exporter and a batch span processor using the specified
    /// runtime.
    ///
    /// The tracer has the name `opentelemetry-otlp` and the current crate version.
    pub fn install_batch<R>(self, runtime: R) -> (r: Result<TracerSetup<T, H, R>, Error>)
        ensures
            outcome(r) == self.installed(SpanProcessor::Batch(runtime)),
    {
        let builder = match self.exporter_builder {
            Some(builder) => builder,
            None => return Err(Error::NoExporterBuilder),
        };
        match builder.build_span_exporter() {
            Ok(exporter) => Ok(build_batch_with_exporter(exporter, self.trace_config, runtime)),
            Err(error) => Err(error),
        }
    }
}

fn build_simple_with_exporter<T, H>(
    exporter: SpanExporter<T, H>,
    trace_config: Option<Config>,
) -> (r: TracerSetup<T, H, ()>)
    ensures
        r == setup_of(exporter, SpanProcessor::<()>::Simple, trace_config),
{
    TracerSetup {
        exporter,
        processor: SpanProcessor::Simple,
        trace_config,
        tracer_name: TRACER_NAME,
        tracer_version: Some(TRACER_VERSION),
        schema_url: None,
    }
}

fn build_batch_with_exporter<T, H, R>(
    exporter: SpanExporter<T, H>,
    trace_config: Option<Config>,
    runtime: R,
) -> (r: TracerSetup<T, H, R>)
    ensures
        r == setup_of(exporter, SpanProcessor::Batch(runtime), trace_config),
{
    TracerSetup {
        exporter,
        processor: SpanProcessor::Batch(runtime),
        trace_config,
        tracer_name: TRACER_NAME,
        tracer_version: Some(TRACER_VERSION),
        schema_url: None,
    }
}

/// OTLP span exporter builder.
#[non_exhaustive]
pub enum SpanExporterBuilder<T, H> {
    /// Tonic span exporter builder.
    Tonic(TonicExporterBuilder<T>),
    /// Grpc span exporter builder.
    Grpcio(GrpcioExporterBuilder),
    /// Http span exporter builder.
    Http(HttpExporterBuilder<H>),
}

impl<T, H> SpanExporterBuilder<T, H> {
    /// Whether no header key occurs twice.
    pub open spec fn well_formed(self) -> bool {
        match self {
            SpanExporterBuilder::Tonic(_) => true,
            SpanExporterBuilder::Grpcio(builder) => builder.grpcio_config.well_formed(),
            SpanExporterBuilder::Http(builder) => builder.http_config.well_formed(),
        }
    }

    /// The exporter that the builder builds, or why it cannot: the endpoint is not a URI, or the TLS
    /// settings cannot be applied to it.
    pub open spec fn built(self) -> Result<SpanExporter<T, H>, ErrorView> {
        match self {
            SpanExporterBuilder::Tonic(builder) => match builder.channel.under_tls(
                builder.tonic_config.tls_config,
            ) {
                Ok(channel) => Ok(
                    SpanExporter::over_tonic(
                        builder.exporter_config,
                        builder.tonic_config.metadata,
                        channel,
                    ),
                ),
                Err(error) => Err(error),
            },
            SpanExporterBuilder::Grpcio(builder) => Ok(
                SpanExporter::over_grpcio(builder.exporter_config, builder.grpcio_config),
            ),
            SpanExporterBuilder::Http(builder) => outcome(
                SpanExporter::over_http(
                    parsed_uri(builder.exporter_config.endpoint@),
                    builder.exporter_config.timeout,
                    builder.http_config,
                ),
            ),
        }
    }

    /// Builds an OTLP span exporter using the given transport and exporter configuration.
    pub fn build_span_exporter(self) -> (r: Result<SpanExporter<T, H>, Error>)
        ensures
            outcome(r) == self.built(),
            self.well_formed() ==> (r matches Ok(exporter) ==> exporter.well_formed()),
    {
        match self {
            SpanExporterBuilder::Tonic(builder) => {
                let tonic_config = builder.tonic_config;
                let channel = match builder.channel.with_tls(tonic_config.tls_config) {
                    Ok(channel) => channel,
                    Err(error) => return Err(error),
                };
                Ok(
                    SpanExporter::Tonic {
                        timeout: builder.exporter_config.timeout,
                        metadata: tonic_config.metadata,
                        trace_exporter: channel,
                    },
                )
            },
            SpanExporterBuilder::Grpcio(builder) => Ok(
                SpanExporter::new_grpcio(builder.exporter_config, builder.grpcio_config),
            ),
            SpanExporterBuilder::Http(builder) => SpanExporter::new_http(
                builder.exporter_config,
                builder.http_config,
            ),
        }
    }
}

impl<T, H> From<TonicExporterBuilder<T>> for SpanExporterBuilder<T, H> {
    fn from(exporter: TonicExporterBuilder<T>) -> (r: Self) {
        SpanExporterBuilder::Tonic(exporter)
    }
}

impl<T, H> vstd::std_specs::convert::FromSpecImpl<TonicExporterBuilder<T>> for SpanExporterBuilder<T, H> {
    open spec fn obeys_from_spec() -> bool {
        true
    }

    open spec fn from_spec(exporter: TonicExporterBuilder<T>) -> Self {
        SpanExporterBuilder::Tonic(exporter)
    }
}

impl<T, H> From<GrpcioExporterBuilder> for SpanExporterBuilder<T, H> {
    fn from(exporter: GrpcioExporterBuilder) -> (r: Self) {
        SpanExporterBuilder::Grpcio(exporter)
    }
}

impl<T, H> vstd::std_specs::convert::FromSpecImpl<GrpcioExporterBuilder> for SpanExporterBuilder<T, H> {
    open spec fn obeys_from_spec() -> bool {
        true
    }

    open spec fn from_spec(exporter: GrpcioExporterBuilder) -> Self {
        SpanExporterBuilder::Grpcio(exporter)
    }
}

impl<T, H> From<HttpExporterBuilder<H>> for SpanExporterBuilder<T, H> {
    fn from(exporter: HttpExporterBuilder<H>) -> (r: Self) {
        SpanExporterBuilder::Http(exporter)
    }
}

impl<T, H> vstd::std_specs::convert::FromSpecImpl<HttpExporterBuilder<H>> for SpanExporterBuilder<T, H> {
    open spec fn obeys_from_spec() -> bool {
        true
    }

    open spec fn from_spec(exporter: HttpExporterBuilder<H>) -> Self {
        SpanExporterBuilder::Http(exporter)
    }
}

/// OTLP exporter that makes tracing information ready to be sent.
#[allow(inconsistent_fields)]
pub enum SpanExporter<T, H> {
    /// Trace exporter using tonic as grpc layer.
    Tonic {
        /// Duration of timeout when sending spans to backend.
        timeout: Duration,
        /// Additional headers of the outbound requests.
        metadata: Option<MetadataMap>,
        /// The channel of the grpc trace exporter.
        trace_exporter: ExporterChannel<T>,
    },
    /// Trace exporter using the gRPC core library as grpc layer.
    Grpcio {
        /// Duration of timeout when sending spans to backend.
        timeout: Duration,
        /// Additional headers of the outbound requests.
        headers: Option<Vec<(String, String)>>,
        /// The channel of the grpc trace exporter.
        trace_exporter: GrpcioChannel,
    },
    /// Trace exporter using HTTP transport.
    Http {
        /// Duration of timeout when sending spans to backend.
        timeout: Duration,
        /// Additional headers of the outbound requests.
        headers: Option<Vec<(String, String)>>,
        /// The collector URL.
        collector_endpoint: Uri,
        /// The HTTP trace exporter.
        trace_exporter: Option<H>,
    },
}

/// What is to be sent for a batch, and over what.
#[allow(inconsistent_fields)]
pub enum ExportAction<'a, T, H> {
    /// A call of the trace service over a tonic channel.
    Tonic {
        /// The channel.
        trace_exporter: &'a ExporterChannel<T>,
        /// The spans of the request.
        resource_spans: Vec<ResourceSpans>,
        /// The metadata of the request.
        metadata: MetadataMap,
    },
    /// A call of the trace service over a channel of the gRPC core library.
    Grpcio {
        /// The channel.
        trace_exporter: &'a GrpcioChannel,
        /// The spans to send.
        batch: Vec<SpanData>,
        /// The time the call may take.
        timeout: Duration,
        /// The headers to add to the call, as far as it takes them.
        headers: &'a Option<Vec<(String, String)>>,
    },
    /// An HTTP request.
    Http {
        /// The client that sends it.
        trace_exporter: &'a H,
        /// The request.
        request: HttpRequest,
        /// The time that sending it may take.
        timeout: Duration,
    },
}

impl<T, H> SpanExporter<T, H> {
    /// Whether no header key occurs twice.
    pub open spec fn well_formed(self) -> bool {
        match self {
            SpanExporter::Tonic { .. } => true,
            SpanExporter::Grpcio { headers, .. } => keys_distinct(headers),
            SpanExporter::Http { headers, .. } => keys_distinct(headers),
        }
    }

    /// The exporter over a tonic channel.
    pub open spec fn over_tonic(
        config: ExportConfig,
        metadata: Option<MetadataMap>,
        channel: ExporterChannel<T>,
    ) -> Self {
        SpanExporter::Tonic { timeout: config.timeout, metadata, trace_exporter: channel }
    }

    /// The exporter over a channel of the gRPC core library.
    pub open spec fn over_grpcio(config: ExportConfig, grpcio_config: GrpcioConfig) -> Self {
        SpanExporter::Grpcio {
            timeout: config.timeout,
            headers: grpcio_config.headers,
            trace_exporter: channel_for(
                config.endpoint,
                grpcio_config.completion_queue_count,
                grpcio_config.compression,
                grpcio_config.credentials,
                grpcio_config.use_tls,
            ),
        }
    }

    /// The exporter that posts to an endpoint, if that is a URI.
    pub open spec fn over_http(
        endpoint: Result<Uri, InvalidUri>,
        timeout: Duration,
        http_config: HttpConfig<H>,
    ) -> Result<Self, Error> {
        match endpoint {
            Ok(url) => Ok(
                SpanExporter::Http {
                    timeout,
                    headers: http_config.headers,
                    collector_endpoint: url,
                    trace_exporter: http_config.client,
                },
            ),
            Err(error) => Err(Error::InvalidUri(error)),
        }
    }

    /// Builds a new span exporter with given tonic channel.
    ///
    /// This allows users to bring their own custom channel like UDS, which overrides the TLS
    /// configuration. However, users MUST make sure the [`ExportConfig::timeout`] is
    /// the same as the channel's timeout.
    pub fn from_tonic_channel(config: ExportConfig, tonic_config: TonicConfig, channel: T) -> (r:
        Self)
        ensures
            r == Self::over_tonic(
                config,
                tonic_config.metadata,
                ExporterChannel::Custom(channel),
            ),
    {
        SpanExporter::Tonic {
            timeout: config.timeout,
            metadata: tonic_config.metadata,
            trace_exporter: ExporterChannel::Custom(channel),
        }
    }

    /// Builds a new span exporter with the given configuration.
    pub fn new_grpcio(config: ExportConfig, grpcio_config: GrpcioConfig) -> (r: Self)
        ensures
            r == Self::over_grpcio(config, grpcio_config),
    {
        let channel = GrpcioChannel::new(
            config.endpoint,
            grpcio_config.completion_queue_count,
            grpcio_config.compression,
            grpcio_config.credentials,
            grpcio_config.use_tls,
        );
        SpanExporter::Grpcio {
            timeout: config.timeout,
            headers: grpcio_config.headers,
            trace_exporter: channel,
        }
    }

    /// Builds a new span exporter with the given configuration.
    pub fn new_http(config: ExportConfig, http_config: HttpConfig<H>) -> (r: Result<Self, Error>)
        ensures
            r == Self::over_http(parsed_uri(config.endpoint@), config.timeout, http_config),
    {
        let url = parse_uri(config.endpoint.as_str());
        Self::with_collector_endpoint(url, config.timeout, http_config)
    }

    /// Builds a new span exporter that posts to an endpoint, if that is a URI.
    pub fn with_collector_endpoint(
        endpoint: Result<Uri, InvalidUri>,
        timeout: Duration,
        http_config: HttpConfig<H>,
    ) -> (r: Result<Self, Error>)
        ensures
            r == Self::over_http(endpoint, timeout, http_config),
    {
        match endpoint {
            Ok(url) => Ok(
                SpanExporter::Http {
                    timeout,
                    headers: http_config.headers,
                    collector_endpoint: url,
                    trace_exporter: http_config.client,
                },
            ),
            Err(error) => Err(Error::from(error)),
        }
    }

    /// The debug output of the exporter. It shows the timeout and what is added to requests; of the
    /// client it shows nothing.
    pub open spec fn shown(self) -> Seq<char> {
        match self {
            SpanExporter::Tonic { metadata, timeout, .. } => exporter_debug(
                "metadata"@,
                optional_metadata_debug(metadata),
                timeout,
            ),
            SpanExporter::Grpcio { headers, timeout, .. } => exporter_debug(
                "headers"@,
                headers_debug(headers),
                timeout,
            ),
            SpanExporter::Http { headers, timeout, .. } => exporter_debug(
                "headers"@,
                headers_debug(headers),
                timeout,
            ),
        }
    }

    /// The debug output of the exporter.
    pub fn debug_string(&self) -> (r: String)
        ensures
            r@ == self.shown(),
    {
        match self {
            SpanExporter::Tonic { metadata, timeout, .. } => {
                let shown = debug_metadata(metadata);
                debug_exporter("metadata", shown.as_str(), timeout)
            },
            SpanExporter::Grpcio { headers, timeout, .. } => {
                let shown = debug_headers(headers);
                debug_exporter("headers", shown.as_str(), timeout)
            },
            SpanExporter::Http { headers, timeout, .. } => {
                let shown = debug_headers(headers);
                debug_exporter("headers", shown.as_str(), timeout)
            },
        }
    }

    /// What exporting a batch comes to. Over gRPC it is a call that carries one message for each
    /// span, in order, and all configured metadata, or an error if that is too much. Over HTTP it is
    /// a request to the collector, or an error if there is no client to send it or no request to
    /// send.
    pub open spec fn exports(
        self,
        batch: Seq<SpanData>,
        r: Result<ExportAction<'_, T, H>, Error>,
    ) -> bool {
        match self {
            SpanExporter::Tonic { metadata, trace_exporter, .. } => match r {
                Ok(ExportAction::Tonic { trace_exporter: client, resource_spans, metadata: sent })
                => {
                    &&& *client == trace_exporter
                    &&& converted(batch, resource_spans@)
                    &&& sent_as_metadata(metadata, Ok(sent))
                },
                Ok(_) => false,
                Err(error) => sent_as_metadata(metadata, Err(error)),
            },
            SpanExporter::Grpcio { timeout, headers, trace_exporter } => match r {
                Ok(
                    ExportAction::Grpcio {
                        trace_exporter: client,
                        batch: sent,
                        timeout: limit,
                        headers: added,
                    },
                ) => {
                    &&& *client == trace_exporter
                    &&& sent@ == batch
                    &&& limit == timeout
                    &&& *added == headers
                },
                _ => false,
            },
            SpanExporter::Http { timeout, headers, collector_endpoint, trace_exporter } => match (
                trace_exporter,
                r,
            ) {
                (None, Err(error)) => error == Error::NoHttpClient,
                (None, Ok(_)) => false,
                (
                    Some(client),
                    Ok(ExportAction::Http { trace_exporter: sender, request, timeout: limit }),
                ) => {
                    &&& *sender == client
                    &&& limit == timeout
                    &&& sent_over_http(
                        batch,
                        header_list(headers),
                        collector_endpoint,
                        Ok(request),
                    )
                },
                (Some(_), Ok(_)) => false,
                (Some(_), Err(error)) => sent_over_http(
                    batch,
                    header_list(headers),
                    collector_endpoint,
                    Err(error),
                ),
            },
        }
    }

    /// Makes a batch ready to be sent.
    pub fn export(&self, batch: Vec<SpanData>) -> (r: Result<ExportAction<'_, T, H>, Error>)
        ensures
            self.exports(batch@, r),
    {
        match self {
            SpanExporter::Grpcio { timeout, headers, trace_exporter } => Ok(
                ExportAction::Grpcio { trace_exporter, batch, timeout: *timeout, headers },
            ),
            SpanExporter::Tonic { trace_exporter, metadata, .. } => {
                let resource_spans = resource_spans(batch);
                let metadata = match request_metadata(metadata) {
                    Ok(metadata) => metadata,
                    Err(error) => return Err(error),
                };
                Ok(ExportAction::Tonic { trace_exporter, resource_spans, metadata })
            },
            SpanExporter::Http { timeout, trace_exporter, collector_endpoint, headers } => {
                match trace_exporter {
                    Some(client) => match http_send_request(batch, headers, collector_endpoint) {
                        Ok(request) => Ok(
                            ExportAction::Http {
                                trace_exporter: client,
                                request,
                                timeout: *timeout,
                            },
                        ),
                        Err(error) => Err(error),
                    },
                    None => Err(Error::NoHttpClient),
                }
            },
        }
    }
}

/// What sending a batch comes to, given the reply: any response, whatever it says, is a success, and
/// a failure to get one is passed on.
pub fn export_result<S, E>(reply: Result<S, E>) -> (r: Result<(), E>)
    ensures
        match reply {
            Ok(_) => r == Ok::<(), E>(()),
            Err(error) => r == Err::<(), E>(error),
        },
{
    match reply {
        Ok(_) => Ok(()),
        Err(error) => Err(error),
    }
}

} // verus!
