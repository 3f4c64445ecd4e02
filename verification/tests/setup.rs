use futures::channel::mpsc::{unbounded, UnboundedSender};
use futures::StreamExt;
use http::Uri;
use opentelemetry_otlp::exporter::grpc_sys::{
    ChannelSecurity, Compression, Credentials, GrpcioChannel, GrpcioConfig, GrpcioExporterBuilder,
};
use opentelemetry_otlp::exporter::grpc_tonic::{
    channel_with_timeout, default_channel, secured_channel, traces_endpoint, traces_timeout,
    Channel, ChannelChoice, ExporterChannel, TonicConfig, TonicExporterBuilder,
};
use opentelemetry_otlp::exporter::http_proto::{HttpConfig, HttpExporterBuilder};
use opentelemetry_otlp::exporter::ExportConfig;
use opentelemetry_otlp::{
    export_result, new_pipeline, Error, OtlpTracePipeline, SpanExporter, SpanExporterBuilder,
    SpanProcessor, OTEL_EXPORTER_OTLP_TRACES_ENDPOINT, OTEL_EXPORTER_OTLP_TRACES_TIMEOUT,
};
use opentelemetry_proto::tonic::collector::trace::v1::{
    trace_service_client::TraceServiceClient, ExportTraceServiceRequest,
};
use std::task::{Context, Poll};
use std::time::Duration;
use tokio::io::AsyncRead;
use tonic::metadata::MetadataMap;
use tonic::transport::{Certificate, ClientTlsConfig, Endpoint, Identity};

type Pipeline = OtlpTracePipeline<u32, &'static str>;

fn config(endpoint: &str, secs: u64) -> ExportConfig {
    ExportConfig { endpoint: endpoint.to_string(), timeout: Duration::from_secs(secs) }
}

fn default_builder(endpoint: &str) -> TonicExporterBuilder<u32> {
    TonicExporterBuilder::with_default_config(default_channel(Some(endpoint.to_string()), None))
}

fn tonic_builder(channel: u32) -> TonicExporterBuilder<u32> {
    default_builder("https://collector:4317").with_channel(Channel(channel))
}

fn build(builder: TonicExporterBuilder<u32>) -> Result<SpanExporter<u32, ()>, Error> {
    SpanExporterBuilder::from(builder).build_span_exporter()
}

/// The endpoint over which the exporter of a builder without a custom channel sends.
fn collector(builder: TonicExporterBuilder<u32>) -> Endpoint {
    match build(builder) {
        Ok(SpanExporter::Tonic { trace_exporter: ExporterChannel::Collector(endpoint), .. }) => endpoint,
        _ => panic!("an exporter over the collector endpoint was to be built"),
    }
}

/// TLS settings that cannot be applied to any endpoint.
fn unusable_tls_config() -> ClientTlsConfig {
    ClientTlsConfig::new().identity(Identity::from_pem("no certificate", "no key"))
}

fn http_builder(endpoint: &str, client: Option<&'static str>) -> HttpExporterBuilder<&'static str> {
    HttpExporterBuilder {
        exporter_config: config(endpoint, 7),
        http_config: HttpConfig { client, headers: None },
    }
}

fn grpcio_config() -> GrpcioConfig {
    GrpcioConfig {
        credentials: None,
        headers: None,
        compression: None,
        use_tls: None,
        completion_queue_count: 2,
    }
}

fn security(credentials: Option<Credentials>, use_tls: Option<bool>) -> ChannelSecurity {
    GrpcioChannel::new("localhost:4317".to_string(), 1, None, credentials, use_tls).security
}

fn credentials() -> Option<Credentials> {
    Some(Credentials { cert: "cert".to_string(), key: "key".to_string() })
}

#[test]
fn variables_have_their_names() {
    assert_eq!(OTEL_EXPORTER_OTLP_TRACES_ENDPOINT, "OTEL_EXPORTER_OTLP_TRACES_ENDPOINT");
    assert_eq!(OTEL_EXPORTER_OTLP_TRACES_TIMEOUT, "OTEL_EXPORTER_OTLP_TRACES_TIMEOUT");
}

#[test]
fn default_export_config() {
    let config = ExportConfig::default();
    assert_eq!(config.endpoint, "https://localhost:4317");
    assert_eq!(config.timeout, Duration::from_secs(10));
}

#[test]
fn default_tonic_config() {
    let config = TonicConfig::default();
    assert!(config.metadata.is_none());
    assert!(config.tls_config.is_none());
}

#[test]
fn traces_endpoint_defaults_to_the_traces_path() {
    let endpoint = traces_endpoint(None, &ExportConfig::default().endpoint);
    assert_eq!(endpoint, "https://localhost:4317/v1/traces");
}

#[test]
fn a_given_endpoint_is_taken_as_it_is() {
    let endpoint = traces_endpoint(Some("http://collector:1234".to_string()), "https://localhost:4317");
    assert_eq!(endpoint, "http://collector:1234");
}

#[test]
fn timeout_is_given_in_seconds() {
    let configured = Duration::from_secs(10);
    assert_eq!(traces_timeout(None, configured), configured);
    assert_eq!(traces_timeout(Some("15".to_string()), configured), Duration::from_secs(15));
    assert_eq!(traces_timeout(Some("+15".to_string()), configured), Duration::from_secs(15));
    assert_eq!(traces_timeout(Some("007".to_string()), configured), Duration::from_secs(7));
    assert_eq!(traces_timeout(Some("0".to_string()), configured), Duration::from_secs(0));
    assert_eq!(
        traces_timeout(Some("18446744073709551615".to_string()), configured),
        Duration::from_secs(u64::MAX)
    );
}

#[test]
fn an_unreadable_timeout_counts_as_not_given() {
    let configured = Duration::from_secs(10);
    for text in ["", "+", "-1", " 5", "5 ", "1_000", "ten", "1.5", "18446744073709551616"] {
        assert_eq!(traces_timeout(Some(text.to_string()), configured), configured);
    }
}

#[test]
fn default_channel_goes_to_the_default_endpoint() {
    let channel = default_channel(None, None).unwrap();
    assert_eq!(channel.0.uri().to_string(), "https://localhost:4317/v1/traces");
}

#[test]
fn default_channel_goes_to_the_given_endpoint() {
    let channel =
        default_channel(Some("http://collector:1234".to_string()), Some("3".to_string())).unwrap();
    assert_eq!(channel.0.uri().host(), Some("collector"));
    assert_eq!(channel.0.uri().port_u16(), Some(1234));
    assert_eq!(channel.0.uri().path(), "/");
}

#[test]
fn default_channel_refuses_what_is_no_uri() {
    let r = default_channel(Some("not a uri".to_string()), None);
    assert!(matches!(r, Err(Error::InvalidUri(_))));
}

/// Connects to a server that never says anything.
struct SilentServer;

impl tonic::codegen::Service<Uri> for SilentServer {
    type Response = tokio::io::DuplexStream;
    type Error = std::io::Error;
    type Future = std::future::Ready<Result<Self::Response, Self::Error>>;

    fn poll_ready(&mut self, _: &mut Context<'_>) -> Poll<Result<(), Self::Error>> {
        Poll::Ready(Ok(()))
    }

    fn call(&mut self, _: Uri) -> Self::Future {
        let (client, server) = tokio::io::duplex(65536);
        std::mem::forget(server);
        std::future::ready(Ok(client))
    }
}

#[test]
fn default_channel_limits_the_time_of_a_request() {
    let runtime = tokio::runtime::Builder::new_current_thread().enable_all().build().unwrap();
    let status = runtime.block_on(async {
        let address = Some("http://collector".to_string());
        let endpoint = default_channel(address, Some("1".to_string())).unwrap().0;
        let channel = endpoint.connect_with_connector_lazy(SilentServer);
        let request = ExportTraceServiceRequest { resource_spans: vec![] };
        TraceServiceClient::new(channel).export(request).await.unwrap_err()
    });
    assert_eq!(status.message(), "Timeout expired");
}

#[test]
fn the_reason_for_a_missing_channel_is_kept() {
    let error = "not a uri".parse::<Uri>().unwrap_err();
    let r = channel_with_timeout(Err(error), Duration::from_secs(1));
    assert!(matches!(r, Err(Error::InvalidUri(_))));
}

#[test]
fn tonic_builder_defaults() {
    let builder = default_builder("https://collector:4317");
    assert_eq!(builder.exporter_config.endpoint, "https://localhost:4317");
    assert_eq!(builder.exporter_config.timeout, Duration::from_secs(10));
    assert!(builder.tonic_config.metadata.is_none());
    assert!(builder.tonic_config.tls_config.is_none());
    assert!(matches!(builder.channel, ChannelChoice::Collector(Ok(_))));
}

#[test]
fn exporter_sends_to_the_collector_endpoint() {
    let builder = default_builder("https://collector:4317");
    assert_eq!(collector(builder).uri().to_string(), "https://collector:4317/");
    let builder = default_builder("https://collector:4317").with_tls_config(ClientTlsConfig::new());
    assert_eq!(collector(builder).uri().to_string(), "https://collector:4317/");
}

/// Connects to a server that tells the first byte it is sent.
struct FirstByte(UnboundedSender<u8>);

impl tonic::codegen::Service<Uri> for FirstByte {
    type Response = tokio::io::DuplexStream;
    type Error = std::io::Error;
    type Future = std::future::Ready<Result<Self::Response, Self::Error>>;

    fn poll_ready(&mut self, _: &mut Context<'_>) -> Poll<Result<(), Self::Error>> {
        Poll::Ready(Ok(()))
    }

    fn call(&mut self, _: Uri) -> Self::Future {
        let (client, mut server) = tokio::io::duplex(65536);
        let told = self.0.clone();
        tokio::spawn(async move {
            let mut first = [0u8];
            let mut buffer = tokio::io::ReadBuf::new(&mut first);
            std::future::poll_fn(|cx| std::pin::Pin::new(&mut server).poll_read(cx, &mut buffer))
                .await
                .unwrap();
            told.unbounded_send(buffer.filled()[0]).unwrap();
            std::mem::forget(server);
        });
        std::future::ready(Ok(client))
    }
}

/// The first byte that is sent when a batch is exported over the endpoint.
fn first_byte_sent(endpoint: Endpoint) -> u8 {
    let (told, mut first) = unbounded();
    let runtime = tokio::runtime::Builder::new_current_thread().enable_all().build().unwrap();
    runtime.block_on(async {
        let channel = endpoint.connect_with_connector_lazy(FirstByte(told));
        tokio::spawn(async move {
            let request = ExportTraceServiceRequest { resource_spans: vec![] };
            TraceServiceClient::new(channel).export(request).await
        });
        first.next().await.unwrap()
    })
}

#[test]
fn tls_settings_protect_the_channel() {
    // A TLS connection begins with a handshake record, an unprotected one with the words "PRI".
    let builder = default_builder("https://collector:4317").with_tls_config(ClientTlsConfig::new());
    assert_eq!(first_byte_sent(collector(builder)), 22);
    assert_eq!(first_byte_sent(collector(default_builder("http://collector:4317"))), b'P');
}

#[test]
fn tls_settings_that_cannot_be_applied_are_reported() {
    let endpoint = "https://collector:4317";
    match build(default_builder(endpoint).with_tls_config(unusable_tls_config())) {
        Err(Error::Transport(reason)) => assert!(reason.contains("PrivateKeyParseError")),
        _ => panic!("the settings were to be refused"),
    }
    let certificate = "-----BEGIN CERTIFICATE-----\nAAAA\n-----END CERTIFICATE-----\n";
    let settings = ClientTlsConfig::new().ca_certificate(Certificate::from_pem(certificate));
    match build(default_builder(endpoint).with_tls_config(settings)) {
        Err(Error::Transport(reason)) => assert!(reason.contains("CertificateParseError")),
        _ => panic!("the settings were to be refused"),
    }
    let settings = ClientTlsConfig::new().domain_name("not a name");
    assert!(matches!(build(default_builder(endpoint).with_tls_config(settings)), Err(Error::Transport(_))));
}

#[test]
fn a_missing_endpoint_is_reported_before_tls_settings() {
    let builder = default_builder("not a uri").with_tls_config(unusable_tls_config());
    assert!(matches!(build(builder), Err(Error::InvalidUri(_))));
}

#[test]
fn the_last_tls_settings_hold() {
    let builder = default_builder("https://collector:4317")
        .with_tls_config(unusable_tls_config())
        .with_tls_config(ClientTlsConfig::new());
    assert!(build(builder).is_ok());
}

#[test]
fn a_custom_channel_overrides_tls_settings() {
    let before = default_builder("https://collector:4317")
        .with_tls_config(unusable_tls_config())
        .with_channel(Channel(3));
    let after = tonic_builder(3).with_tls_config(unusable_tls_config());
    for builder in [before, after] {
        match build(builder) {
            Ok(SpanExporter::Tonic { trace_exporter: ExporterChannel::Custom(channel), .. }) => {
                assert_eq!(channel, 3)
            }
            _ => panic!("an exporter over the custom channel was to be built"),
        }
    }
}

#[test]
fn what_applying_tls_settings_came_to_is_kept() {
    let endpoint = Endpoint::from_static("https://collector:4317");
    match secured_channel::<u32>(Ok(endpoint)) {
        Ok(ExporterChannel::Collector(endpoint)) => {
            assert_eq!(endpoint.uri().host(), Some("collector"))
        }
        _ => panic!("the endpoint was to be kept"),
    }
    match secured_channel::<u32>(Err("bad key".to_string())) {
        Err(Error::Transport(reason)) => assert_eq!(reason, "bad key"),
        _ => panic!("the reason was to be kept"),
    }
}

#[test]
fn an_exporter_over_a_given_channel() {
    let tonic_config = TonicConfig { metadata: None, tls_config: Some(unusable_tls_config()) };
    match SpanExporter::<u32, ()>::from_tonic_channel(config("", 3), tonic_config, 4) {
        SpanExporter::Tonic { timeout, metadata, trace_exporter: ExporterChannel::Custom(channel) } => {
            assert_eq!(timeout, Duration::from_secs(3));
            assert!(metadata.is_none());
            assert_eq!(channel, 4);
        }
        _ => panic!("an exporter over the channel was to be made"),
    }
}

#[test]
fn tonic_settings_do_not_interfere() {
    let mut metadata = MetadataMap::new();
    metadata.insert("x-key", "one".parse().unwrap());
    let builder = default_builder("https://collector:4317")
        .with_metadata(metadata)
        .with_tls_config(ClientTlsConfig::new().domain_name("example.com"))
        .with_channel(Channel("custom"));
    assert_eq!(builder.tonic_config.metadata.unwrap().get("x-key").unwrap(), "one");
    assert!(builder.tonic_config.tls_config.is_some());
    assert!(matches!(builder.channel, ChannelChoice::Custom(Channel("custom"))));
}

#[test]
fn the_last_metadata_holds() {
    let mut first = MetadataMap::new();
    first.insert("x-key", "one".parse().unwrap());
    let mut second = MetadataMap::new();
    second.insert("x-other", "two".parse().unwrap());
    let builder = tonic_builder(1).with_metadata(first).with_metadata(second);
    let metadata = builder.tonic_config.metadata.unwrap();
    assert!(metadata.get("x-key").is_none());
    assert_eq!(metadata.get("x-other").unwrap(), "two");
}

#[test]
fn a_custom_channel_takes_the_place_of_an_error() {
    match build(default_builder("not a uri").with_channel(Channel(5))) {
        Ok(SpanExporter::Tonic { timeout, metadata, trace_exporter: ExporterChannel::Custom(channel) }) => {
            assert_eq!(timeout, Duration::from_secs(10));
            assert!(metadata.is_none());
            assert_eq!(channel, 5);
        }
        _ => panic!("a tonic exporter was to be built"),
    }
}

#[test]
fn channel_shows_only_its_name() {
    assert_eq!(Channel("secret").debug_string(), "Channel");
    assert_eq!(Channel(3).clone().0, 3);
}

#[test]
fn a_missing_channel_is_reported() {
    assert!(matches!(build(default_builder("")), Err(Error::InvalidUri(_))));
}

#[test]
fn http_exporter_is_built() {
    let builder: SpanExporterBuilder<(), &'static str> =
        http_builder("http://collector/v1/traces", Some("client")).into();
    match builder.build_span_exporter() {
        Ok(SpanExporter::Http { timeout, headers, collector_endpoint, trace_exporter }) => {
            assert_eq!(timeout, Duration::from_secs(7));
            assert!(headers.is_none());
            assert_eq!(collector_endpoint.to_string(), "http://collector/v1/traces");
            assert_eq!(trace_exporter, Some("client"));
        }
        _ => panic!("an http exporter was to be built"),
    }
}

#[test]
fn http_exporter_needs_a_uri() {
    let r = SpanExporter::<(), &'static str>::new_http(
        config("http://exa mple", 1),
        HttpConfig { client: None, headers: None },
    );
    assert!(matches!(r, Err(Error::InvalidUri(_))));
}

#[test]
fn http_exporter_over_a_parsed_endpoint() {
    let r = SpanExporter::<(), u8>::with_collector_endpoint(
        Ok(Uri::from_static("http://collector/")),
        Duration::from_secs(4),
        HttpConfig { client: Some(9), headers: Some(vec![("a".to_string(), "b".to_string())]) },
    );
    match r {
        Ok(SpanExporter::Http { timeout, headers, collector_endpoint, trace_exporter }) => {
            assert_eq!(timeout, Duration::from_secs(4));
            assert_eq!(headers, Some(vec![("a".to_string(), "b".to_string())]));
            assert_eq!(collector_endpoint, Uri::from_static("http://collector/"));
            assert_eq!(trace_exporter, Some(9));
        }
        _ => panic!("an http exporter was to be built"),
    }
}

#[test]
fn credentials_protect_the_channel() {
    for use_tls in [None, Some(false), Some(true)] {
        match security(credentials(), use_tls) {
            ChannelSecurity::TlsWithCredentials(credentials) => {
                assert_eq!(credentials.cert, "cert");
                assert_eq!(credentials.key, "key");
            }
            _ => panic!("the credentials were to be used"),
        }
    }
}

#[test]
fn tls_has_to_be_asked_for() {
    assert!(matches!(security(None, Some(true)), ChannelSecurity::Tls));
    assert!(matches!(security(None, Some(false)), ChannelSecurity::Insecure));
    assert!(matches!(security(None, None), ChannelSecurity::Insecure));
}

#[test]
fn grpcio_exporter_is_built() {
    let mut grpcio_config = grpcio_config();
    grpcio_config.compression = Some(Compression::Gzip);
    grpcio_config.use_tls = Some(true);
    grpcio_config.headers = Some(vec![("a".to_string(), "b".to_string())]);
    let builder: SpanExporterBuilder<(), ()> =
        GrpcioExporterBuilder { exporter_config: config("localhost:4317", 3), grpcio_config }.into();
    match builder.build_span_exporter() {
        Ok(SpanExporter::Grpcio { timeout, headers, trace_exporter }) => {
            assert_eq!(timeout, Duration::from_secs(3));
            assert_eq!(headers, Some(vec![("a".to_string(), "b".to_string())]));
            assert_eq!(trace_exporter.endpoint, "localhost:4317");
            assert_eq!(trace_exporter.completion_queue_count, 2);
            assert_eq!(trace_exporter.compression, Some(Compression::Gzip));
            assert!(matches!(trace_exporter.security, ChannelSecurity::Tls));
        }
        _ => panic!("a grpcio exporter was to be built"),
    }
}

#[test]
fn a_new_pipeline_has_nothing_set() {
    let pipeline: Pipeline = new_pipeline().tracing();
    assert!(pipeline.exporter_builder.is_none());
    assert!(pipeline.trace_config.is_none());
    let pipeline: Pipeline = OtlpTracePipeline::default();
    assert!(pipeline.exporter_builder.is_none());
    assert!(pipeline.trace_config.is_none());
}

#[test]
fn a_pipeline_needs_an_exporter() {
    let pipeline: Pipeline = new_pipeline().tracing();
    assert!(matches!(pipeline.install_simple(), Err(Error::NoExporterBuilder)));
    let pipeline: Pipeline = new_pipeline().tracing();
    assert!(matches!(pipeline.install_batch("runtime"), Err(Error::NoExporterBuilder)));
    let pipeline: Pipeline =
        new_pipeline().tracing().with_trace_config(opentelemetry::sdk::trace::Config::default());
    assert!(matches!(pipeline.install_simple(), Err(Error::NoExporterBuilder)));
}

#[test]
fn installing_simply() {
    let pipeline: Pipeline = new_pipeline().tracing().with_exporter(tonic_builder(8));
    let setup = match pipeline.install_simple() {
        Ok(setup) => setup,
        Err(_) => panic!("the pipeline was to be installed"),
    };
    assert!(matches!(setup.exporter, SpanExporter::Tonic { trace_exporter: ExporterChannel::Custom(8), .. }));
    assert!(matches!(setup.processor, SpanProcessor::Simple));
    assert!(setup.trace_config.is_none());
    assert_eq!(setup.tracer_name, "opentelemetry-otlp");
    assert_eq!(setup.tracer_version, Some("0.11.0"));
    assert_eq!(setup.schema_url, None);
}

#[test]
fn installing_in_batches() {
    let config = opentelemetry::sdk::trace::Config::default().with_max_events_per_span(77);
    let pipeline: Pipeline = new_pipeline()
        .tracing()
        .with_trace_config(config)
        .with_exporter(tonic_builder(8))
        .with_exporter(http_builder("http://collector/", Some("client")));
    let setup = match pipeline.install_batch("runtime") {
        Ok(setup) => setup,
        Err(_) => panic!("the pipeline was to be installed"),
    };
    assert!(matches!(setup.exporter, SpanExporter::Http { .. }));
    assert!(matches!(setup.processor, SpanProcessor::Batch("runtime")));
    assert_eq!(setup.trace_config.unwrap().span_limits.max_events_per_span, 77);
    assert_eq!(setup.tracer_name, "opentelemetry-otlp");
    assert_eq!(setup.tracer_version, Some("0.11.0"));
}

#[test]
fn installations_fail_alike() {
    let pipeline: Pipeline = new_pipeline().tracing().with_exporter(http_builder("", None));
    assert!(matches!(pipeline.install_simple(), Err(Error::InvalidUri(_))));
    let pipeline: Pipeline = new_pipeline().tracing().with_exporter(http_builder("", None));
    assert!(matches!(pipeline.install_batch(()), Err(Error::InvalidUri(_))));
}

#[test]
fn any_response_is_a_success() {
    assert_eq!(export_result::<u16, &str>(Ok(500)), Ok(()));
    assert_eq!(export_result::<u16, &str>(Err("unreachable")), Err("unreachable"));
}

#[test]
fn a_status_is_an_error() {
    let status = tonic::Status::unavailable("down");
    match export_result::<(), Error>(Err(Error::from(status))) {
        Err(Error::Status(status)) => {
            assert_eq!(status.code(), tonic::Code::Unavailable);
            assert_eq!(status.message(), "down");
        }
        _ => panic!("the status was to be passed on"),
    }
}
