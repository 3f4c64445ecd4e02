use http::Uri;
use opentelemetry::sdk::export::trace::SpanData;
use opentelemetry::sdk::trace::{EvictedHashMap, EvictedQueue};
use opentelemetry::sdk::{InstrumentationLibrary, Resource};
use opentelemetry::trace::{SpanContext, SpanId, SpanKind, Status, TraceFlags, TraceId, TraceState};
use opentelemetry::{Array, KeyValue, Value};
use opentelemetry_otlp::exporter::grpc_sys::{ChannelSecurity, GrpcioChannel};
use opentelemetry_otlp::exporter::grpc_tonic::ExporterChannel;
use opentelemetry_otlp::exporter::http_proto::{http_send_request, post_request, HttpRequest};
use opentelemetry_otlp::exporter::metadata::request_metadata;
use opentelemetry_otlp::transform::resource_spans;
use opentelemetry_otlp::{Error, ExportAction, SpanExporter};
use opentelemetry_proto::tonic::collector::trace::v1::ExportTraceServiceRequest;
use opentelemetry_proto::tonic::trace::v1::ResourceSpans;
use prost::Message;
use std::borrow::Cow;
use std::time::{Duration, SystemTime};
use tonic::metadata::{MetadataMap, MetadataValue};

type Exporter = SpanExporter<&'static str, &'static str>;
type Headers = Option<Vec<(String, String)>>;

fn span(name: &'static str, id: u64) -> SpanData {
    SpanData {
        span_context: SpanContext::new(
            TraceId::from_bytes((id as u128 + 1).to_be_bytes()),
            SpanId::from_bytes(id.to_be_bytes()),
            TraceFlags::SAMPLED,
            false,
            TraceState::default(),
        ),
        parent_span_id: SpanId::INVALID,
        span_kind: SpanKind::Client,
        name: Cow::Borrowed(name),
        start_time: SystemTime::UNIX_EPOCH,
        end_time: SystemTime::UNIX_EPOCH + Duration::from_secs(1),
        attributes: EvictedHashMap::new(8, 0),
        events: EvictedQueue::new(8),
        links: EvictedQueue::new(8),
        status: Status::Ok,
        resource: Cow::Owned(Resource::empty()),
        instrumentation_lib: InstrumentationLibrary::default(),
    }
}

fn names(messages: &[ResourceSpans]) -> Vec<String> {
    messages.iter().map(|message| message.scope_spans[0].spans[0].name.clone()).collect()
}

fn headers(list: &[(&str, &str)]) -> Headers {
    Some(list.iter().map(|(key, value)| (key.to_string(), value.to_string())).collect())
}

fn endpoint() -> Uri {
    Uri::from_static("http://collector:4318/v1/traces")
}

fn post(list: &[(&str, &str)]) -> Result<HttpRequest, Error> {
    post_request(Ok(vec![1, 2, 3]), &headers(list), &endpoint())
}

fn tonic_exporter(metadata: Option<MetadataMap>) -> Exporter {
    SpanExporter::Tonic {
        timeout: Duration::from_secs(10),
        metadata,
        trace_exporter: ExporterChannel::Custom("channel"),
    }
}

fn http_exporter(headers: Headers, client: Option<&'static str>) -> Exporter {
    SpanExporter::Http {
        timeout: Duration::from_millis(1500),
        headers,
        collector_endpoint: endpoint(),
        trace_exporter: client,
    }
}

fn grpcio_exporter(headers: Headers) -> Exporter {
    SpanExporter::Grpcio {
        timeout: Duration::from_secs(2),
        headers,
        trace_exporter: GrpcioChannel {
            endpoint: "localhost:4317".to_string(),
            completion_queue_count: 1,
            compression: None,
            security: ChannelSecurity::Insecure,
        },
    }
}

fn metadata() -> MetadataMap {
    let mut metadata = MetadataMap::new();
    metadata.insert("x-one", "1".parse().unwrap());
    metadata.append("x-one", "2".parse().unwrap());
    metadata.insert_bin("x-two-bin", MetadataValue::from_bytes(b"binary"));
    metadata.append("x-one", "3".parse().unwrap());
    metadata.append_bin("x-two-bin", MetadataValue::from_bytes(b"more"));
    metadata
}

#[test]
fn one_message_for_each_span_in_order() {
    let messages = resource_spans(vec![span("a", 1), span("b", 2), span("c", 3)]);
    assert_eq!(names(&messages), vec!["a", "b", "c"]);
    assert_eq!(messages[1].scope_spans[0].spans[0].span_id, vec![0, 0, 0, 0, 0, 0, 0, 2]);
    assert!(resource_spans(vec![]).is_empty());
}

#[test]
fn batches_join() {
    let mut joined = resource_spans(vec![span("a", 1)]);
    joined.extend(resource_spans(vec![span("b", 2)]));
    assert_eq!(joined, resource_spans(vec![span("a", 1), span("b", 2)]));
}

#[test]
fn request_carries_all_metadata() {
    let request = request_metadata(&Some(metadata())).unwrap();
    assert_eq!(request.len(), 5);
    assert_eq!(request.keys_len(), 2);
    let ascii: Vec<_> =
        request.get_all("x-one").iter().map(|value| value.to_str().unwrap().to_string()).collect();
    assert_eq!(ascii, vec!["1", "2", "3"]);
    let binary: Vec<_> =
        request.get_all_bin("x-two-bin").iter().map(|value| value.to_bytes().unwrap().to_vec()).collect();
    assert_eq!(binary, vec![b"binary".to_vec(), b"more".to_vec()]);
}

#[test]
fn sensitive_metadata_stays_sensitive() {
    let mut value: MetadataValue<tonic::metadata::Ascii> = "secret".parse().unwrap();
    value.set_sensitive(true);
    let mut metadata = MetadataMap::new();
    metadata.insert("x-key", value);
    let request = request_metadata(&Some(metadata)).unwrap();
    assert!(request.get("x-key").unwrap().is_sensitive());
}

#[test]
fn no_metadata_no_entries() {
    assert!(request_metadata(&None).unwrap().is_empty());
    assert!(request_metadata(&Some(MetadataMap::new())).unwrap().is_empty());
}

#[test]
fn export_over_tonic() {
    let exporter = tonic_exporter(Some(metadata()));
    match exporter.export(vec![span("a", 1), span("b", 2)]) {
        Ok(ExportAction::Tonic { trace_exporter, resource_spans, metadata }) => {
            assert!(matches!(trace_exporter, ExporterChannel::Custom("channel")));
            assert_eq!(names(&resource_spans), vec!["a", "b"]);
            assert_eq!(metadata.get("x-one").unwrap(), "1");
            assert_eq!(metadata.len(), 5);
        }
        _ => panic!("a call over tonic was to be made"),
    }
    match tonic_exporter(None).export(vec![]) {
        Ok(ExportAction::Tonic { resource_spans, metadata, .. }) => {
            assert!(resource_spans.is_empty());
            assert!(metadata.is_empty());
        }
        _ => panic!("a call over tonic was to be made"),
    }
}

#[test]
fn export_over_grpcio() {
    let exporter = grpcio_exporter(headers(&[("x-key", "value")]));
    match exporter.export(vec![span("a", 1)]) {
        Ok(ExportAction::Grpcio { trace_exporter, batch, timeout, headers: added }) => {
            assert_eq!(trace_exporter.endpoint, "localhost:4317");
            assert_eq!(batch, vec![span("a", 1)]);
            assert_eq!(timeout, Duration::from_secs(2));
            assert_eq!(*added, headers(&[("x-key", "value")]));
        }
        _ => panic!("a call over grpcio was to be made"),
    }
}

#[test]
fn export_over_http() {
    let exporter = http_exporter(headers(&[("X-Key", "value")]), Some("client"));
    match exporter.export(vec![span("a", 1), span("b", 2)]) {
        Ok(ExportAction::Http { trace_exporter, request, timeout }) => {
            assert_eq!(*trace_exporter, "client");
            assert_eq!(timeout, Duration::from_millis(1500));
            assert_eq!(request.method, "POST");
            assert_eq!(request.uri, endpoint());
            assert_eq!(request.headers.len(), 2);
            assert_eq!(request.headers["content-type"], "application/x-protobuf");
            assert_eq!(request.headers["x-key"], "value");
            let sent = ExportTraceServiceRequest::decode(&request.body[..]).unwrap();
            assert_eq!(names(&sent.resource_spans), vec!["a", "b"]);
        }
        _ => panic!("a request was to be sent"),
    }
}

#[test]
fn export_over_http_needs_a_client() {
    let exporter = http_exporter(headers(&[("bad name", "\n")]), None);
    assert!(matches!(exporter.export(vec![span("a", 1)]), Err(Error::NoHttpClient)));
}

#[test]
fn export_over_http_reports_faulty_headers() {
    let exporter = http_exporter(headers(&[("bad name", "value")]), Some("client"));
    assert!(matches!(exporter.export(vec![]), Err(Error::InvalidHeaderName(_))));
}

#[test]
fn an_exporter_can_be_used_again() {
    let exporter = http_exporter(headers(&[("x-key", "value")]), Some("client"));
    for _ in 0..2 {
        match exporter.export(vec![span("a", 1)]) {
            Ok(ExportAction::Http { trace_exporter, request, timeout }) => {
                assert_eq!(*trace_exporter, "client");
                assert_eq!(timeout, Duration::from_millis(1500));
                assert_eq!(request.uri, endpoint());
                assert_eq!(request.headers.len(), 2);
            }
            _ => panic!("a request was to be sent"),
        }
    }
}

#[test]
fn metadata_does_not_accumulate() {
    let exporter = tonic_exporter(Some(metadata()));
    for name in ["a", "b", "c"] {
        match exporter.export(vec![span(name, 1)]) {
            Ok(ExportAction::Tonic { metadata, .. }) => {
                assert_eq!(metadata.len(), 5);
                assert_eq!(metadata.get_all("x-one").iter().count(), 3);
            }
            _ => panic!("a call over tonic was to be made"),
        }
    }
}

#[test]
fn the_body_holds_the_batch() {
    let mut first = span("a", 1);
    first.attributes.insert(KeyValue::new("text", "value"));
    let mut second = span("b", 2);
    second.attributes.insert(KeyValue::new("number", -0.0));
    second.attributes.insert(KeyValue::new("none", Value::Array(Array::I64(vec![]))));
    let mut third = span("", 3);
    third.attributes.insert(KeyValue::new("many", Value::Array(Array::F64(vec![f64::MIN, 0.0]))));
    let batch = vec![first, second, third];
    let request = http_send_request(batch.clone(), &None, &endpoint()).unwrap();
    let sent = ExportTraceServiceRequest::decode(&request.body[..]).unwrap().resource_spans;
    assert_eq!(names(&sent), vec!["a", "b", ""]);
    assert_eq!(sent[0], ResourceSpans::from(batch[0].clone()));
    assert_eq!(sent[2], ResourceSpans::from(batch[2].clone()));
    assert_eq!(sent[1].scope_spans[0].spans[0].attributes.len(), 2);
}

#[test]
fn an_empty_batch_is_an_empty_body() {
    let request = http_send_request(vec![], &None, &endpoint()).unwrap();
    assert!(request.body.is_empty());
    assert_eq!(request.headers.len(), 1);
}

#[test]
fn post_carries_the_encoded_batch() {
    let request = post(&[]).unwrap();
    assert_eq!(request.method, "POST");
    assert_eq!(request.uri, endpoint());
    assert_eq!(request.body, vec![1, 2, 3]);
    assert_eq!(request.headers.len(), 1);
    assert_eq!(request.headers["content-type"], "application/x-protobuf");
}

#[test]
fn header_names_are_sent_in_lower_case() {
    let request = post(&[("Api-KEY", "Value"), ("!#$%&'*+-.^_`|~\"09", "")]).unwrap();
    assert_eq!(request.headers["api-key"], "Value");
    assert_eq!(request.headers["!#$%&'*+-.^_`|~\"09"], "");
    assert_eq!(request.headers.len(), 3);
}

#[test]
fn a_header_replaces_what_its_name_had() {
    let request = post(&[("Content-Type", "text/plain"), ("x-a", "1"), ("X-A", "2")]).unwrap();
    assert_eq!(request.headers.len(), 2);
    assert_eq!(request.headers["content-type"], "text/plain");
    assert_eq!(request.headers["x-a"], "2");
}

#[test]
fn header_order_does_not_matter() {
    let one = post(&[("x-a", "1"), ("x-b", "2"), ("content-type", "3")]).unwrap();
    let other = post(&[("content-type", "3"), ("x-b", "2"), ("x-a", "1")]).unwrap();
    assert_eq!(one.headers, other.headers);
}

#[test]
fn faulty_header_names() {
    let long = "a".repeat(65536);
    for name in ["", "a b", "a:b", "a(b", "a/b", "a@b", "a[b", "a{b", "a\u{e9}", "a\u{7f}", "a\n", long.as_str()] {
        assert!(matches!(post(&[(name, "value")]), Err(Error::InvalidHeaderName(_))));
    }
    let longest = "a".repeat(65535);
    assert_eq!(post(&[(longest.as_str(), "value")]).unwrap().headers[longest.as_str()], "value");
}

#[test]
fn faulty_header_values() {
    for value in ["\n", "a\rb", "\u{0}", "\u{7f}", "\u{1f}"] {
        assert!(matches!(post(&[("x-key", value)]), Err(Error::InvalidHeaderValue(_))));
    }
    let request = post(&[("x-key", "a\tb ~\u{e9}")]).unwrap();
    assert_eq!(request.headers["x-key"].as_bytes(), "a\tb ~\u{e9}".as_bytes());
}

#[test]
fn the_first_fault_is_reported() {
    assert!(matches!(post(&[("x", "1"), ("a b", "2"), ("y", "\n")]), Err(Error::InvalidHeaderName(_))));
    assert!(matches!(post(&[("x", "1"), ("y", "\n"), ("a b", "2")]), Err(Error::InvalidHeaderValue(_))));
    assert!(matches!(post(&[("a b", "\n")]), Err(Error::InvalidHeaderValue(_))));
}

#[test]
fn an_encoding_error_comes_first() {
    let message = ExportTraceServiceRequest { resource_spans: resource_spans(vec![span("a", 1)]) };
    let mut full: &mut [u8] = &mut [];
    let error = message.encode(&mut full).unwrap_err();
    let r = post_request(Err(error), &headers(&[("a b", "\n")]), &endpoint());
    match r {
        Err(Error::EncodeError(error)) => assert_eq!(error.remaining(), 0),
        _ => panic!("the encoding error was to be reported"),
    }
}

#[test]
fn a_request_takes_many_headers() {
    let list: Vec<(String, String)> = (0..6553).map(|i| (format!("x-{}", i), i.to_string())).collect();
    let request = post_request(Ok(vec![]), &Some(list), &endpoint()).unwrap();
    assert_eq!(request.headers.len(), 6554);
    assert_eq!(request.headers["x-6552"], "6552");
}

#[test]
fn a_fault_before_there_are_too_many_headers_comes_first() {
    let mut list: Vec<(String, String)> = (0..30000).map(|i| (format!("x-{}", i), i.to_string())).collect();
    list[6552].0 = "bad name".to_string();
    let r = post_request(Ok(vec![]), &Some(list), &endpoint());
    assert!(matches!(r, Err(Error::InvalidHeaderName(_))));
}

#[test]
fn a_request_does_not_take_any_number_of_headers() {
    let list: Vec<(String, String)> = (0..30000).map(|i| (format!("x-{}", i), i.to_string())).collect();
    let r = post_request(Ok(vec![]), &Some(list), &endpoint());
    assert!(matches!(r, Err(Error::TooManyHeaders(_))));
}

fn wide_metadata(keys: usize) -> Option<MetadataMap> {
    let mut metadata = MetadataMap::new();
    for i in 0..keys {
        let key = tonic::metadata::AsciiMetadataKey::from_bytes(format!("x-{}", i).as_bytes()).unwrap();
        metadata.insert(key, "value".parse().unwrap());
    }
    Some(metadata)
}

#[test]
fn a_request_takes_much_metadata() {
    for keys in [3, 6553, 6554, 24576] {
        let request = request_metadata(&wide_metadata(keys)).unwrap();
        assert_eq!(request.keys_len(), keys);
    }
    assert!(matches!(tonic_exporter(wide_metadata(3)).export(vec![]), Ok(ExportAction::Tonic { .. })));
}

#[test]
fn tonic_exporter_shows_metadata_and_timeout() {
    assert_eq!(
        tonic_exporter(None).debug_string(),
        "Exporter { metadata: None, timeout: 10s, trace_exporter: \"TraceServiceClient\" }"
    );
    let mut metadata = MetadataMap::new();
    metadata.insert("x-key", "value".parse().unwrap());
    let shown = format!("{:?}", Some(metadata.clone()));
    assert_eq!(
        tonic_exporter(Some(metadata)).debug_string(),
        format!("Exporter {{ metadata: {}, timeout: 10s, trace_exporter: \"TraceServiceClient\" }}", shown)
    );
}

#[test]
fn other_exporters_show_headers_and_timeout() {
    assert_eq!(
        grpcio_exporter(None).debug_string(),
        "Exporter { headers: None, timeout: 2s, trace_exporter: \"TraceServiceClient\" }"
    );
    assert_eq!(
        grpcio_exporter(headers(&[])).debug_string(),
        "Exporter { headers: Some({}), timeout: 2s, trace_exporter: \"TraceServiceClient\" }"
    );
    assert_eq!(
        http_exporter(headers(&[("a", "\"b\""), ("c", "d\n")]), Some("client")).debug_string(),
        "Exporter { headers: Some({\"a\": \"\\\"b\\\"\", \"c\": \"d\\n\"}), timeout: 1.5s, trace_exporter: \"TraceServiceClient\" }"
    );
}

#[test]
fn debug_output_hides_the_client() {
    assert_eq!(
        http_exporter(None, Some("client")).debug_string(),
        http_exporter(None, None).debug_string()
    );
}
