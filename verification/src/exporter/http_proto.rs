//! Sending spans over HTTP: the request that carries an encoded batch to the collector.
use http::header::{HeaderName, HeaderValue, InvalidHeaderName, InvalidHeaderValue, MaxSizeReached};
use http::uri::InvalidUri;
use http::{HeaderMap, Uri};
use opentelemetry::sdk::export::trace::SpanData;
use opentelemetry_proto::tonic::collector::trace::v1::ExportTraceServiceRequest;
use opentelemetry_proto::tonic::trace::v1::ResourceSpans;
use prost::{EncodeError, Message};
use vstd::prelude::*;
use vstd::utf8::encode_utf8;

use crate::exporter::{keys_distinct, ExportConfig};
use crate::transform::{converted, resource_spans};
use crate::Error;

verus! {

/// While it holds fewer distinct names than this, a header map takes another header whatever its
/// name is. Its hash table has at most 32768 slots, and one of that size is asked to grow, which it
/// refuses, only if a fifth of the slots or more are taken.
pub const MAX_HEADER_NAMES: usize = 6554;

/// The longest header name.
pub const MAX_HEADER_NAME_LEN: usize = 65535;

/// Configuration of the HTTP transport.
#[derive(Debug)]
pub struct HttpConfig<H> {
    /// The HTTP client to use.
    pub client: Option<H>,
    /// Additional headers to send to the collector, no key twice.
    pub headers: Option<Vec<(String, String)>>,
}

impl<H> HttpConfig<H> {
    /// Whether no header key occurs twice.
    pub open spec fn well_formed(self) -> bool {
        keys_distinct(self.headers)
    }
}

/// Builds a span exporter that posts to the collector over HTTP.
#[derive(Debug)]
pub struct HttpExporterBuilder<H> {
    /// The configuration that all transports share.
    pub exporter_config: ExportConfig,
    /// The configuration of the HTTP transport.
    pub http_config: HttpConfig<H>,
}

/// What parsing a text as a URI gives: the URI, or why it is not one.
pub uninterp spec fn parsed_uri(text: Seq<char>) -> Result<Uri, InvalidUri>;

/// `str::parse::<http::Uri>`: whether the text is a URI, and which, depends on the text alone.
#[verifier::external_body]
pub(crate) fn parse_uri(text: &str) -> (r: Result<Uri, InvalidUri>)
    ensures
        r == parsed_uri(text@),
{
    text.parse()
}

/// A request to the collector.
#[derive(Debug)]
pub struct HttpRequest {
    /// The HTTP method.
    pub method: String,
    /// The collector's URL.
    pub uri: Uri,
    /// The headers.
    pub headers: HeaderMap<HeaderValue>,
    /// The encoded batch.
    pub body: Vec<u8>,
}

/// Whether a header name may hold this character.
pub open spec fn is_header_name_char(c: char) -> bool {
    ||| '!' <= c <= '\''
    ||| c == '*' || c == '+' || c == '-' || c == '.'
    ||| '0' <= c <= '9'
    ||| 'A' <= c <= 'Z'
    ||| '^' <= c <= 'z'
    ||| c == '|' || c == '~'
}

/// A character in lower case, if it is an ASCII letter.
pub open spec fn ascii_lower(c: char) -> char {
    if 'A' <= c <= 'Z' {
        (c as u32 + 32) as char
    } else {
        c
    }
}

/// The header name that a text stands for, in lower case, if it is one.
pub open spec fn header_name(text: Seq<char>) -> Option<Seq<char>> {
    if 1 <= text.len() <= MAX_HEADER_NAME_LEN && forall|i: int|
        0 <= i < text.len() ==> is_header_name_char(#[trigger] text[i]) {
        Some(text.map_values(|c: char| ascii_lower(c)))
    } else {
        None
    }
}

/// Whether a header value may hold these bytes: no control characters but the tab.
pub open spec fn is_header_value(bytes: Seq<u8>) -> bool {
    forall|i: int|
        0 <= i < bytes.len() ==> #[trigger] bytes[i] == 9 || (bytes[i] >= 32 && bytes[i] != 127)
}

/// The header value that a text stands for, if it is one: its bytes in UTF-8.
pub open spec fn header_value(text: Seq<char>) -> Option<Seq<u8>> {
    if is_header_value(encode_utf8(text)) {
        Some(encode_utf8(text))
    } else {
        None
    }
}

/// The values that a header map holds for each name.
pub uninterp spec fn header_contents(headers: HeaderMap<HeaderValue>) -> Map<
    Seq<char>,
    Seq<Seq<u8>>,
>;

/// `HeaderName::try_from(&String)`: the name in lower case, if every character of the text may
/// stand in a header name and it is neither empty nor too long; an error otherwise.
#[verifier::external_body]
fn header_name_try_from(text: &String) -> (r: Result<String, InvalidHeaderName>)
    ensures
        match r {
            Ok(name) => header_name(text@) == Some(name@),
            Err(_) => header_name(text@) is None,
        },
{
    HeaderName::try_from(text).map(|name| name.as_str().to_owned())
}

/// `HeaderValue::from_str`: the bytes of the text, if a header value may hold them; an error
/// otherwise.
#[verifier::external_body]
fn header_value_from_str(text: &str) -> (r: Result<Vec<u8>, InvalidHeaderValue>)
    ensures
        match r {
            Ok(value) => header_value(text@) == Some(value@),
            Err(_) => header_value(text@) is None,
        },
{
    HeaderValue::from_str(text).map(|value| value.as_bytes().to_vec())
}

/// `HeaderMap::try_insert`: the value replaces all values of the name, or, if the map refuses to
/// grow, nothing changes. It does not refuse while it holds fewer than [`MAX_HEADER_NAMES`] names.
/// `HeaderName::from_bytes` and `HeaderValue::from_bytes`, which put the name and the value into the
/// map's types, accept any name in lower case and any value that may stand in a header.
#[verifier::external_body]
fn headers_insert(
    headers: &mut HeaderMap<HeaderValue>,
    name: &str,
    value: &[u8],
) -> (r: Result<(), MaxSizeReached>)
    requires
        header_name(name@) == Some(name@),
        is_header_value(value@),
    ensures
        header_contents(*final(headers)) == match r {
            Ok(_) => header_contents(*old(headers)).insert(name@, seq![value@]),
            Err(_) => header_contents(*old(headers)),
        },
        header_contents(*old(headers)).dom().len() < MAX_HEADER_NAMES ==> r is Ok,
{
    let name = HeaderName::from_bytes(name.as_bytes()).unwrap();
    let value = HeaderValue::from_bytes(value).unwrap();
    headers.try_insert(name, value).map(|_| ())
}

/// `http::request::Builder`: a request with the given method, URL and body, and with one header.
/// It is built if the header's name and value are ones and the method is `POST`; the error is
/// given as text.
#[verifier::external_body]
fn build_request(method: &str, uri: &Uri, name: &str, value: &str, body: Vec<u8>) -> (r: Result<
    HttpRequest,
    String,
>)
    ensures
        r matches Ok(request) ==> {
            &&& request.method@ == method@
            &&& request.uri == *uri
            &&& request.body@ == body@
            &&& header_name(name@) is Some
            &&& header_value(value@) is Some
            &&& header_contents(request.headers) == Map::<Seq<char>, Seq<Seq<u8>>>::empty().insert(
                header_name(name@)->0,
                seq![header_value(value@)->0],
            )
        },
        method@ == "POST"@ && header_name(name@) is Some && header_value(value@) is Some
            ==> r is Ok,
{
    let (parts, body) = http::Request::builder().method(method).uri(uri.clone()).header(
        name,
        value,
    ).body(body).map_err(|error| error.to_string())?.into_parts();
    Ok(HttpRequest {
        method: parts.method.as_str().to_owned(),
        uri: parts.uri,
        headers: parts.headers,
        body,
    })
}

/// What `Message::encode` makes of a trace export request with these spans: its bytes in protobuf
/// encoding, or an error if no buffer can hold them.
pub uninterp spec fn encoded_request(resource_spans: Seq<ResourceSpans>) -> Result<
    Seq<u8>,
    EncodeError,
>;

/// What `Message::decode` makes of a body: the spans of the trace export request that it encodes, if
/// it encodes one.
pub uninterp spec fn decoded_request(body: Seq<u8>) -> Option<Seq<ResourceSpans>>;

/// Whether the messages are the form of some batch.
pub open spec fn is_batch_form(messages: Seq<ResourceSpans>) -> bool {
    exists|batch: Seq<SpanData>| #[trigger] converted(batch, messages)
}

/// The outcome of encoding, taken by the view of the buffer.
pub open spec fn encoding(encoded: Result<Vec<u8>, EncodeError>) -> Result<Seq<u8>, EncodeError> {
    match encoded {
        Ok(buf) => Ok(buf@),
        Err(error) => Err(error),
    }
}

/// `prost::Message::encode` of an `ExportTraceServiceRequest`, into a fresh buffer: the bytes, or
/// the error, depend on the messages alone. `prost::Message::decode` gives back from the bytes the
/// messages of a batch, whose attributes are nested far less deeply than it allows.
#[verifier::external_body]
fn encode_request(resource_spans: Vec<ResourceSpans>) -> (r: Result<Vec<u8>, EncodeError>)
    ensures
        encoding(r) == encoded_request(resource_spans@),
        r matches Ok(buf) ==> (is_batch_form(resource_spans@) ==> decoded_request(buf@) == Some(
            resource_spans@,
        )),
{
    let mut buf: Vec<u8> = Vec::new();
    ExportTraceServiceRequest { resource_spans }.encode(&mut buf).map(|_| buf)
}

/// What is wrong with a configured header.
#[derive(Clone, Copy, Debug, PartialEq, Eq, Structural)]
pub enum HeaderFault {
    /// Its value is not a header value.
    Value,
    /// Its value is one, but its name is not a header name.
    Name,
}

/// What is wrong with one configured header, if anything.
pub open spec fn header_fault(header: (String, String)) -> Option<HeaderFault> {
    if header_value(header.1@) is None {
        Some(HeaderFault::Value)
    } else if header_name(header.0@) is None {
        Some(HeaderFault::Name)
    } else {
        None
    }
}

/// What is wrong with the first faulty header in a list, if there is one.
pub open spec fn first_fault(headers: Seq<(String, String)>) -> Option<HeaderFault>
    decreases headers.len(),
{
    if headers.len() == 0 {
        None
    } else {
        match first_fault(headers.drop_last()) {
            Some(fault) => Some(fault),
            None => header_fault(headers.last()),
        }
    }
}

/// Header contents after each header of a list, in order, has replaced what its name had.
pub open spec fn overlaid(
    contents: Map<Seq<char>, Seq<Seq<u8>>>,
    headers: Seq<(String, String)>,
) -> Map<Seq<char>, Seq<Seq<u8>>>
    decreases headers.len(),
{
    if headers.len() == 0 {
        contents
    } else {
        overlaid(contents, headers.drop_last()).insert(
            header_name(headers.last().0@)->0,
            seq![header_value(headers.last().1@)->0],
        )
    }
}

/// The configured headers as a list, empty if none are configured.
pub open spec fn header_list(headers: Option<Vec<(String, String)>>) -> Seq<(String, String)> {
    match headers {
        Some(list) => list@,
        None => Seq::empty(),
    }
}

/// The only header of a request to which none are added: the type of its body.
pub open spec fn content_type_header() -> Map<Seq<char>, Seq<Seq<u8>>> {
    Map::<Seq<char>, Seq<Seq<u8>>>::empty().insert(
        "content-type"@,
        seq![encode_utf8("application/x-protobuf"@)],
    )
}

/// How the outcome of encoding a batch becomes a request to the collector: a `POST` of the encoded
/// bytes to its URL, with the type of the body and the configured headers. A batch that was not
/// encoded gives the encoding error; otherwise the first faulty header, if there is one, gives the
/// error. From [`MAX_HEADER_NAMES`] configured headers on, a request may also be refused for their
/// number, unless one of those before is faulty.
pub open spec fn posted(
    encoded: Result<Seq<u8>, EncodeError>,
    headers: Seq<(String, String)>,
    collector_endpoint: Uri,
    r: Result<HttpRequest, Error>,
) -> bool {
    match encoded {
        Err(error) => r == Err::<HttpRequest, Error>(Error::EncodeError(error)),
        Ok(body) => match r {
            Ok(request) => {
                &&& first_fault(headers) is None
                &&& request.method@ == "POST"@
                &&& request.uri == collector_endpoint
                &&& request.body@ == body
                &&& header_contents(request.headers) == overlaid(content_type_header(), headers)
            },
            Err(Error::InvalidHeaderValue(_)) => first_fault(headers) == Some(HeaderFault::Value),
            Err(Error::InvalidHeaderName(_)) => first_fault(headers) == Some(HeaderFault::Name),
            Err(Error::TooManyHeaders(_)) => {
                &&& headers.len() >= MAX_HEADER_NAMES
                &&& first_fault(headers.take(MAX_HEADER_NAMES - 1)) is None
            },
            Err(_) => false,
        },
    }
}

/// `content-type` is a header name and `application/x-protobuf` a header value.
proof fn lemma_content_type()
    ensures
        header_name("content-type"@) == Some("content-type"@),
        header_value("application/x-protobuf"@) == Some(encode_utf8("application/x-protobuf"@)),
{
    reveal_strlit("content-type");
    reveal_strlit("application/x-protobuf");
    let name = "content-type"@;
    assert(name.map_values(|c: char| ascii_lower(c)) =~= name);
    let value = "application/x-protobuf"@;
    vstd::utf8::is_ascii_chars_encode_utf8(value);
}

/// A fault in the first headers of a list is the fault of the list.
proof fn lemma_first_fault_prefix(headers: Seq<(String, String)>, n: int)
    requires
        0 <= n <= headers.len(),
        first_fault(headers.take(n)) is Some,
    ensures
        first_fault(headers) == first_fault(headers.take(n)),
    decreases headers.len(),
{
    if n == headers.len() {
        assert(headers.take(n) =~= headers);
    } else {
        assert(headers.drop_last().take(n) =~= headers.take(n));
        lemma_first_fault_prefix(headers.drop_last(), n);
    }
}

/// The name of a header is in lower case already: taking it once more changes nothing.
proof fn lemma_header_name_idempotent(text: Seq<char>)
    requires
        header_name(text) is Some,
    ensures
        header_name(header_name(text)->0) == header_name(text),
{
    let name = header_name(text)->0;
    assert(name.map_values(|c: char| ascii_lower(c)) =~= name);
    assert forall|i: int| 0 <= i < name.len() implies is_header_name_char(#[trigger] name[i]) by {
        assert(is_header_name_char(text[i]));
    }
}

/// Overlaying headers adds at most one name for each.
proof fn lemma_overlaid_len(contents: Map<Seq<char>, Seq<Seq<u8>>>, headers: Seq<(String, String)>)
    requires
        contents.dom().finite(),
    ensures
        overlaid(contents, headers).dom().finite(),
        overlaid(contents, headers).dom().len() <= contents.dom().len() + headers.len(),
    decreases headers.len(),
{
    if headers.len() > 0 {
        lemma_overlaid_len(contents, headers.drop_last());
    }
}

/// Adds the configured headers to a request's headers, each replacing what its name had.
fn insert_headers(headers: &mut HeaderMap<HeaderValue>, list: &Vec<(String, String)>) -> (r: Result<
    (),
    Error,
>)
    requires
        header_contents(*old(headers)).dom().finite(),
        header_contents(*old(headers)).dom().len() <= 1,
    ensures
        match r {
            Ok(_) => {
                &&& first_fault(list@) is None
                &&& header_contents(*final(headers)) == overlaid(
                    header_contents(*old(headers)),
                    list@,
                )
            },
            Err(Error::InvalidHeaderValue(_)) => first_fault(list@) == Some(HeaderFault::Value),
            Err(Error::InvalidHeaderName(_)) => first_fault(list@) == Some(HeaderFault::Name),
            Err(Error::TooManyHeaders(_)) => {
                &&& list@.len() >= MAX_HEADER_NAMES
                &&& first_fault(list@.take(MAX_HEADER_NAMES - 1)) is None
            },
            Err(_) => false,
        },
{
    let ghost contents = header_contents(*headers);
    assert(list@.take(0) =~= Seq::<(String, String)>::empty());
    for i in 0..list.len()
        invariant
            contents.dom().finite(),
            contents.dom().len() <= 1,
            first_fault(list@.take(i as int)) is None,
            header_contents(*headers) == overlaid(contents, list@.take(i as int)),
    {
        proof {
            assert(list@.take(i + 1).drop_last() =~= list@.take(i as int));
            assert(list@.take(i + 1).last() == list@[i as int]);
            lemma_overlaid_len(contents, list@.take(i as int));
            if first_fault(list@.take(i + 1)) is Some {
                lemma_first_fault_prefix(list@, i + 1);
            }
        }
        let value = match header_value_from_str(list[i].1.as_str()) {
            Ok(value) => value,
            Err(error) => return Err(Error::from(error)),
        };
        let name = match header_name_try_from(&list[i].0) {
            Ok(name) => name,
            Err(error) => return Err(Error::from(error)),
        };
        proof {
            lemma_header_name_idempotent(list@[i as int].0@);
        }
        match headers_insert(headers, name.as_str(), value.as_slice()) {
            Ok(_) => {},
            Err(error) => {
                proof {
                    let tried = list@.take(i as int);
                    let sure = MAX_HEADER_NAMES - 1;
                    assert(tried.take(sure) =~= list@.take(sure));
                    if first_fault(tried.take(sure)) is Some {
                        lemma_first_fault_prefix(tried, sure);
                    }
                }
                return Err(Error::from(error));
            },
        }
    }
    assert(list@.take(list.len() as int) =~= list@);
    Ok(())
}

/// The request that posts an encoded batch to the collector; see [`posted`].
pub fn post_request(
    encoded: Result<Vec<u8>, EncodeError>,
    headers: &Option<Vec<(String, String)>>,
    collector_endpoint: &Uri,
) -> (r: Result<HttpRequest, Error>)
    ensures
        posted(encoding(encoded), header_list(*headers), *collector_endpoint, r),
{
    let body = match encoded {
        Ok(body) => body,
        Err(error) => return Err(Error::from(error)),
    };
    proof {
        lemma_content_type();
    }
    let mut request = match build_request(
        "POST",
        collector_endpoint,
        "content-type",
        "application/x-protobuf",
        body,
    ) {
        Ok(request) => request,
        Err(error) => return Err(Error::RequestFailed(error)),
    };
    if let Some(list) = headers {
        match insert_headers(&mut request.headers, list) {
            Ok(_) => {},
            Err(error) => return Err(error),
        }
    }
    Ok(request)
}

/// The request that carries a batch to the collector. The spans are put into the form of the
/// protocol one by one, encoded together and posted; see [`posted`].
pub fn http_send_request(
    batch: Vec<SpanData>,
    headers: &Option<Vec<(String, String)>>,
    collector_endpoint: &Uri,
) -> (r: Result<HttpRequest, Error>)
    ensures
        sent_over_http(batch@, header_list(*headers), *collector_endpoint, r),
{
    let resource_spans = resource_spans(batch);
    let ghost messages = resource_spans@;
    let encoded = encode_request(resource_spans);
    proof {
        assert(converted(batch@, messages));
        assert(decodable(messages));
    }
    let r = post_request(encoded, headers, collector_endpoint);
    assert(posted(encoded_request(messages), header_list(*headers), *collector_endpoint, r));
    r
}

/// Whether decoding gives back the messages from what they are encoded to.
pub open spec fn decodable(messages: Seq<ResourceSpans>) -> bool {
    encoded_request(messages) matches Ok(body) ==> decoded_request(body) == Some(messages)
}

/// How a batch becomes a request: some form of its spans in the protocol, encoded so that it can be
/// decoded, is posted.
pub open spec fn sent_over_http(
    batch: Seq<SpanData>,
    headers: Seq<(String, String)>,
    collector_endpoint: Uri,
    r: Result<HttpRequest, Error>,
) -> bool {
    exists|messages: Seq<ResourceSpans>|
        {
            &&& #[trigger] converted(batch, messages)
            &&& decodable(messages)
            &&& posted(encoded_request(messages), headers, collector_endpoint, r)
        }
}

} // verus!
