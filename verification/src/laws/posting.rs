//! What holds of the requests that carry a batch over HTTP.
use http::Uri;
use opentelemetry::sdk::export::trace::SpanData;
use opentelemetry_proto::tonic::trace::v1::ResourceSpans;
use prost::EncodeError;
use vstd::prelude::*;
use vstd::utf8::encode_utf8;

use crate::exporter::http_proto::{
    content_type_header, decoded_request, encoded_request, first_fault, header_contents,
    header_fault, header_name, header_value, http_send_request, overlaid, post_request,
    sent_over_http, HeaderFault, HttpRequest, MAX_HEADER_NAMES,
};
use crate::laws::{law_headers_accepted, law_last_header_is_sent, law_other_headers_stay};
use crate::transform::is_form_of;
use crate::Error;

verus! {

/// The headers that are given, none if there is no list of them.
pub open spec fn given(headers: Option<Vec<(String, String)>>) -> Seq<(String, String)> {
    if headers is Some {
        headers->0@
    } else {
        Seq::empty()
    }
}

/// Whether the messages are those of the spans: as many, and each a form of the span in its place.
pub open spec fn spans_kept(spans: Seq<SpanData>, messages: Seq<ResourceSpans>) -> bool {
    &&& messages.len() == spans.len()
    &&& forall|i: int| 0 <= i < spans.len() ==> is_form_of(#[trigger] messages[i], spans[i])
}

/// Whether both the name and the value of a header may be sent.
pub open spec fn may_be_sent(header: (String, String)) -> bool {
    header_name(header.0@) is Some && header_value(header.1@) is Some
}

/// Whether a later header in the list has the name of the `i`-th one.
pub open spec fn replaced_later(headers: Seq<(String, String)>, i: int) -> bool {
    exists|j: int|
        i < j < headers.len() && header_name(#[trigger] headers[j].0@) == header_name(
            headers[i].0@,
        )
}

/// Whether some header in the list has this name.
pub open spec fn names(headers: Seq<(String, String)>, name: Seq<char>) -> bool {
    exists|i: int| 0 <= i < headers.len() && header_name(#[trigger] headers[i].0@) == Some(name)
}

/// Whether a request goes out with the given headers: each name has one value, that of the last
/// header of the name, and beside the given names there is only the type of the body.
pub open spec fn sent_with(
    contents: Map<Seq<char>, Seq<Seq<u8>>>,
    headers: Seq<(String, String)>,
) -> bool {
    &&& forall|i: int|
        0 <= i < headers.len() && !replaced_later(headers, i) ==> {
            &&& may_be_sent(#[trigger] headers[i])
            &&& contents.contains_key(header_name(headers[i].0@)->0)
            &&& contents[header_name(headers[i].0@)->0] == seq![header_value(headers[i].1@)->0]
        }
    &&& forall|name: Seq<char>|
        !names(headers, name) ==> (#[trigger] contents.contains_key(name) <==> name
            == "content-type"@)
    &&& !names(headers, "content-type"@) ==> contents["content-type"@] == seq![
        encode_utf8("application/x-protobuf"@),
    ]
}

/// Whether the `i`-th header is the first that may not be sent.
pub open spec fn first_refused(headers: Seq<(String, String)>, i: int) -> bool {
    &&& 0 <= i < headers.len()
    &&& !may_be_sent(headers[i])
    &&& forall|j: int| 0 <= j < i ==> may_be_sent(#[trigger] headers[j])
}

/// Whether the error is one that the headers give cause for: the first header that may not be sent
/// has a bad value, or a good value and a bad name; or there are very many headers, none of those
/// that certainly fit being a bad one.
pub open spec fn headers_at_fault(headers: Seq<(String, String)>, error: Error) -> bool {
    match error {
        Error::InvalidHeaderValue(_) => exists|i: int| #[trigger]
            first_refused(headers, i) && header_value(headers[i].1@) is None,
        Error::InvalidHeaderName(_) => exists|i: int| #[trigger]
            first_refused(headers, i) && header_value(headers[i].1@) is Some,
        Error::TooManyHeaders(_) => {
            &&& headers.len() >= MAX_HEADER_NAMES
            &&& forall|i: int| 0 <= i < MAX_HEADER_NAMES - 1 ==> may_be_sent(#[trigger] headers[i])
        },
        _ => false,
    }
}

/// A list without a fault is overlaid on the type of the body as a request sends it.
proof fn lemma_sent_with(headers: Seq<(String, String)>)
    requires
        first_fault(headers) is None,
    ensures
        forall|i: int| 0 <= i < headers.len() ==> may_be_sent(#[trigger] headers[i]),
        sent_with(overlaid(content_type_header(), headers), headers),
{
    let start = content_type_header();
    let contents = overlaid(start, headers);
    law_headers_accepted(headers);
    assert forall|i: int| 0 <= i < headers.len() implies may_be_sent(#[trigger] headers[i]) by {
        assert(header_fault(headers[i]) is None);
    }
    assert forall|i: int| 0 <= i < headers.len() && !replaced_later(headers, i) implies {
        &&& may_be_sent(#[trigger] headers[i])
        &&& contents.contains_key(header_name(headers[i].0@)->0)
        &&& contents[header_name(headers[i].0@)->0] == seq![header_value(headers[i].1@)->0]
    } by {
        law_last_header_is_sent(start, headers, i);
    }
    assert forall|name: Seq<char>| !names(headers, name) implies (
    #[trigger] contents.contains_key(name) <==> name == "content-type"@) by {
        law_other_headers_stay(start, headers, name);
    }
    if !names(headers, "content-type"@) {
        law_other_headers_stay(start, headers, "content-type"@);
    }
}

/// The fault of a list is that of its first faulty header.
proof fn lemma_first_refused(headers: Seq<(String, String)>) -> (i: int)
    requires
        first_fault(headers) is Some,
    ensures
        first_refused(headers, i),
        header_fault(headers[i]) == first_fault(headers),
    decreases headers.len(),
{
    let rest = headers.drop_last();
    if first_fault(rest) is Some {
        let i = lemma_first_refused(rest);
        assert forall|j: int| 0 <= j < i implies may_be_sent(#[trigger] headers[j]) by {
            assert(rest[j] == headers[j]);
        }
        i
    } else {
        law_headers_accepted(rest);
        assert forall|j: int| 0 <= j < rest.len() implies may_be_sent(#[trigger] headers[j]) by {
            assert(header_fault(rest[j]) is None);
        }
        headers.len() - 1
    }
}

/// A posted request holds the encoded batch and nothing else, byte for byte, and goes to the
/// collector's URL as a `POST`.
pub proof fn law_post_carries_the_body(
    encoded: Result<Vec<u8>, EncodeError>,
    headers: Option<Vec<(String, String)>>,
    collector_endpoint: Uri,
    request: HttpRequest,
)
    requires
        call_ensures(post_request, (encoded, &headers, &collector_endpoint), Ok(request)),
    ensures
        encoded is Ok,
        request.body@ == encoded->Ok_0@,
        request.method@ == "POST"@,
        request.uri == collector_endpoint,
{
}

/// A posted request has the given headers, each of which may be sent, and the type of the body where
/// they do not replace it.
pub proof fn law_post_carries_the_headers(
    encoded: Result<Vec<u8>, EncodeError>,
    headers: Option<Vec<(String, String)>>,
    collector_endpoint: Uri,
    request: HttpRequest,
)
    requires
        call_ensures(post_request, (encoded, &headers, &collector_endpoint), Ok(request)),
    ensures
        forall|i: int| 0 <= i < given(headers).len() ==> may_be_sent(#[trigger] given(headers)[i]),
        sent_with(header_contents(request.headers), given(headers)),
{
    lemma_sent_with(given(headers));
}

/// A batch that could not be encoded is not posted, and the encoding error is reported. Otherwise, if
/// nothing is posted, the headers are to blame.
pub proof fn law_post_fails_for_a_reason(
    encoded: Result<Vec<u8>, EncodeError>,
    headers: Option<Vec<(String, String)>>,
    collector_endpoint: Uri,
    error: Error,
)
    requires
        call_ensures(post_request, (encoded, &headers, &collector_endpoint), Err(error)),
    ensures
        match encoded {
            Err(cause) => error == Error::EncodeError(cause),
            Ok(_) => headers_at_fault(given(headers), error),
        },
{
    if encoded is Ok {
        lemma_headers_at_fault(given(headers), error);
    }
}

/// What the contract of a post says of a failure is the fault of the headers.
proof fn lemma_headers_at_fault(headers: Seq<(String, String)>, error: Error)
    requires
        match error {
            Error::InvalidHeaderValue(_) => first_fault(headers) == Some(HeaderFault::Value),
            Error::InvalidHeaderName(_) => first_fault(headers) == Some(HeaderFault::Name),
            Error::TooManyHeaders(_) => {
                &&& headers.len() >= MAX_HEADER_NAMES
                &&& first_fault(headers.take(MAX_HEADER_NAMES - 1)) is None
            },
            _ => false,
        },
    ensures
        headers_at_fault(headers, error),
{
    if error is TooManyHeaders {
        let sure = headers.take(MAX_HEADER_NAMES - 1);
        law_headers_accepted(sure);
        assert forall|i: int| 0 <= i < MAX_HEADER_NAMES - 1 implies may_be_sent(
            #[trigger] headers[i],
        ) by {
            assert(header_fault(sure[i]) is None);
        }
    } else {
        let i = lemma_first_refused(headers);
        assert(first_refused(headers, i));
    }
}

/// An encoded batch is posted if every header may be sent and there are not very many of them.
pub proof fn law_post_is_owed(
    encoded: Result<Vec<u8>, EncodeError>,
    headers: Option<Vec<(String, String)>>,
    collector_endpoint: Uri,
    r: Result<HttpRequest, Error>,
)
    requires
        call_ensures(post_request, (encoded, &headers, &collector_endpoint), r),
        encoded is Ok,
        given(headers).len() < MAX_HEADER_NAMES,
        forall|i: int| 0 <= i < given(headers).len() ==> may_be_sent(#[trigger] given(headers)[i]),
    ensures
        r is Ok,
{
    if r is Err {
        law_post_fails_for_a_reason(encoded, headers, collector_endpoint, r->Err_0);
    }
}

/// Whether a batch went into a request: the body is an encoding of one message for each span, in
/// order, from which decoding gives these messages back, and it is posted with the given headers.
pub open spec fn batch_posted(
    batch: Seq<SpanData>,
    headers: Option<Vec<(String, String)>>,
    collector_endpoint: Uri,
    request: HttpRequest,
) -> bool {
    &&& decoded_request(request.body@) is Some
    &&& spans_kept(batch, decoded_request(request.body@)->0)
    &&& encoded_request(decoded_request(request.body@)->0) == Ok::<Seq<u8>, EncodeError>(
        request.body@,
    )
    &&& request.method@ == "POST"@
    &&& request.uri == collector_endpoint
    &&& forall|i: int| 0 <= i < given(headers).len() ==> may_be_sent(#[trigger] given(headers)[i])
    &&& sent_with(header_contents(request.headers), given(headers))
}

/// Whether there is a cause for the error in place of a request: the messages of the spans could not
/// be encoded, or the headers are at fault.
pub open spec fn batch_refused(
    batch: Seq<SpanData>,
    headers: Option<Vec<(String, String)>>,
    error: Error,
) -> bool {
    match error {
        Error::EncodeError(cause) => exists|messages: Seq<ResourceSpans>| #[trigger]
            spans_kept(batch, messages) && encoded_request(messages) == Err::<
                Seq<u8>,
                EncodeError,
            >(cause),
        _ => headers_at_fault(given(headers), error),
    }
}

/// What the contract says of a batch sent over HTTP, spelt out.
pub(crate) proof fn lemma_sent_over_http(
    batch: Seq<SpanData>,
    headers: Option<Vec<(String, String)>>,
    collector_endpoint: Uri,
    r: Result<HttpRequest, Error>,
)
    requires
        sent_over_http(batch, given(headers), collector_endpoint, r),
    ensures
        match r {
            Ok(request) => batch_posted(batch, headers, collector_endpoint, request),
            Err(error) => batch_refused(batch, headers, error),
        },
{
    let messages = choose|messages: Seq<ResourceSpans>|
        {
            &&& #[trigger] crate::transform::converted(batch, messages)
            &&& crate::exporter::http_proto::decodable(messages)
            &&& crate::exporter::http_proto::posted(
                encoded_request(messages),
                given(headers),
                collector_endpoint,
                r,
            )
        };
    assert(spans_kept(batch, messages));
    match r {
        Ok(_) => lemma_sent_with(given(headers)),
        Err(error) => {
            if encoded_request(messages) is Ok {
                lemma_headers_at_fault(given(headers), error);
            }
        },
    }
}

/// Over HTTP every span arrives: decoding the body gives back as many messages as the batch has
/// spans, each a form of the span in its place. If there is no request, either the messages could not
/// be encoded or the headers are at fault.
pub proof fn law_http_request_carries_every_span(
    batch: Vec<SpanData>,
    headers: Option<Vec<(String, String)>>,
    collector_endpoint: Uri,
    r: Result<HttpRequest, Error>,
)
    requires
        call_ensures(http_send_request, (batch, &headers, &collector_endpoint), r),
    ensures
        match r {
            Ok(request) => batch_posted(batch@, headers, collector_endpoint, request),
            Err(error) => batch_refused(batch@, headers, error),
        },
{
    lemma_sent_over_http(batch@, headers, collector_endpoint, r);
}

} // verus!
