//! Declarations of the types of other crates that the library carries through.
//!
//! A value of such a type comes out of a call into its crate and is handed on to another call:
//! the library never looks inside. What a collection among them holds, and what a call returns,
//! is named beside the calls, in the module that makes them.
use vstd::prelude::*;

verus! {

/// A finished span, as the SDK hands it to an exporter.
#[verifier::external_type_specification]
#[verifier::external_body]
pub struct ExSpanData(opentelemetry::sdk::export::trace::SpanData);

/// The configuration of a tracer provider.
#[verifier::external_type_specification]
#[verifier::external_body]
pub struct ExConfig(opentelemetry::sdk::trace::Config);

/// A span in the form in which the protocol sends it.
#[verifier::external_type_specification]
#[verifier::external_body]
pub struct ExResourceSpans(opentelemetry_proto::tonic::trace::v1::ResourceSpans);

/// The custom metadata entries of a gRPC call.
#[verifier::external_type_specification]
#[verifier::external_body]
pub struct ExMetadataMap(tonic::metadata::MetadataMap);

/// TLS settings of a gRPC client.
#[verifier::external_type_specification]
#[verifier::external_body]
pub struct ExClientTlsConfig(tonic::transport::ClientTlsConfig);

/// The settings of a gRPC connection that is not made yet.
#[verifier::external_type_specification]
#[verifier::external_body]
pub struct ExEndpoint(tonic::transport::Endpoint);

/// The status with which a gRPC call failed.
#[verifier::external_type_specification]
#[verifier::external_body]
pub struct ExStatus(tonic::Status);

/// A parsed URI.
#[verifier::external_type_specification]
#[verifier::external_body]
pub struct ExUri(http::Uri);

/// Why a text is not a URI.
#[verifier::external_type_specification]
#[verifier::external_body]
pub struct ExInvalidUri(http::uri::InvalidUri);

/// A text is not a header name.
#[verifier::external_type_specification]
#[verifier::external_body]
pub struct ExInvalidHeaderName(http::header::InvalidHeaderName);

/// A text is not a header value.
#[verifier::external_type_specification]
#[verifier::external_body]
pub struct ExInvalidHeaderValue(http::header::InvalidHeaderValue);

/// A header map cannot take another name.
#[verifier::external_type_specification]
#[verifier::external_body]
pub struct ExMaxSizeReached(http::header::MaxSizeReached);

/// The value of a header.
#[verifier::external_type_specification]
#[verifier::external_body]
pub struct ExHeaderValue(http::header::HeaderValue);

/// The headers of an HTTP request.
#[verifier::external_type_specification]
#[verifier::external_body]
#[verifier::reject_recursive_types(T)]
pub struct ExHeaderMap<T>(http::HeaderMap<T>);

/// A protobuf message did not fit its buffer.
#[verifier::external_type_specification]
#[verifier::external_body]
pub struct ExEncodeError(prost::EncodeError);

} // verus!
