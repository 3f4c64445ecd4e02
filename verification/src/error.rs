//! What can go wrong while a span exporter is set up or a batch is made ready to be sent.
use http::header::{InvalidHeaderName, InvalidHeaderValue, MaxSizeReached};
use http::uri::InvalidUri;
use prost::EncodeError;
use tonic::Status;
use vstd::prelude::*;

verus! {

/// Errors of the OTLP exporter.
#[derive(Debug)]
pub enum Error {
    /// The endpoint is not a URI.
    InvalidUri(InvalidUri),
    /// The transport could not be set up with the TLS settings given, for the reason given.
    Transport(String),
    /// The collector answered a gRPC call with an error status.
    Status(Status),
    /// No HTTP client was provided.
    NoHttpClient,
    /// The HTTP request could not be put together, for the reason given.
    RequestFailed(String),
    /// A configured header has a value that HTTP does not allow.
    InvalidHeaderValue(InvalidHeaderValue),
    /// A configured header has a name that HTTP does not allow.
    InvalidHeaderName(InvalidHeaderName),
    /// More headers are configured than a request can hold.
    TooManyHeaders(MaxSizeReached),
    /// The batch could not be encoded.
    EncodeError(EncodeError),
    /// The pipeline was installed without an exporter.
    NoExporterBuilder,
}

/// What an error says: the error with the text of a reason taken by its characters.
pub enum ErrorView {
    /// The endpoint is not a URI.
    InvalidUri(InvalidUri),
    /// The transport could not be set up with the TLS settings given.
    Transport(Seq<char>),
    /// The collector answered a gRPC call with an error status.
    Status(Status),
    /// No HTTP client was provided.
    NoHttpClient,
    /// The HTTP request could not be put together.
    RequestFailed(Seq<char>),
    /// A configured header has a value that HTTP does not allow.
    InvalidHeaderValue(InvalidHeaderValue),
    /// A configured header has a name that HTTP does not allow.
    InvalidHeaderName(InvalidHeaderName),
    /// More headers are configured than a request can hold.
    TooManyHeaders(MaxSizeReached),
    /// The batch could not be encoded.
    EncodeError(EncodeError),
    /// The pipeline was installed without an exporter.
    NoExporterBuilder,
}

impl View for Error {
    type V = ErrorView;

    open spec fn view(&self) -> ErrorView {
        match *self {
            Error::InvalidUri(error) => ErrorView::InvalidUri(error),
            Error::Transport(reason) => ErrorView::Transport(reason@),
            Error::Status(status) => ErrorView::Status(status),
            Error::NoHttpClient => ErrorView::NoHttpClient,
            Error::RequestFailed(reason) => ErrorView::RequestFailed(reason@),
            Error::InvalidHeaderValue(error) => ErrorView::InvalidHeaderValue(error),
            Error::InvalidHeaderName(error) => ErrorView::InvalidHeaderName(error),
            Error::TooManyHeaders(error) => ErrorView::TooManyHeaders(error),
            Error::EncodeError(error) => ErrorView::EncodeError(error),
            Error::NoExporterBuilder => ErrorView::NoExporterBuilder,
        }
    }
}

/// An outcome, an error in it taken by what it says.
pub open spec fn outcome<T>(r: Result<T, Error>) -> Result<T, ErrorView> {
    match r {
        Ok(value) => Ok(value),
        Err(error) => Err(error@),
    }
}

impl From<InvalidUri> for Error {
    fn from(error: InvalidUri) -> (r: Error) {
        Error::InvalidUri(error)
    }
}

impl vstd::std_specs::convert::FromSpecImpl<InvalidUri> for Error {
    open spec fn obeys_from_spec() -> bool {
        true
    }

    open spec fn from_spec(error: InvalidUri) -> Error {
        Error::InvalidUri(error)
    }
}

impl From<Status> for Error {
    fn from(status: Status) -> (r: Error) {
        Error::Status(status)
    }
}

impl vstd::std_specs::convert::FromSpecImpl<Status> for Error {
    open spec fn obeys_from_spec() -> bool {
        true
    }

    open spec fn from_spec(status: Status) -> Error {
        Error::Status(status)
    }
}

impl From<InvalidHeaderValue> for Error {
    fn from(error: InvalidHeaderValue) -> (r: Error) {
        Error::InvalidHeaderValue(error)
    }
}

impl vstd::std_specs::convert::FromSpecImpl<InvalidHeaderValue> for Error {
    open spec fn obeys_from_spec() -> bool {
        true
    }

    open spec fn from_spec(error: InvalidHeaderValue) -> Error {
        Error::InvalidHeaderValue(error)
    }
}

impl From<InvalidHeaderName> for Error {
    fn from(error: InvalidHeaderName) -> (r: Error) {
        Error::InvalidHeaderName(error)
    }
}

impl vstd::std_specs::convert::FromSpecImpl<InvalidHeaderName> for Error {
    open spec fn obeys_from_spec() -> bool {
        true
    }

    open spec fn from_spec(error: InvalidHeaderName) -> Error {
        Error::InvalidHeaderName(error)
    }
}

impl From<MaxSizeReached> for Error {
    fn from(error: MaxSizeReached) -> (r: Error) {
        Error::TooManyHeaders(error)
    }
}

impl vstd::std_specs::convert::FromSpecImpl<MaxSizeReached> for Error {
    open spec fn obeys_from_spec() -> bool {
        true
    }

    open spec fn from_spec(error: MaxSizeReached) -> Error {
        Error::TooManyHeaders(error)
    }
}

impl From<EncodeError> for Error {
    fn from(error: EncodeError) -> (r: Error) {
        Error::EncodeError(error)
    }
}

impl vstd::std_specs::convert::FromSpecImpl<EncodeError> for Error {
    open spec fn obeys_from_spec() -> bool {
        true
    }

    open spec fn from_spec(error: EncodeError) -> Error {
        Error::EncodeError(error)
    }
}

} // verus!
