//! The transports over which spans are sent, and what they have in common.
use std::time::Duration;
use vstd::prelude::*;

pub mod grpc_sys;
pub mod grpc_tonic;
pub mod http_proto;
pub mod metadata;

verus! {

/// Target to which the exporter sends signals unless another one is given.
pub const OTEL_EXPORTER_OTLP_ENDPOINT_DEFAULT: &'static str = "https://localhost:4317";

/// Seconds that the backend has to process each batch unless another time is given.
pub const OTEL_EXPORTER_OTLP_TIMEOUT_DEFAULT: u64 = 10;

/// Configuration that all transports share.
#[derive(Debug)]
pub struct ExportConfig {
    /// The address of the collector, for the gRPC core library and for HTTP. An exporter over tonic
    /// does not read it: its channel says where it sends to.
    pub endpoint: String,
    /// The time that the collector has to process a batch.
    pub timeout: Duration,
}

/// Whether no key occurs twice among configured headers.
pub open spec fn keys_distinct(headers: Option<Vec<(String, String)>>) -> bool {
    headers matches Some(list) ==> forall|i: int, j: int|
        0 <= i < j < list@.len() ==> (#[trigger] list@[i]).0@ != (#[trigger] list@[j]).0@
}

/// The duration of a number of seconds.
pub uninterp spec fn duration_from_secs(secs: u64) -> Duration;

/// `Duration::from_secs`: one duration for each number of seconds, and different ones for different
/// numbers.
pub assume_specification[ Duration::from_secs ](secs: u64) -> (r: Duration)
    ensures
        r == duration_from_secs(secs),
        forall|other: u64| #[trigger] duration_from_secs(other) == r ==> other == secs,
;

impl Default for ExportConfig {
    fn default() -> (r: ExportConfig)
        ensures
            r.endpoint@ == OTEL_EXPORTER_OTLP_ENDPOINT_DEFAULT@,
            r.timeout == duration_from_secs(OTEL_EXPORTER_OTLP_TIMEOUT_DEFAULT),
    {
        ExportConfig {
            endpoint: OTEL_EXPORTER_OTLP_ENDPOINT_DEFAULT.to_owned(),
            timeout: Duration::from_secs(OTEL_EXPORTER_OTLP_TIMEOUT_DEFAULT),
        }
    }
}

} // verus!
