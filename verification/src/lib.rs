//! OpenTelemetry Protocol (OTLP) span exporter.
//!
//! A pipeline ([`OtlpTracePipeline`]) is given an exporter builder and installed. The exporter that
//! it builds ([`SpanExporter`]) turns each batch of spans into what is to be sent to the collector,
//! over gRPC or HTTP.
mod error;

pub mod debug;
pub mod exporter;
pub mod laws;
pub mod outside;
pub mod span;
pub mod transform;

pub use error::{outcome, Error, ErrorView};
pub use span::{
    export_result, new_pipeline, ExportAction, OtlpPipeline, OtlpTracePipeline, SpanExporter,
    SpanExporterBuilder, SpanProcessor, TracerSetup, OTEL_EXPORTER_OTLP_TRACES_ENDPOINT,
    OTEL_EXPORTER_OTLP_TRACES_TIMEOUT, TRACER_NAME, TRACER_VERSION,
};
