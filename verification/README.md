# OTLP span exporter

A span exporter for the OpenTelemetry Protocol, written in Verus: what is sent to a collector, and
when nothing can be, is stated in contracts and proved.

- `src/span.rs` sets up a tracing pipeline, builds an exporter and makes batches ready to be sent.
- `src/exporter/` holds the transports: tonic, the gRPC core library, and protobuf over HTTP.
- `src/transform.rs` puts spans into the form of the protocol.
- `src/debug.rs` gives the debug output of an exporter.
- `src/laws.rs` states what holds of the whole.
- `src/outside.rs` declares the types of other crates that are carried through.
- `app/` is ordinary Rust around the library: the environment, the network and the SDK. Its support
  for the gRPC core library is behind the `grpc-sys` feature.
