//! Sending spans through the gRPC core library: which channel to open, and how.
use vstd::prelude::*;

use crate::exporter::{keys_distinct, ExportConfig};

verus! {

/// The client's certificate and its private key, in PEM.
#[derive(Debug)]
pub struct Credentials {
    /// The certificate chain.
    pub cert: String,
    /// The private key.
    pub key: String,
}

/// How messages are compressed.
#[derive(Clone, Copy, Debug, PartialEq, Eq, Structural)]
pub enum Compression {
    /// With gzip.
    Gzip,
}

/// Configuration of the gRPC core library.
#[derive(Debug)]
pub struct GrpcioConfig {
    /// The credentials to use when communicating with the server.
    pub credentials: Option<Credentials>,
    /// Additional headers to send to the server, no key twice.
    pub headers: Option<Vec<(String, String)>>,
    /// The compression algorithm to use when communicating with the server.
    pub compression: Option<Compression>,
    /// Use TLS without any specific certificate pinning.
    pub use_tls: Option<bool>,
    /// The number of queues that will be used to receive completions.
    pub completion_queue_count: usize,
}

impl GrpcioConfig {
    /// Whether no header key occurs twice.
    pub open spec fn well_formed(self) -> bool {
        keys_distinct(self.headers)
    }
}

/// Builds a span exporter that uses the gRPC core library.
#[derive(Debug)]
pub struct GrpcioExporterBuilder {
    /// The configuration that all transports share.
    pub exporter_config: ExportConfig,
    /// The configuration of the gRPC core library.
    pub grpcio_config: GrpcioConfig,
}

/// How a channel is protected.
#[derive(Debug)]
pub enum ChannelSecurity {
    /// It is not.
    Insecure,
    /// With TLS, the client staying anonymous.
    Tls,
    /// With TLS, the client showing its certificate.
    TlsWithCredentials(Credentials),
}

/// The channel to open to the collector.
#[derive(Debug)]
pub struct GrpcioChannel {
    /// The collector's address.
    pub endpoint: String,
    /// The number of queues that receive completions.
    pub completion_queue_count: usize,
    /// The compression of messages, if they are compressed.
    pub compression: Option<Compression>,
    /// How the channel is protected.
    pub security: ChannelSecurity,
}

/// How a channel is protected: with the credentials if there are any, whatever `use_tls` says, and
/// without credentials only if TLS is asked for.
pub open spec fn channel_security(
    credentials: Option<Credentials>,
    use_tls: Option<bool>,
) -> ChannelSecurity {
    match credentials {
        Some(credentials) => ChannelSecurity::TlsWithCredentials(credentials),
        None => if use_tls == Some(true) {
            ChannelSecurity::Tls
        } else {
            ChannelSecurity::Insecure
        },
    }
}

/// The channel that a configuration asks for.
pub open spec fn channel_for(
    endpoint: String,
    completion_queue_count: usize,
    compression: Option<Compression>,
    credentials: Option<Credentials>,
    use_tls: Option<bool>,
) -> GrpcioChannel {
    GrpcioChannel {
        endpoint,
        completion_queue_count,
        compression,
        security: channel_security(credentials, use_tls),
    }
}

impl GrpcioChannel {
    /// The channel that a configuration asks for.
    pub fn new(
        endpoint: String,
        completion_queue_count: usize,
        compression: Option<Compression>,
        credentials: Option<Credentials>,
        use_tls: Option<bool>,
    ) -> (r: GrpcioChannel)
        ensures
            r == channel_for(endpoint, completion_queue_count, compression, credentials, use_tls),
    {
        let security = match (credentials, use_tls) {
            (None, Some(true)) => ChannelSecurity::Tls,
            (None, _) => ChannelSecurity::Insecure,
            (Some(credentials), _) => ChannelSecurity::TlsWithCredentials(credentials),
        };
        GrpcioChannel { endpoint, completion_queue_count, compression, security }
    }
}

} // verus!
