//! Sending spans with tonic as the gRPC layer.
use std::str::FromStr;
use std::time::Duration;
use tonic::metadata::MetadataMap;
use tonic::transport::{ClientTlsConfig, Endpoint};
use vstd::prelude::*;

use crate::exporter::{
    duration_from_secs, ExportConfig, OTEL_EXPORTER_OTLP_ENDPOINT_DEFAULT,
    OTEL_EXPORTER_OTLP_TIMEOUT_DEFAULT,
};
use crate::{outcome, Error, ErrorView};
use http::uri::InvalidUri;

verus! {

/// The transport channel of an exporter.
#[derive(Clone)]
pub struct Channel<T>(pub T);

impl<T> Channel<T> {
    /// What a channel shows of itself in debug output: its name, and nothing of the transport.
    pub fn debug_string(&self) -> (r: String)
        ensures
            r@ == "Channel"@,
    {
        "Channel".to_owned()
    }
}

/// The channel that a builder has for its exporter.
pub enum ChannelChoice<T> {
    /// The channel to the collector endpoint, or why there is none. The TLS settings of the builder
    /// apply to it.
    Collector(Result<Channel<Endpoint>, Error>),
    /// A custom channel, which is used as it is.
    Custom(Channel<T>),
}

/// The channel over which an exporter sends.
pub enum ExporterChannel<T> {
    /// A channel to the collector endpoint, all of whose settings are made; it is not connected yet.
    Collector(Endpoint),
    /// A custom channel.
    Custom(T),
}

impl<T> ChannelChoice<T> {
    /// The channel for an exporter under the given TLS settings. They apply to the channel to the
    /// collector endpoint, and without any it is taken as it is. A custom channel overrides them.
    pub open spec fn under_tls(self, tls_config: Option<ClientTlsConfig>) -> Result<
        ExporterChannel<T>,
        ErrorView,
    > {
        match self {
            ChannelChoice::Custom(channel) => Ok(ExporterChannel::Custom(channel.0)),
            ChannelChoice::Collector(Err(error)) => Err(error@),
            ChannelChoice::Collector(Ok(channel)) => match tls_config {
                None => Ok(ExporterChannel::Collector(channel.0)),
                Some(tls_config) => match endpoint_with_tls(channel.0, tls_config) {
                    Ok(endpoint) => Ok(ExporterChannel::Collector(endpoint)),
                    Err(reason) => Err(ErrorView::Transport(reason)),
                },
            },
        }
    }

    /// Makes the channel ready for an exporter: the TLS settings are applied to the channel to the
    /// collector endpoint. A custom channel overrides them.
    pub fn with_tls(self, tls_config: Option<ClientTlsConfig>) -> (r: Result<
        ExporterChannel<T>,
        Error,
    >)
        ensures
            outcome(r) == self.under_tls(tls_config),
    {
        match self {
            ChannelChoice::Custom(channel) => Ok(ExporterChannel::Custom(channel.0)),
            ChannelChoice::Collector(Err(error)) => Err(error),
            ChannelChoice::Collector(Ok(channel)) => match tls_config {
                None => Ok(ExporterChannel::Collector(channel.0)),
                Some(tls_config) => secured_channel(endpoint_tls_config(channel.0, tls_config)),
            },
        }
    }
}

/// The channel for an exporter, given what applying TLS settings to the endpoint came to.
pub fn secured_channel<T>(applied: Result<Endpoint, String>) -> (r: Result<
    ExporterChannel<T>,
    Error,
>)
    ensures
        match applied {
            Ok(endpoint) => r == Ok::<ExporterChannel<T>, Error>(
                ExporterChannel::Collector(endpoint),
            ),
            Err(reason) => r == Err::<ExporterChannel<T>, Error>(Error::Transport(reason)),
        },
{
    match applied {
        Ok(endpoint) => Ok(ExporterChannel::Collector(endpoint)),
        Err(reason) => Err(Error::Transport(reason)),
    }
}

/// Configuration for tonic.
#[derive(Debug)]
pub struct TonicConfig {
    /// Custom metadata entries to send to the collector.
    pub metadata: Option<MetadataMap>,
    /// TLS settings for the collector endpoint. A custom channel overrides them.
    pub tls_config: Option<ClientTlsConfig>,
}

impl Default for TonicConfig {
    fn default() -> (r: TonicConfig)
        ensures
            r.metadata is None,
            r.tls_config is None,
    {
        TonicConfig { metadata: None, tls_config: None }
    }
}

/// Builds a trace exporter that uses tonic as gRPC layer.
///
/// It allows users to
/// - add additional metadata
/// - set the TLS configuration
/// - bring a custom channel
pub struct TonicExporterBuilder<T> {
    /// The configuration that all transports share.
    pub exporter_config: ExportConfig,
    /// The configuration of tonic.
    pub tonic_config: TonicConfig,
    /// The channel to the collector endpoint, or a custom one.
    pub channel: ChannelChoice<T>,
}

impl<T> TonicExporterBuilder<T> {
    /// A builder with the default configuration, over the channel to the collector endpoint (see
    /// [`default_channel`]).
    pub fn with_default_config(channel: Result<Channel<Endpoint>, Error>) -> (r: Self)
        ensures
            r.exporter_config.endpoint@ == OTEL_EXPORTER_OTLP_ENDPOINT_DEFAULT@,
            r.exporter_config.timeout == duration_from_secs(OTEL_EXPORTER_OTLP_TIMEOUT_DEFAULT),
            r.tonic_config.metadata is None,
            r.tonic_config.tls_config is None,
            r.channel == ChannelChoice::<T>::Collector(channel),
    {
        TonicExporterBuilder {
            exporter_config: ExportConfig::default(),
            tonic_config: TonicConfig::default(),
            channel: ChannelChoice::Collector(channel),
        }
    }

    /// Sets the TLS settings for the collector endpoint. They apply when the exporter is built, unless
    /// it is built over a custom channel.
    pub fn with_tls_config(self, tls_config: ClientTlsConfig) -> (r: Self)
        ensures
            r == self.setting_tls_config(tls_config),
    {
        let mut builder = self;
        builder.tonic_config.tls_config = Some(tls_config);
        builder
    }

    /// The builder with these TLS settings in place of its own.
    pub open spec fn setting_tls_config(self, tls_config: ClientTlsConfig) -> Self {
        TonicExporterBuilder {
            exporter_config: self.exporter_config,
            tonic_config: TonicConfig {
                metadata: self.tonic_config.metadata,
                tls_config: Some(tls_config),
            },
            channel: self.channel,
        }
    }

    /// Sets custom metadata entries to send to the collector.
    pub fn with_metadata(self, metadata: MetadataMap) -> (r: Self)
        ensures
            r == self.setting_metadata(metadata),
    {
        let mut builder = self;
        builder.tonic_config.metadata = Some(metadata);
        builder
    }

    /// The builder with these metadata entries in place of its own.
    pub open spec fn setting_metadata(self, metadata: MetadataMap) -> Self {
        TonicExporterBuilder {
            exporter_config: self.exporter_config,
            tonic_config: TonicConfig {
                metadata: Some(metadata),
                tls_config: self.tonic_config.tls_config,
            },
            channel: self.channel,
        }
    }

    /// Uses `channel` as transport channel, whatever the builder had, be it an error.
    /// This overrides the TLS configuration and should only be used when working with non-HTTP
    /// transports.
    ///
    /// Users must make sure that the timeout of the exporter's configuration is the same as the
    /// channel's timeout.
    pub fn with_channel<C>(self, channel: Channel<C>) -> (r: TonicExporterBuilder<C>)
        ensures
            r == self.setting_channel(channel),
    {
        TonicExporterBuilder {
            exporter_config: self.exporter_config,
            tonic_config: self.tonic_config,
            channel: ChannelChoice::Custom(channel),
        }
    }

    /// The builder with this channel in place of its own.
    pub open spec fn setting_channel<C>(self, channel: Channel<C>) -> TonicExporterBuilder<C> {
        TonicExporterBuilder {
            exporter_config: self.exporter_config,
            tonic_config: self.tonic_config,
            channel: ChannelChoice::Custom(channel),
        }
    }
}

/// The path under which the collector takes spans.
pub const TRACES_PATH: &'static str = "/v1/traces";

/// The number that a text of decimal digits stands for.
pub open spec fn digits_value(digits: Seq<char>) -> nat
    decreases digits.len(),
{
    if digits.len() == 0 {
        0
    } else {
        10 * digits_value(digits.drop_last()) + (digits.last() as nat - '0' as nat) as nat
    }
}

/// A text without the plus sign with which it may begin.
pub open spec fn without_plus(text: Seq<char>) -> Seq<char> {
    if text.len() > 0 && text[0] == '+' {
        text.drop_first()
    } else {
        text
    }
}

/// Whether a text consists of decimal digits, at least one.
pub open spec fn is_digits(text: Seq<char>) -> bool {
    text.len() > 0 && forall|i: int| 0 <= i < text.len() ==> '0' <= #[trigger] text[i] <= '9'
}

/// The number that a text stands for, if it is one and fits in 64 bits: decimal digits, at least
/// one, after a plus sign or none.
pub open spec fn parsed_u64(text: Seq<char>) -> Option<u64> {
    if is_digits(without_plus(text)) && digits_value(without_plus(text)) <= u64::MAX {
        Some(digits_value(without_plus(text)) as u64)
    } else {
        None
    }
}

/// `u64::from_str`: the number that the text stands for, if it is one and fits; any error is `None`.
#[verifier::external_body]
fn u64_from_str(text: &str) -> (r: Option<u64>)
    ensures
        r == parsed_u64(text@),
{
    u64::from_str(text).ok()
}

/// What `Channel::from_shared` makes of a text: an endpoint at that URI, or why it is not a URI.
pub uninterp spec fn endpoint_from_shared(text: Seq<char>) -> Result<Endpoint, InvalidUri>;

/// `tonic::transport::Channel::from_shared`: whether the text is a URI, and which endpoint it gives,
/// depends on the text alone.
#[verifier::external_body]
fn channel_from_shared(text: String) -> (r: Result<Endpoint, InvalidUri>)
    ensures
        r == endpoint_from_shared(text@),
{
    tonic::transport::Channel::from_shared(text)
}

/// What `Endpoint::timeout` returns: the endpoint, each request over it being given this time.
pub uninterp spec fn endpoint_with_timeout(endpoint: Endpoint, timeout: Duration) -> Endpoint;

/// `tonic::transport::Endpoint::timeout`: the endpoint that results depends on the given one and on
/// the time alone.
#[verifier::external_body]
fn endpoint_timeout(endpoint: Endpoint, timeout: Duration) -> (r: Endpoint)
    ensures
        r == endpoint_with_timeout(endpoint, timeout),
{
    endpoint.timeout(timeout)
}

/// What `Endpoint::tls_config` returns: the endpoint, connections to it being protected by these
/// settings, or why they cannot be.
pub uninterp spec fn endpoint_with_tls(endpoint: Endpoint, tls_config: ClientTlsConfig) -> Result<
    Endpoint,
    Seq<char>,
>;

/// `tonic::transport::Endpoint::tls_config`: whether the settings can be used, and the endpoint that
/// results, depends on the given endpoint and on the settings alone, since tonic is used without its
/// feature that reads the certificates of the machine. The error is given as its debug text, which
/// tells the cause.
#[verifier::external_body]
fn endpoint_tls_config(endpoint: Endpoint, tls_config: ClientTlsConfig) -> (r: Result<
    Endpoint,
    String,
>)
    ensures
        match r {
            Ok(secured) => endpoint_with_tls(endpoint, tls_config) == Ok::<Endpoint, Seq<char>>(
                secured,
            ),
            Err(reason) => endpoint_with_tls(endpoint, tls_config) == Err::<Endpoint, Seq<char>>(
                reason@,
            ),
        },
{
    endpoint.tls_config(tls_config).map_err(|error| format!("{:?}", error))
}

/// Where spans are sent: to the endpoint given for them, taken as it is, or else to the traces path
/// under the base address.
pub open spec fn traces_endpoint_text(given: Option<String>, base: Seq<char>) -> Seq<char> {
    match given {
        Some(endpoint) => endpoint@,
        None => base + TRACES_PATH@,
    }
}

/// Where spans are sent, given the value of the variable for it and the base address.
pub fn traces_endpoint(given: Option<String>, base: &str) -> (r: String)
    ensures
        r@ == traces_endpoint_text(given, base@),
{
    match given {
        Some(endpoint) => endpoint,
        None => {
            let mut endpoint = base.to_owned();
            endpoint.append(TRACES_PATH);
            endpoint
        },
    }
}

/// How long the backend may take for a batch: the seconds given for it, or else, if none are given
/// or they are not a number, the configured time.
pub open spec fn traces_timeout_of(given: Option<String>, configured: Duration) -> Duration {
    match given {
        Some(text) => match parsed_u64(text@) {
            Some(seconds) => duration_from_secs(seconds),
            None => configured,
        },
        None => configured,
    }
}

/// How long the backend may take for a batch, given the value of the variable for it.
pub fn traces_timeout(given: Option<String>, configured: Duration) -> (r: Duration)
    ensures
        r == traces_timeout_of(given, configured),
{
    match given {
        Some(text) => match u64_from_str(text.as_str()) {
            Some(seconds) => Duration::from_secs(seconds),
            None => configured,
        },
        None => configured,
    }
}

/// The channel of an endpoint with a timeout, if its text is a URI.
pub open spec fn channel_at(
    parsed: Result<Endpoint, InvalidUri>,
    timeout: Duration,
) -> Result<Channel<Endpoint>, Error> {
    match parsed {
        Ok(endpoint) => Ok(Channel(endpoint_with_timeout(endpoint, timeout))),
        Err(error) => Err(Error::InvalidUri(error)),
    }
}

/// The channel of an endpoint with a timeout, if its text is a URI.
pub fn channel_with_timeout(parsed: Result<Endpoint, InvalidUri>, timeout: Duration) -> (r: Result<
    Channel<Endpoint>,
    Error,
>)
    ensures
        r == channel_at(parsed, timeout),
{
    match parsed {
        Ok(endpoint) => Ok(Channel(endpoint_timeout(endpoint, timeout))),
        Err(error) => Err(Error::from(error)),
    }
}

/// The channel over which spans are sent unless a custom one is given, not connected yet and without
/// TLS settings: those of a builder are applied when the exporter is built.
///
/// `endpoint_var` and `timeout_var` are the values of the variables
/// [`OTEL_EXPORTER_OTLP_TRACES_ENDPOINT`](crate::OTEL_EXPORTER_OTLP_TRACES_ENDPOINT) and
/// [`OTEL_EXPORTER_OTLP_TRACES_TIMEOUT`](crate::OTEL_EXPORTER_OTLP_TRACES_TIMEOUT), where they are
/// set.
pub fn default_channel(endpoint_var: Option<String>, timeout_var: Option<String>) -> (r: Result<
    Channel<Endpoint>,
    Error,
>)
    ensures
        r == channel_at(
            endpoint_from_shared(
                traces_endpoint_text(endpoint_var, OTEL_EXPORTER_OTLP_ENDPOINT_DEFAULT@),
            ),
            traces_timeout_of(
                timeout_var,
                duration_from_secs(OTEL_EXPORTER_OTLP_TIMEOUT_DEFAULT),
            ),
        ),
{
    let export_config = ExportConfig::default();
    let endpoint_str = traces_endpoint(endpoint_var, export_config.endpoint.as_str());
    let endpoint = channel_from_shared(endpoint_str);
    let timeout = traces_timeout(timeout_var, export_config.timeout);
    channel_with_timeout(endpoint, timeout)
}

} // verus!
