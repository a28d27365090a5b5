//! The two kinds of failure: a configuration that is refused when a task is
//! built, and an export attempt that fails while the loop runs.

use vstd::prelude::*;

verus! {

/// Why a configuration was refused. No task exists after any of these.
#[derive(Clone, Debug, PartialEq, Eq)]
pub enum InvalidConfig {
    /// Export is enabled and the write interval is zero.
    ZeroWriteInterval,
    /// Export is enabled and the target database name is empty.
    EmptyDb,
    /// A configured header name is not a legal header name.
    HeaderName(String),
    /// A configured header value is not a legal header value.
    HeaderValue(String),
    /// The header map refused to take another name.
    TooManyHeaders,
    /// No endpoint is configured and the process serves no address of its own.
    MissingEndpoint,
}

/// The mathematical form of an [`InvalidConfig`].
pub enum ConfigFault {
    ZeroWriteInterval,
    EmptyDb,
    HeaderName(Seq<char>),
    HeaderValue(Seq<char>),
    TooManyHeaders,
    MissingEndpoint,
}

impl View for InvalidConfig {
    type V = ConfigFault;

    open spec fn view(&self) -> ConfigFault {
        match self {
            InvalidConfig::ZeroWriteInterval => ConfigFault::ZeroWriteInterval,
            InvalidConfig::EmptyDb => ConfigFault::EmptyDb,
            InvalidConfig::HeaderName(name) => ConfigFault::HeaderName(name@),
            InvalidConfig::HeaderValue(value) => ConfigFault::HeaderValue(value@),
            InvalidConfig::TooManyHeaders => ConfigFault::TooManyHeaders,
            InvalidConfig::MissingEndpoint => ConfigFault::MissingEndpoint,
        }
    }
}

/// The sentence that reports a fault to an operator.
pub open spec fn fault_message(fault: ConfigFault) -> Seq<char> {
    match fault {
        ConfigFault::ZeroWriteInterval => "Expected export metrics write_interval greater than zero"@,
        ConfigFault::EmptyDb => "Expected export metrics db not empty"@,
        ConfigFault::HeaderName(name) => "Export metrics: invalid HTTP header name: "@ + name,
        ConfigFault::HeaderValue(value) => "Export metrics: invalid HTTP header value: "@ + value,
        ConfigFault::TooManyHeaders => "Export metrics: too many HTTP headers"@,
        ConfigFault::MissingEndpoint => "Export metrics: Missing `export_metrics.endpoint`. only `standalone` and `frontend` can omit it"@,
    }
}

impl InvalidConfig {
    /// The sentence that reports this fault, with the offending header name
    /// or value at its end where there is one.
    pub fn message(&self) -> (text: String)
        ensures
            text@ == fault_message(self@),
    {
        match self {
            InvalidConfig::ZeroWriteInterval => String::from_str(
                "Expected export metrics write_interval greater than zero",
            ),
            InvalidConfig::EmptyDb => String::from_str("Expected export metrics db not empty"),
            InvalidConfig::HeaderName(name) => String::from_str(
                "Export metrics: invalid HTTP header name: ",
            ).concat(name.as_str()),
            InvalidConfig::HeaderValue(value) => String::from_str(
                "Export metrics: invalid HTTP header value: ",
            ).concat(value.as_str()),
            InvalidConfig::TooManyHeaders => String::from_str(
                "Export metrics: too many HTTP headers",
            ),
            InvalidConfig::MissingEndpoint => String::from_str(
                "Export metrics: Missing `export_metrics.endpoint`. only `standalone` and `frontend` can omit it",
            ),
        }
    }
}

/// Why one export attempt failed. The loop reports it and goes on.
#[derive(Clone, Debug, PartialEq, Eq)]
pub enum DeliveryFailure {
    /// The batch could not be encoded.
    Encoding(String),
    /// The encoded batch is too large to be compressed.
    Compression,
    /// The request's header map refused a protocol header.
    Headers,
    /// The request did not reach the endpoint, or no response came back.
    Transport(String),
    /// The endpoint answered with a status outside 200..=299.
    Status(u16),
    /// The in-process handler reported an error.
    Handler(String),
}

/// The mathematical form of a [`DeliveryFailure`].
pub enum DeliveryFault {
    Encoding(Seq<char>),
    Compression,
    Headers,
    Transport(Seq<char>),
    Status(u16),
    Handler(Seq<char>),
}

impl View for DeliveryFailure {
    type V = DeliveryFault;

    open spec fn view(&self) -> DeliveryFault {
        match self {
            DeliveryFailure::Encoding(text) => DeliveryFault::Encoding(text@),
            DeliveryFailure::Compression => DeliveryFault::Compression,
            DeliveryFailure::Headers => DeliveryFault::Headers,
            DeliveryFailure::Transport(text) => DeliveryFault::Transport(text@),
            DeliveryFailure::Status(code) => DeliveryFault::Status(*code),
            DeliveryFailure::Handler(text) => DeliveryFault::Handler(text@),
        }
    }
}

} // verus!
