//! The kinds of events a task streams while it runs.

use vstd::prelude::*;

verus! {

/// The kind of a stream event.
#[derive(Debug, Clone, Copy, PartialEq, Eq, Structural)]
pub enum StreamEventType {
    /// A token or text chunk.
    Token,
    /// A progress update.
    Progress,
    /// Arbitrary structured data.
    Data,
    /// An error notification.
    Error,
}

/// The name of a stream event kind on the wire.
pub open spec fn stream_event_type_name(t: StreamEventType) -> Seq<char> {
    match t {
        StreamEventType::Token => "token"@,
        StreamEventType::Progress => "progress"@,
        StreamEventType::Data => "data"@,
        StreamEventType::Error => "error"@,
    }
}

impl StreamEventType {
    /// The name of the kind on the wire.
    pub fn as_str(&self) -> (r: &'static str)
        ensures
            r@ == stream_event_type_name(*self),
    {
        match self {
            StreamEventType::Token => "token",
            StreamEventType::Progress => "progress",
            StreamEventType::Data => "data",
            StreamEventType::Error => "error",
        }
    }
}

/// The error of a streaming operation.
#[derive(Debug)]
pub enum StreamError {
    /// The connection was closed.
    ConnectionClosed,
    /// The stream operation timed out.
    Timeout,
    /// The stream data could not be parsed.
    ParseError(String),
    /// An HTTP request failed.
    HttpError(String),
    /// A gRPC request failed; holds the status text.
    GrpcError(String),
    /// Serialization failed; holds the error text.
    SerializationError(String),
}

/// The message of a stream error.
pub open spec fn stream_error_message(e: StreamError) -> Seq<char> {
    match e {
        StreamError::ConnectionClosed => "Connection closed"@,
        StreamError::Timeout => "Stream timeout"@,
        StreamError::ParseError(s) => "Parse error: "@ + s@,
        StreamError::HttpError(s) => "HTTP error: "@ + s@,
        StreamError::GrpcError(s) => "gRPC error: "@ + s@,
        StreamError::SerializationError(s) => "Serialization error: "@ + s@,
    }
}

impl StreamError {
    /// The error's message.
    pub fn to_string(&self) -> (r: String)
        ensures
            r@ == stream_error_message(*self),
    {
        match self {
            StreamError::ConnectionClosed => String::from_str("Connection closed"),
            StreamError::Timeout => String::from_str("Stream timeout"),
            StreamError::ParseError(s) => String::from_str("Parse error: ").concat(s.as_str()),
            StreamError::HttpError(s) => String::from_str("HTTP error: ").concat(s.as_str()),
            StreamError::GrpcError(s) => String::from_str("gRPC error: ").concat(s.as_str()),
            StreamError::SerializationError(s) => String::from_str("Serialization error: ").concat(
                s.as_str(),
            ),
        }
    }
}

} // verus!
