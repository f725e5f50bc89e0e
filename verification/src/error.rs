//! Error taxonomy: the RFC 9114 error codes and the internal fault records
//! that sub-modules hand to the driver before anything is visible on the wire.
use vstd::prelude::*;

verus! {

/// HTTP/3 error code carried in RESET_STREAM, STOP_SENDING and
/// CONNECTION_CLOSE, together with the WebTransport buffered-stream
/// rejection code.
#[derive(Clone, Copy, Debug, PartialEq, Eq, Structural)]
pub enum Code {
    H3NoError,
    H3GeneralProtocolError,
    H3InternalError,
    H3StreamCreationError,
    H3ClosedCriticalStream,
    H3FrameUnexpected,
    H3FrameError,
    H3ExcessiveLoad,
    H3IdError,
    H3SettingsError,
    H3MissingSettings,
    H3RequestRejected,
    H3RequestCancelled,
    H3RequestIncomplete,
    H3MessageError,
    H3ConnectError,
    H3VersionFallback,
    H3WebTransportBufferedStreamRejected,
}

impl Code {
    /// The code's value on the wire (RFC 9114 section 8.1; WebTransport
    /// draft for the buffered-stream rejection).
    pub open spec fn spec_value(self) -> u64 {
        match self {
            Code::H3NoError => 0x100,
            Code::H3GeneralProtocolError => 0x101,
            Code::H3InternalError => 0x102,
            Code::H3StreamCreationError => 0x103,
            Code::H3ClosedCriticalStream => 0x104,
            Code::H3FrameUnexpected => 0x105,
            Code::H3FrameError => 0x106,
            Code::H3ExcessiveLoad => 0x107,
            Code::H3IdError => 0x108,
            Code::H3SettingsError => 0x109,
            Code::H3MissingSettings => 0x10a,
            Code::H3RequestRejected => 0x10b,
            Code::H3RequestCancelled => 0x10c,
            Code::H3RequestIncomplete => 0x10d,
            Code::H3MessageError => 0x10e,
            Code::H3ConnectError => 0x10f,
            Code::H3VersionFallback => 0x110,
            Code::H3WebTransportBufferedStreamRejected => 0x3994bd84,
        }
    }

    /// The code's value on the wire.
    pub fn value(&self) -> (v: u64)
        ensures
            v == self.spec_value(),
    {
        match self {
            Code::H3NoError => 0x100,
            Code::H3GeneralProtocolError => 0x101,
            Code::H3InternalError => 0x102,
            Code::H3StreamCreationError => 0x103,
            Code::H3ClosedCriticalStream => 0x104,
            Code::H3FrameUnexpected => 0x105,
            Code::H3FrameError => 0x106,
            Code::H3ExcessiveLoad => 0x107,
            Code::H3IdError => 0x108,
            Code::H3SettingsError => 0x109,
            Code::H3MissingSettings => 0x10a,
            Code::H3RequestRejected => 0x10b,
            Code::H3RequestCancelled => 0x10c,
            Code::H3RequestIncomplete => 0x10d,
            Code::H3MessageError => 0x10e,
            Code::H3ConnectError => 0x10f,
            Code::H3VersionFallback => 0x110,
            Code::H3WebTransportBufferedStreamRejected => 0x3994bd84,
        }
    }
}

/// Whether an error affects the whole connection or a single stream.
#[derive(Clone, Copy, Debug, PartialEq, Eq, Structural)]
pub enum ErrorScope {
    /// The error affects the connection.
    Connection,
    /// The error affects the stream.
    Stream,
}

/// A connection-level fault that has not yet touched the connection state:
/// plain data until the driver latches it and closes the transport.
#[derive(Clone, Copy, Debug)]
pub struct InternalConnectionError {
    /// The error code.
    pub code: Code,
    /// The error message.
    pub message: &'static str,
}

impl InternalConnectionError {
    /// Create a new internal connection error.
    pub fn new(code: Code, message: &'static str) -> (r: Self)
        ensures
            r.code == code,
            r.message == message,
    {
        Self { code, message }
    }
}

/// A fault observed on a request stream, still plain data; its scope says
/// whether the driver must treat it as a connection error.
#[derive(Clone, Copy, Debug)]
pub struct InternalRequestStreamError {
    /// The error scope.
    pub scope: ErrorScope,
    /// The error code.
    pub code: Code,
    /// The error message.
    pub message: &'static str,
}

impl InternalRequestStreamError {
    /// Create a new internal request stream error.
    pub fn new(scope: ErrorScope, code: Code, message: &'static str) -> (r: Self)
        ensures
            r.scope == scope,
            r.code == code,
            r.message == message,
    {
        Self { scope, code, message }
    }
}

} // verus!
