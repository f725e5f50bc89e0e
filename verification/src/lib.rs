//! HTTP/3 endpoint core: the connection driver state machine, the varint and
//! frame codec, the unidirectional stream classifier, per-request stream
//! sequencing, and the shared connection state with its terminal-error latch.
//!
//! The QUIC transport itself is asynchronous and lives outside this crate; the
//! driver here is the decision core: it consumes transport events as plain
//! values and yields the actions the transport must perform.
pub mod bytebuf;
pub mod conn;
pub mod datagram;
pub mod error;
pub mod frame;
pub mod report;
pub mod request;
pub mod shared;
pub mod stream_type;
pub mod varint;
