//! Per-connection shared state: the peer's settings, the closing flag and the
//! terminal-error latch, read by every request stream and written by the
//! driver.
//!
//! All activity on one connection is single-threaded cooperative, so the
//! record is owned plainly here; the process-level sharing (a reference
//! counted lock) is transport plumbing that stays outside the verified core.
use vstd::prelude::*;

use crate::error::InternalConnectionError;
use crate::varint::VARINT_MAX;

verus! {

/// Settings negotiated on a control stream, in either direction.
#[derive(Clone, Copy, Debug)]
pub struct Settings {
    /// Largest field section the sender of these settings accepts.
    pub max_field_section_size: u64,
    /// Whether the sender supports WebTransport sessions.
    pub enable_webtransport: bool,
    /// Whether the sender supports HTTP/3 datagrams.
    pub enable_datagram: bool,
}

/// The settings assumed of a peer before its SETTINGS frame arrives: nothing
/// is limited and no extension is enabled.
pub open spec fn default_settings() -> Settings {
    Settings {
        max_field_section_size: (VARINT_MAX - 1) as u64,
        enable_webtransport: false,
        enable_datagram: false,
    }
}

impl Default for Settings {
    /// Before a peer's SETTINGS arrives nothing is limited and no extension
    /// is enabled.
    fn default() -> (r: Self)
        ensures
            r == default_settings(),
    {
        Settings {
            max_field_section_size: VARINT_MAX - 1,
            enable_webtransport: false,
            enable_datagram: false,
        }
    }
}

/// The record every request stream and the driver see: peer settings, the
/// terminal-error latch and the closing flag.
#[derive(Clone, Copy, Debug)]
pub struct SharedState {
    /// Peer settings, published once on the first SETTINGS frame.
    pub peer_config: Settings,
    /// Connection-wide error; once set it is never overwritten.
    pub error: Option<InternalConnectionError>,
    /// Has a GOAWAY frame been sent or received?
    pub closing: bool,
}

impl SharedState {
    /// Latches a terminal error: the first fault wins, later ones are kept
    /// out so every reader keeps seeing the same error.
    pub fn set_error(&mut self, e: InternalConnectionError)
        ensures
            final(self).error == if old(self).error is Some {
                old(self).error
            } else {
                Some(e)
            },
            final(self).peer_config == old(self).peer_config,
            final(self).closing == old(self).closing,
    {
        if self.error.is_none() {
            self.error = Some(e);
        }
    }
}

/// Handle to the shared record. The driver owns it; request streams reach it
/// through snapshots or through the error-report channel, so the verified
/// core never shares mutable access.
#[derive(Clone, Copy, Debug)]
pub struct SharedStateRef {
    /// The record itself; reached through `read` and `write`.
    pub state: SharedState,
}

impl SharedStateRef {
    /// Read access to the shared record.
    pub fn read(&self) -> (r: &SharedState)
        ensures
            r == self@,
    {
        &self.state
    }

    /// Write access to the shared record.
    pub fn write(&mut self) -> (r: &mut SharedState)
        ensures
            *r == old(self)@,
            final(self)@ == *final(r),
    {
        &mut self.state
    }

    /// The record behind the handle.
    pub open spec fn view(&self) -> SharedState {
        self.state
    }
}

impl Default for SharedStateRef {
    /// A fresh connection: default peer settings, no error, not closing.
    fn default() -> (r: Self)
        ensures
            r@.peer_config == default_settings(),
            r@.error is None,
            !r@.closing,
    {
        SharedStateRef {
            state: SharedState {
                peer_config: Settings::default(),
                error: None,
                closing: false,
            },
        }
    }
}

/// Anything that holds a connection's shared state: the driver and every
/// request stream.
pub trait ConnectionState {
    /// The shared record this value belongs to, at the specification level.
    spec fn spec_shared(&self) -> SharedState;

    /// The shared state this value belongs to.
    fn shared_state(&self) -> (r: &SharedStateRef)
        ensures
            r@ == self.spec_shared(),
    ;

    /// Replaces a local error by the connection's terminal error when one is
    /// latched: after a fatal fault every operation reports that first fault.
    fn maybe_conn_err(&self, err: InternalConnectionError) -> (r: InternalConnectionError)
        ensures
            r == match self.spec_shared().error {
                Some(e) => e,
                None => err,
            },
    {
        match &self.shared_state().read().error {
            Some(e) => *e,
            None => err,
        }
    }
}

} // verus!
