//! Classification of inbound unidirectional streams (RFC 9114 section 6.2):
//! each begins with a stream-type varint, possibly followed by a second
//! varint (push id, WebTransport session id), and is then bound to a role.
use vstd::prelude::*;

use crate::varint::{decode_varint, varint_at};

verus! {

/// Stream type of the control stream.
pub const STREAM_TYPE_CONTROL: u64 = 0x00;

/// Stream type of a push stream.
pub const STREAM_TYPE_PUSH: u64 = 0x01;

/// Stream type of the QPACK encoder stream.
pub const STREAM_TYPE_ENCODER: u64 = 0x02;

/// Stream type of the QPACK decoder stream.
pub const STREAM_TYPE_DECODER: u64 = 0x03;

/// Stream type of a WebTransport unidirectional stream (draft).
pub const STREAM_TYPE_WEBTRANSPORT_UNI: u64 = 0x54;

/// The role an inbound unidirectional stream resolves to once its header is
/// complete.
#[derive(Clone, Copy, Debug, PartialEq, Eq, Structural)]
pub enum ResolvedStreamType {
    /// The peer's control stream.
    Control,
    /// A push stream carrying this push id.
    Push { push_id: u64 },
    /// The peer's QPACK encoder stream.
    Encoder,
    /// The peer's QPACK decoder stream.
    Decoder,
    /// A WebTransport stream awaiting this session.
    WebTransportUni { session_id: u64 },
    /// Any other stream type: to be refused without harm to the connection.
    Unknown { stream_type: u64 },
}

/// The header resolution at the front of `buf`: the role and the number of
/// header bytes consumed, or `None` while the header is still incomplete.
pub open spec fn spec_resolve_uni_header(buf: Seq<u8>) -> Option<(ResolvedStreamType, int)> {
    match varint_at(buf, 0) {
        None => None,
        Some((t, p1)) => if t == STREAM_TYPE_CONTROL {
            Some((ResolvedStreamType::Control, p1))
        } else if t == STREAM_TYPE_ENCODER {
            Some((ResolvedStreamType::Encoder, p1))
        } else if t == STREAM_TYPE_DECODER {
            Some((ResolvedStreamType::Decoder, p1))
        } else if t == STREAM_TYPE_PUSH {
            match varint_at(buf, p1) {
                None => None,
                Some((push_id, p2)) => Some((ResolvedStreamType::Push { push_id }, p2)),
            }
        } else if t == STREAM_TYPE_WEBTRANSPORT_UNI {
            match varint_at(buf, p1) {
                None => None,
                Some((session_id, p2)) => Some((
                    ResolvedStreamType::WebTransportUni { session_id },
                    p2,
                )),
            }
        } else {
            Some((ResolvedStreamType::Unknown { stream_type: t }, p1))
        },
    }
}

/// Reads the stream header at the front of `buf`; `None` asks for more
/// bytes. A stream that closes before its header completes is simply
/// discarded by the caller (RFC 9114 section 6.2 tolerance rule).
pub fn resolve_uni_header(buf: &Vec<u8>) -> (r: Option<(ResolvedStreamType, usize)>)
    ensures
        match r {
            Some((rt, used)) => spec_resolve_uni_header(buf@) == Some((rt, used as int)),
            None => spec_resolve_uni_header(buf@) is None,
        },
{
    let (t, p1) = match decode_varint(buf, 0) {
        Some(x) => x,
        None => {
            return None;
        },
    };
    if t == STREAM_TYPE_CONTROL {
        Some((ResolvedStreamType::Control, p1))
    } else if t == STREAM_TYPE_ENCODER {
        Some((ResolvedStreamType::Encoder, p1))
    } else if t == STREAM_TYPE_DECODER {
        Some((ResolvedStreamType::Decoder, p1))
    } else if t == STREAM_TYPE_PUSH {
        match decode_varint(buf, p1) {
            Some((push_id, p2)) => Some((ResolvedStreamType::Push { push_id }, p2)),
            None => None,
        }
    } else if t == STREAM_TYPE_WEBTRANSPORT_UNI {
        match decode_varint(buf, p1) {
            Some((session_id, p2)) => Some((ResolvedStreamType::WebTransportUni { session_id }, p2)),
            None => None,
        }
    } else {
        Some((ResolvedStreamType::Unknown { stream_type: t }, p1))
    }
}

} // verus!
