//! HTTP/3 datagrams (RFC 9297): a QUIC datagram whose payload is prefixed
//! with a varint flow identifier (a quarter stream id).
use vstd::prelude::*;

use crate::error::InternalConnectionError;
use crate::varint::{decode_varint, encode_varint, varint_at, varint_bytes, VARINT_MAX};

verus! {

/// A datagram bound to a flow: the flow id names the request stream the
/// payload belongs to.
#[derive(Clone, Debug)]
pub struct Datagram {
    /// The flow identifier (quarter stream id).
    pub flow_id: u64,
    /// The application payload.
    pub payload: Vec<u8>,
}

/// Wire form of a datagram: the flow id varint, then the payload.
pub open spec fn datagram_bytes(flow_id: u64, payload: Seq<u8>) -> Seq<u8> {
    varint_bytes(flow_id) + payload
}

impl Datagram {
    /// Builds a datagram; the flow id must be in varint range.
    pub fn new(flow_id: u64, payload: Vec<u8>) -> (r: Self)
        requires
            flow_id < VARINT_MAX,
        ensures
            r.flow_id == flow_id,
            r.payload@ == payload@,
    {
        Datagram { flow_id, payload }
    }

    /// Encodes the datagram for the transport.
    pub fn encode(&self) -> (r: Vec<u8>)
        requires
            self.flow_id < VARINT_MAX,
        ensures
            r@ == datagram_bytes(self.flow_id, self.payload@),
    {
        let mut out: Vec<u8> = Vec::new();
        encode_varint(self.flow_id, &mut out);
        let mut i: usize = 0;
        while i < self.payload.len()
            invariant
                i <= self.payload@.len(),
                out@ == varint_bytes(self.flow_id) + self.payload@.subrange(0, i as int),
            decreases self.payload@.len() - i,
        {
            out.push(self.payload[i]);
            assert(out@ =~= varint_bytes(self.flow_id) + self.payload@.subrange(0, i + 1));
            i = i + 1;
        }
        assert(out@ =~= datagram_bytes(self.flow_id, self.payload@));
        out
    }

    /// Splits a raw datagram into flow id and payload; `None` when no whole
    /// flow-id varint is present.
    pub fn decode(raw: &Vec<u8>) -> (r: Option<Datagram>)
        ensures
            match r {
                Some(d) => match varint_at(raw@, 0) {
                    Some((flow_id, next)) => d.flow_id == flow_id && d.payload@ == raw@.subrange(
                        next,
                        raw@.len() as int,
                    ),
                    None => false,
                },
                None => varint_at(raw@, 0) is None,
            },
    {
        let (flow_id, next) = match decode_varint(raw, 0) {
            Some(x) => x,
            None => {
                return None;
            },
        };
        let mut payload: Vec<u8> = Vec::new();
        let mut i: usize = next;
        while i < raw.len()
            invariant
                next <= i <= raw@.len(),
                payload@ == raw@.subrange(next as int, i as int),
            decreases raw@.len() - i,
        {
            payload.push(raw[i]);
            assert(payload@ =~= raw@.subrange(next as int, i + 1));
            i = i + 1;
        }
        Some(Datagram { flow_id, payload })
    }
}

/// A transport that can carry datagrams out; implemented by the QUIC layer
/// outside this crate (RFC 9297).
pub trait SendDatagramExt {
    /// Send a datagram.
    fn send_datagram(&mut self, data: Datagram) -> Result<(), InternalConnectionError>;
}

} // verus!
