//! QUIC variable-length integer codec (RFC 9000 section 16), as used by every
//! HTTP/3 frame header, stream-type prefix and identifier on the wire.
//!
//! A varint carries a value below `2^62`. The two top bits of the first byte
//! give the total length (1, 2, 4 or 8 bytes); the remaining bits hold the
//! value in network byte order.
use vstd::prelude::*;

verus! {

/// Exclusive upper bound of the varint value range: `2^62`.
pub const VARINT_MAX: u64 = 0x4000_0000_0000_0000;

/// Number of bytes of the canonical encoding of `v`.
pub open spec fn varint_len(v: u64) -> int {
    if v < 64 {
        1
    } else if v < 16384 {
        2
    } else if v < 0x4000_0000 {
        4
    } else {
        8
    }
}

/// The canonical encoding of `v` as a byte sequence.
pub open spec fn varint_bytes(v: u64) -> Seq<u8> {
    if v < 64 {
        seq![v as u8]
    } else if v < 16384 {
        seq![(64 + v / 0x100) as u8, (v % 0x100) as u8]
    } else if v < 0x4000_0000 {
        seq![
            (128 + v / 0x100_0000) as u8,
            ((v / 0x1_0000) % 0x100) as u8,
            ((v / 0x100) % 0x100) as u8,
            (v % 0x100) as u8,
        ]
    } else {
        seq![
            (192 + v / 0x100_0000_0000_0000) as u8,
            ((v / 0x1_0000_0000_0000) % 0x100) as u8,
            ((v / 0x100_0000_0000) % 0x100) as u8,
            ((v / 0x1_0000_0000) % 0x100) as u8,
            ((v / 0x100_0000) % 0x100) as u8,
            ((v / 0x1_0000) % 0x100) as u8,
            ((v / 0x100) % 0x100) as u8,
            (v % 0x100) as u8,
        ]
    }
}

/// Length of the varint that starts with first byte `b`: decided by the two
/// top bits alone, so a reader knows how much to buffer after one byte.
pub open spec fn varint_len_of_first(b: u8) -> int {
    if b < 64 {
        1
    } else if b < 128 {
        2
    } else if b < 192 {
        4
    } else {
        8
    }
}

/// Value carried by the complete varint `bytes` (canonical or not).
pub open spec fn varint_value(bytes: Seq<u8>) -> u64
    recommends
        bytes.len() == varint_len_of_first(bytes[0]),
{
    let lead = (bytes[0] % 64) as u64;
    if bytes[0] < 64 {
        lead
    } else if bytes[0] < 128 {
        (lead * 0x100 + bytes[1] as u64) as u64
    } else if bytes[0] < 192 {
        (lead * 0x100_0000 + bytes[1] as u64 * 0x1_0000 + bytes[2] as u64 * 0x100
            + bytes[3] as u64) as u64
    } else {
        (lead * 0x100_0000_0000_0000 + bytes[1] as u64 * 0x1_0000_0000_0000
            + bytes[2] as u64 * 0x100_0000_0000 + bytes[3] as u64 * 0x1_0000_0000
            + bytes[4] as u64 * 0x100_0000 + bytes[5] as u64 * 0x1_0000
            + bytes[6] as u64 * 0x100 + bytes[7] as u64) as u64
    }
}

/// Result of decoding a varint from a position in a buffer: the value and the
/// position just past it, or not enough bytes yet.
pub open spec fn varint_at(buf: Seq<u8>, pos: int) -> Option<(u64, int)> {
    if pos < 0 || pos >= buf.len() {
        None
    } else {
        let n = varint_len_of_first(buf[pos]);
        if pos + n > buf.len() {
            None
        } else {
            Some((varint_value(buf.subrange(pos, pos + n)), pos + n))
        }
    }
}

/// Appends the canonical encoding of `v` to `out`.
pub fn encode_varint(v: u64, out: &mut Vec<u8>)
    requires
        v < VARINT_MAX,
    ensures
        final(out)@ == old(out)@ + varint_bytes(v),
{
    if v < 64 {
        out.push(v as u8);
        assert(final(out)@ =~= old(out)@ + varint_bytes(v));
    } else if v < 16384 {
        out.push((64 + v / 0x100) as u8);
        out.push((v % 0x100) as u8);
        assert(final(out)@ =~= old(out)@ + varint_bytes(v));
    } else if v < 0x4000_0000 {
        out.push((128 + v / 0x100_0000) as u8);
        out.push(((v / 0x1_0000) % 0x100) as u8);
        out.push(((v / 0x100) % 0x100) as u8);
        out.push((v % 0x100) as u8);
        assert(final(out)@ =~= old(out)@ + varint_bytes(v));
    } else {
        out.push((192 + v / 0x100_0000_0000_0000) as u8);
        out.push(((v / 0x1_0000_0000_0000) % 0x100) as u8);
        out.push(((v / 0x100_0000_0000) % 0x100) as u8);
        out.push(((v / 0x1_0000_0000) % 0x100) as u8);
        out.push(((v / 0x100_0000) % 0x100) as u8);
        out.push(((v / 0x1_0000) % 0x100) as u8);
        out.push(((v / 0x100) % 0x100) as u8);
        out.push((v % 0x100) as u8);
        assert(final(out)@ =~= old(out)@ + varint_bytes(v));
    }
}

/// Decodes the varint at `pos` in `buf`; `None` means the buffer ends before
/// the varint does (more bytes are needed).
pub fn decode_varint(buf: &Vec<u8>, pos: usize) -> (r: Option<(u64, usize)>)
    ensures
        match r {
            Some((v, next)) => varint_at(buf@, pos as int) == Some((v, next as int)),
            None => varint_at(buf@, pos as int) is None,
        },
{
    if pos >= buf.len() {
        return None;
    }
    let b0 = buf[pos];
    let lead = (b0 % 64) as u64;
    if b0 < 64 {
        Some((lead, pos + 1))
    } else if b0 < 128 {
        if buf.len() - pos < 2 {
            return None;
        }
        let v = lead * 0x100 + buf[pos + 1] as u64;
        assert(buf@.subrange(pos as int, pos + 2)[0] == b0);
        assert(buf@.subrange(pos as int, pos + 2)[1] == buf@[pos + 1]);
        Some((v, pos + 2))
    } else if b0 < 192 {
        if buf.len() - pos < 4 {
            return None;
        }
        let v = lead * 0x100_0000 + buf[pos + 1] as u64 * 0x1_0000 + buf[pos + 2] as u64 * 0x100
            + buf[pos + 3] as u64;
        assert forall|i: int| 0 <= i < 4 implies #[trigger] buf@.subrange(pos as int, pos + 4)[i]
            == buf@[pos + i] by {}
        Some((v, pos + 4))
    } else {
        if buf.len() - pos < 8 {
            return None;
        }
        let v = lead * 0x100_0000_0000_0000 + buf[pos + 1] as u64 * 0x1_0000_0000_0000 + buf[pos
            + 2] as u64 * 0x100_0000_0000 + buf[pos + 3] as u64 * 0x1_0000_0000 + buf[pos
            + 4] as u64 * 0x100_0000 + buf[pos + 5] as u64 * 0x1_0000 + buf[pos + 6] as u64 * 0x100
            + buf[pos + 7] as u64;
        assert forall|i: int| 0 <= i < 8 implies #[trigger] buf@.subrange(pos as int, pos + 8)[i]
            == buf@[pos + i] by {}
        Some((v, pos + 8))
    }
}

/// A canonical encoding decodes back to the value it was made from: the
/// round trip is the identity on the whole varint value range.
pub proof fn lemma_varint_round_trip(v: u64)
    requires
        v < VARINT_MAX,
    ensures
        varint_at(varint_bytes(v), 0) == Some((v, varint_len(v))),
{
    let bytes = varint_bytes(v);
    assert(bytes.len() == varint_len(v));
    assert(bytes.subrange(0, varint_len(v)) =~= bytes);
    if v < 64 {
    } else if v < 16384 {
        assert(bytes[0] == (64 + v / 0x100) as u8);
        assert(64 <= bytes[0] < 128);
        assert(varint_value(bytes) == v) by {
            assert((bytes[0] % 64) as u64 == v / 0x100);
            assert(v / 0x100 * 0x100 + v % 0x100 == v) by {
                vstd::arithmetic::div_mod::lemma_fundamental_div_mod(v as int, 0x100);
            }
        }
    } else if v < 0x4000_0000 {
        assert(bytes[0] == (128 + v / 0x100_0000) as u8);
        assert(128 <= bytes[0] < 192);
        assert(varint_value(bytes) == v) by {
            assert((bytes[0] % 64) as u64 == v / 0x100_0000);
            lemma_byte_recompose(v as nat, 4);
        }
    } else {
        assert(bytes[0] == (192 + v / 0x100_0000_0000_0000) as u8);
        assert(192 <= bytes[0]);
        assert(varint_value(bytes) == v) by {
            assert((bytes[0] % 64) as u64 == v / 0x100_0000_0000_0000) by {
                assert(v / 0x100_0000_0000_0000 < 64);
            }
            lemma_byte_recompose(v as nat, 8);
        }
    }
}

/// A canonical encoding embedded at any position of a larger buffer decodes
/// back to its value there.
pub proof fn lemma_varint_at_prefix(buf: Seq<u8>, pos: int, v: u64)
    requires
        v < VARINT_MAX,
        0 <= pos,
        pos + varint_len(v) <= buf.len(),
        buf.subrange(pos, pos + varint_len(v)) == varint_bytes(v),
    ensures
        varint_at(buf, pos) == Some((v, pos + varint_len(v))),
{
    lemma_varint_round_trip(v);
    let bytes = varint_bytes(v);
    let n = varint_len(v);
    assert(buf[pos] == bytes[0]) by {
        assert(buf.subrange(pos, pos + n)[0] == buf[pos]);
    }
    assert(varint_len_of_first(buf[pos]) == n) by {
        assert(bytes.subrange(0, n) =~= bytes);
    }
    assert(varint_value(buf.subrange(pos, pos + n)) == v) by {
        assert(bytes.subrange(0, n) =~= bytes);
    }
}

/// Splitting a value into its big-endian bytes below the top byte and adding
/// them back, each at its place value, restores the value.
proof fn lemma_byte_recompose(v: nat, n: nat)
    requires
        n == 4 || n == 8,
    ensures
        n == 4 ==> v == v / 0x100_0000 * 0x100_0000 + (v / 0x1_0000) % 0x100 * 0x1_0000 + (v
            / 0x100) % 0x100 * 0x100 + v % 0x100,
        n == 8 ==> v == v / 0x100_0000_0000_0000 * 0x100_0000_0000_0000 + (v / 0x1_0000_0000_0000)
            % 0x100 * 0x1_0000_0000_0000 + (v / 0x100_0000_0000) % 0x100 * 0x100_0000_0000 + (v
            / 0x1_0000_0000) % 0x100 * 0x1_0000_0000 + (v / 0x100_0000) % 0x100 * 0x100_0000 + (v
            / 0x1_0000) % 0x100 * 0x1_0000 + (v / 0x100) % 0x100 * 0x100 + v % 0x100,
{
    vstd::arithmetic::div_mod::lemma_fundamental_div_mod(v as int, 0x100);
    vstd::arithmetic::div_mod::lemma_fundamental_div_mod(v as int / 0x100, 0x100);
    vstd::arithmetic::div_mod::lemma_fundamental_div_mod(v as int / 0x1_0000, 0x100);
    vstd::arithmetic::div_mod::lemma_fundamental_div_mod(v as int / 0x100_0000, 0x100);
    vstd::arithmetic::div_mod::lemma_fundamental_div_mod(v as int / 0x1_0000_0000, 0x100);
    vstd::arithmetic::div_mod::lemma_fundamental_div_mod(v as int / 0x100_0000_0000, 0x100);
    vstd::arithmetic::div_mod::lemma_fundamental_div_mod(v as int / 0x1_0000_0000_0000, 0x100);
    assert(v as int / 0x100 / 0x100 == v as int / 0x1_0000) by {
        vstd::arithmetic::div_mod::lemma_div_denominator(v as int, 0x100, 0x100);
    }
    assert(v as int / 0x1_0000 / 0x100 == v as int / 0x100_0000) by {
        vstd::arithmetic::div_mod::lemma_div_denominator(v as int, 0x1_0000, 0x100);
    }
    assert(v as int / 0x100_0000 / 0x100 == v as int / 0x1_0000_0000) by {
        vstd::arithmetic::div_mod::lemma_div_denominator(v as int, 0x100_0000, 0x100);
    }
    assert(v as int / 0x1_0000_0000 / 0x100 == v as int / 0x100_0000_0000) by {
        vstd::arithmetic::div_mod::lemma_div_denominator(v as int, 0x1_0000_0000, 0x100);
    }
    assert(v as int / 0x100_0000_0000 / 0x100 == v as int / 0x1_0000_0000_0000) by {
        vstd::arithmetic::div_mod::lemma_div_denominator(v as int, 0x100_0000_0000, 0x100);
    }
    assert(v as int / 0x1_0000_0000_0000 / 0x100 == v as int / 0x100_0000_0000_0000) by {
        vstd::arithmetic::div_mod::lemma_div_denominator(v as int, 0x1_0000_0000_0000, 0x100);
    }
}

} // verus!
