//! HTTP/3 frame codec: the frames recognized on control and request streams,
//! their wire encoding, and the reader that turns a byte buffer into a
//! sequence of frames (RFC 9114 section 7).
//!
//! A frame is a type varint, a length varint, and a payload of that length.
//! Reserved frame types of the form `0x1f * N + 0x21` ("grease") and other
//! unknown types are skipped on read; frame types inherited from HTTP/2 are a
//! connection error.
use vstd::prelude::*;

use crate::error::Code;
use crate::shared::Settings;
use crate::varint::{
    decode_varint, encode_varint, lemma_varint_at_prefix, varint_at, varint_bytes, varint_len,
    VARINT_MAX,
};

verus! {

/// Frame type DATA.
pub const FRAME_DATA: u64 = 0x0;

/// Frame type HEADERS.
pub const FRAME_HEADERS: u64 = 0x1;

/// Frame type CANCEL_PUSH.
pub const FRAME_CANCEL_PUSH: u64 = 0x3;

/// Frame type SETTINGS.
pub const FRAME_SETTINGS: u64 = 0x4;

/// Frame type PUSH_PROMISE.
pub const FRAME_PUSH_PROMISE: u64 = 0x5;

/// Frame type GOAWAY.
pub const FRAME_GOAWAY: u64 = 0x7;

/// Frame type MAX_PUSH_ID.
pub const FRAME_MAX_PUSH_ID: u64 = 0xd;

/// Settings identifier for the largest acceptable field section.
pub const SETTINGS_MAX_FIELD_SECTION_SIZE: u64 = 0x6;

/// Settings identifier for extended CONNECT support (RFC 9220); its value is
/// boolean-coded.
pub const SETTINGS_ENABLE_CONNECT_PROTOCOL: u64 = 0x8;

/// Settings identifier for HTTP/3 datagram support (RFC 9297); its value is
/// boolean-coded.
pub const SETTINGS_H3_DATAGRAM: u64 = 0x33;

/// Settings identifier for WebTransport support (draft); its value is
/// boolean-coded.
pub const SETTINGS_ENABLE_WEBTRANSPORT: u64 = 0x2b603742;

/// A frame type reserved to exercise the rule that unknown types are
/// ignored: `0x1f * N + 0x21` for non-negative `N`.
pub open spec fn is_grease_frame_type(t: u64) -> bool {
    t >= 0x21 && (t - 0x21) % 0x1f == 0
}

/// Frame types inherited from HTTP/2 whose receipt is a connection error of
/// type H3_FRAME_UNEXPECTED (RFC 9114 section 7.2.8), together with
/// PUSH_PROMISE, which this endpoint never solicits.
pub open spec fn is_forbidden_frame_type(t: u64) -> bool {
    t == 0x2 || t == FRAME_PUSH_PROMISE || t == 0x6 || t == 0x8 || t == 0x9
}

/// A parsed HTTP/3 frame. DATA and HEADERS appear on request streams; the
/// others on control streams. `Grease` is emitted but never produced by the
/// reader, which skips reserved types instead.
#[derive(Clone, Debug)]
pub enum Frame {
    /// Request or response body bytes.
    Data(Vec<u8>),
    /// An encoded field section (QPACK block), left opaque here.
    Headers(Vec<u8>),
    /// Request that a promised push not be delivered.
    CancelPush(u64),
    /// The sender's settings as (identifier, value) pairs.
    Settings(Vec<(u64, u64)>),
    /// The largest stream or push id the sender will process.
    Goaway(u64),
    /// The largest push id the sender allows.
    MaxPushId(u64),
    /// A reserved frame with no semantics.
    Grease,
}

/// The specification-level image of a frame.
pub enum SpecFrame {
    /// Request or response body bytes.
    Data { payload: Seq<u8> },
    /// An encoded field section.
    Headers { block: Seq<u8> },
    /// Request that a promised push not be delivered.
    CancelPush { id: u64 },
    /// The sender's settings.
    Settings { pairs: Seq<(u64, u64)> },
    /// The largest stream or push id the sender will process.
    Goaway { id: u64 },
    /// The largest push id the sender allows.
    MaxPushId { id: u64 },
    /// A reserved frame with no semantics.
    Grease,
}

impl View for Frame {
    type V = SpecFrame;

    open spec fn view(&self) -> SpecFrame {
        match self {
            Frame::Data(p) => SpecFrame::Data { payload: p@ },
            Frame::Headers(b) => SpecFrame::Headers { block: b@ },
            Frame::CancelPush(id) => SpecFrame::CancelPush { id: *id },
            Frame::Settings(pairs) => SpecFrame::Settings { pairs: pairs@ },
            Frame::Goaway(id) => SpecFrame::Goaway { id: *id },
            Frame::MaxPushId(id) => SpecFrame::MaxPushId { id: *id },
            Frame::Grease => SpecFrame::Grease,
        }
    }
}

/// The (identifier, value) pairs laid out one after the other from `pos` to
/// the end of `payload`, each as two varints; `None` when the bytes do not
/// parse that way.
pub open spec fn settings_pairs_at(payload: Seq<u8>, pos: int) -> Option<Seq<(u64, u64)>>
    decreases payload.len() - pos,
{
    if pos == payload.len() {
        Some(Seq::empty())
    } else {
        match varint_at(payload, pos) {
            None => None,
            Some((id, p1)) => match varint_at(payload, p1) {
                None => None,
                Some((value, p2)) => match settings_pairs_at(payload, p2) {
                    None => None,
                    Some(rest) => Some(seq![(id, value)] + rest),
                },
            },
        }
    }
}

/// Two settings entries carry the same identifier: a connection error of
/// type H3_SETTINGS_ERROR.
pub open spec fn has_duplicate_setting(pairs: Seq<(u64, u64)>) -> bool {
    exists|i: int, j: int| 0 <= i < j < pairs.len() && pairs[i].0 == pairs[j].0
}

/// Settings whose value is boolean-coded: only 0 and 1 are allowed.
pub open spec fn is_boolean_setting(id: u64) -> bool {
    id == SETTINGS_ENABLE_CONNECT_PROTOCOL || id == SETTINGS_H3_DATAGRAM || id
        == SETTINGS_ENABLE_WEBTRANSPORT
}

/// Every boolean-coded setting in `pairs` holds 0 or 1.
pub open spec fn settings_values_ok(pairs: Seq<(u64, u64)>) -> bool {
    forall|i: int|
        0 <= i < pairs.len() && is_boolean_setting(#[trigger] pairs[i].0) ==> pairs[i].1 <= 1
}

/// One step of the frame reader at `pos` in `buf`, where `eos` says whether
/// the stream has ended cleanly after `buf`.
pub enum SpecFrameStep {
    /// More bytes are needed before the next frame is complete.
    Pending,
    /// Clean end of stream at a frame boundary.
    End,
    /// A complete recognized frame, and the position just past it.
    Ready { f: SpecFrame, next: int },
    /// An unknown or reserved frame was skipped, up to this position.
    Skipped { next: int },
}

/// Reader errors: a stream truncated inside a frame, or a malformed or
/// forbidden frame with the connection error code it maps to.
#[derive(Clone, Copy, Debug, PartialEq, Eq, Structural)]
pub enum FrameReadError {
    /// The stream ended cleanly in the middle of a frame: H3_FRAME_ERROR.
    UnexpectedEnd,
    /// A malformed or forbidden frame, with its error code.
    Proto(Code),
}

/// What the payload of a complete frame of type `ftype` means; `next` is the
/// position just past the frame.
pub open spec fn spec_parse_payload(ftype: u64, payload: Seq<u8>, next: int) -> Result<
    SpecFrameStep,
    FrameReadError,
> {
    if ftype == FRAME_DATA {
        Ok(SpecFrameStep::Ready { f: SpecFrame::Data { payload }, next })
    } else if ftype == FRAME_HEADERS {
        Ok(SpecFrameStep::Ready { f: SpecFrame::Headers { block: payload }, next })
    } else if ftype == FRAME_CANCEL_PUSH || ftype == FRAME_GOAWAY || ftype == FRAME_MAX_PUSH_ID {
        match varint_at(payload, 0) {
            Some((id, used)) => if used == payload.len() {
                Ok(
                    SpecFrameStep::Ready {
                        f: if ftype == FRAME_CANCEL_PUSH {
                            SpecFrame::CancelPush { id }
                        } else if ftype == FRAME_GOAWAY {
                            SpecFrame::Goaway { id }
                        } else {
                            SpecFrame::MaxPushId { id }
                        },
                        next,
                    },
                )
            } else {
                Err(FrameReadError::Proto(Code::H3FrameError))
            },
            None => Err(FrameReadError::Proto(Code::H3FrameError)),
        }
    } else if ftype == FRAME_SETTINGS {
        match settings_pairs_at(payload, 0) {
            None => Err(FrameReadError::Proto(Code::H3FrameError)),
            Some(pairs) => if has_duplicate_setting(pairs) || !settings_values_ok(pairs) {
                Err(FrameReadError::Proto(Code::H3SettingsError))
            } else {
                Ok(SpecFrameStep::Ready { f: SpecFrame::Settings { pairs }, next })
            },
        }
    } else if is_forbidden_frame_type(ftype) {
        Err(FrameReadError::Proto(Code::H3FrameUnexpected))
    } else {
        Ok(SpecFrameStep::Skipped { next })
    }
}

/// The reader's step at `pos`: the next frame, a skip, an end, a wait for
/// more bytes, or an error.
pub open spec fn spec_next_frame(buf: Seq<u8>, pos: int, eos: bool) -> Result<
    SpecFrameStep,
    FrameReadError,
> {
    if pos == buf.len() {
        if eos {
            Ok(SpecFrameStep::End)
        } else {
            Ok(SpecFrameStep::Pending)
        }
    } else {
        match varint_at(buf, pos) {
            None => if eos {
                Err(FrameReadError::UnexpectedEnd)
            } else {
                Ok(SpecFrameStep::Pending)
            },
            Some((ftype, p1)) => match varint_at(buf, p1) {
                None => if eos {
                    Err(FrameReadError::UnexpectedEnd)
                } else {
                    Ok(SpecFrameStep::Pending)
                },
                Some((flen, p2)) => if flen > buf.len() - p2 {
                    if eos {
                        Err(FrameReadError::UnexpectedEnd)
                    } else {
                        Ok(SpecFrameStep::Pending)
                    }
                } else {
                    spec_parse_payload(ftype, buf.subrange(p2, p2 + flen), p2 + flen)
                },
            },
        }
    }
}

/// One step of the executable frame reader.
#[derive(Clone, Debug)]
pub enum FrameStep {
    /// More bytes are needed before the next frame is complete.
    Pending,
    /// Clean end of stream at a frame boundary.
    End,
    /// A complete recognized frame, and the position just past it.
    Ready(Frame, usize),
    /// An unknown or reserved frame was skipped, up to this position.
    Skipped(usize),
}

/// Correspondence between an executable reader step and its specification.
pub open spec fn step_matches(r: Result<FrameStep, FrameReadError>, s: Result<
    SpecFrameStep,
    FrameReadError,
>) -> bool {
    match r {
        Ok(FrameStep::Pending) => s == Ok::<SpecFrameStep, FrameReadError>(SpecFrameStep::Pending),
        Ok(FrameStep::End) => s == Ok::<SpecFrameStep, FrameReadError>(SpecFrameStep::End),
        Ok(FrameStep::Ready(f, next)) => s == Ok::<SpecFrameStep, FrameReadError>(
            SpecFrameStep::Ready { f: f@, next: next as int },
        ),
        Ok(FrameStep::Skipped(next)) => s == Ok::<SpecFrameStep, FrameReadError>(
            SpecFrameStep::Skipped { next: next as int },
        ),
        Err(e) => s == Err::<SpecFrameStep, FrameReadError>(e),
    }
}

/// Copies `buf[from..to]` into a fresh vector.
pub(crate) fn copy_range(buf: &Vec<u8>, from: usize, to: usize) -> (r: Vec<u8>)
    requires
        from <= to <= buf@.len(),
    ensures
        r@ == buf@.subrange(from as int, to as int),
{
    let mut out: Vec<u8> = Vec::new();
    let mut i: usize = from;
    while i < to
        invariant
            from <= i <= to <= buf@.len(),
            out@ == buf@.subrange(from as int, i as int),
        decreases to - i,
    {
        out.push(buf[i]);
        assert(out@ =~= buf@.subrange(from as int, i + 1));
        i = i + 1;
    }
    out
}

/// Parses a SETTINGS payload into its (identifier, value) pairs, refusing
/// duplicates and out-of-range boolean-coded values.
pub fn parse_settings_payload(payload: &Vec<u8>) -> (r: Result<Vec<(u64, u64)>, Code>)
    ensures
        match r {
            Ok(pairs) => settings_pairs_at(payload@, 0) == Some(pairs@) && !has_duplicate_setting(
                pairs@,
            ) && settings_values_ok(pairs@),
            Err(c) => if c == Code::H3FrameError {
                settings_pairs_at(payload@, 0) is None
            } else {
                c == Code::H3SettingsError && match settings_pairs_at(payload@, 0) {
                    Some(pairs) => has_duplicate_setting(pairs) || !settings_values_ok(pairs),
                    None => false,
                }
            },
        },
{
    let mut pairs: Vec<(u64, u64)> = Vec::new();
    let mut pos: usize = 0;
    while pos < payload.len()
        invariant
            pos <= payload@.len(),
            settings_pairs_at(payload@, 0) == match settings_pairs_at(payload@, pos as int) {
                None => None::<Seq<(u64, u64)>>,
                Some(rest) => Some(pairs@ + rest),
            },
        decreases payload@.len() - pos,
    {
        let (id, p1) = match decode_varint(payload, pos) {
            Some(x) => x,
            None => {
                return Err(Code::H3FrameError);
            },
        };
        let (value, p2) = match decode_varint(payload, p1) {
            Some(x) => x,
            None => {
                return Err(Code::H3FrameError);
            },
        };
        let ghost pairs_before = pairs@;
        pairs.push((id, value));
        proof {
            if settings_pairs_at(payload@, p2 as int) is Some {
                let rest = settings_pairs_at(payload@, p2 as int)->Some_0;
                assert(settings_pairs_at(payload@, pos as int) == Some(seq![(id, value)] + rest));
                assert(pairs@ + rest =~= pairs_before + (seq![(id, value)] + rest));
            }
        }
        pos = p2;
    }
    assert(pairs@ + Seq::<(u64, u64)>::empty() =~= pairs@);
    // duplicate and boolean-range checks over the parsed pairs
    let mut i: usize = 0;
    while i < pairs.len()
        invariant
            i <= pairs@.len(),
            settings_pairs_at(payload@, 0) == Some(pairs@),
            forall|a: int, b: int| 0 <= a < b < pairs@.len() && a < i ==> pairs@[a].0 != pairs@[b].0,
            forall|a: int|
                0 <= a < i && is_boolean_setting(#[trigger] pairs@[a].0) ==> pairs@[a].1 <= 1,
        decreases pairs@.len() - i,
    {
        let (id, value) = pairs[i];
        if (id == SETTINGS_ENABLE_CONNECT_PROTOCOL || id == SETTINGS_H3_DATAGRAM || id
            == SETTINGS_ENABLE_WEBTRANSPORT) && value > 1 {
            assert(is_boolean_setting(pairs@[i as int].0) && pairs@[i as int].1 > 1);
            return Err(Code::H3SettingsError);
        }
        let mut j: usize = i + 1;
        while j < pairs.len()
            invariant
                i < j <= pairs@.len(),
                settings_pairs_at(payload@, 0) == Some(pairs@),
                (id, value) == pairs@[i as int],
                forall|b: int| i < b < j ==> pairs@[i as int].0 != pairs@[b].0,
            decreases pairs@.len() - j,
        {
            if pairs[j].0 == id {
                assert(pairs@[i as int].0 == pairs@[j as int].0);
                return Err(Code::H3SettingsError);
            }
            j = j + 1;
        }
        i = i + 1;
    }
    Ok(pairs)
}

/// Reads the frame that starts at `pos` in `buf`; `eos` says the stream has
/// ended cleanly after `buf`, which turns an incomplete frame from a wait
/// into an H3_FRAME_ERROR (RFC 9114 section 7.1).
pub fn next_frame(buf: &Vec<u8>, pos: usize, eos: bool) -> (r: Result<FrameStep, FrameReadError>)
    requires
        pos <= buf@.len(),
    ensures
        step_matches(r, spec_next_frame(buf@, pos as int, eos)),
{
    if pos == buf.len() {
        return Ok(if eos {
            FrameStep::End
        } else {
            FrameStep::Pending
        });
    }
    let (ftype, p1) = match decode_varint(buf, pos) {
        Some(x) => x,
        None => {
            return if eos {
                Err(FrameReadError::UnexpectedEnd)
            } else {
                Ok(FrameStep::Pending)
            };
        },
    };
    let (flen, p2) = match decode_varint(buf, p1) {
        Some(x) => x,
        None => {
            return if eos {
                Err(FrameReadError::UnexpectedEnd)
            } else {
                Ok(FrameStep::Pending)
            };
        },
    };
    let rem = buf.len() - p2;
    if flen > rem as u64 {
        return if eos {
            Err(FrameReadError::UnexpectedEnd)
        } else {
            Ok(FrameStep::Pending)
        };
    }
    let next = p2 + (flen as usize);
    if ftype == FRAME_DATA || ftype == FRAME_HEADERS {
        let payload = copy_range(buf, p2, next);
        if ftype == FRAME_DATA {
            Ok(FrameStep::Ready(Frame::Data(payload), next))
        } else {
            Ok(FrameStep::Ready(Frame::Headers(payload), next))
        }
    } else if ftype == FRAME_CANCEL_PUSH || ftype == FRAME_GOAWAY || ftype == FRAME_MAX_PUSH_ID {
        let payload = copy_range(buf, p2, next);
        match decode_varint(&payload, 0) {
            Some((id, used)) => {
                if used == payload.len() {
                    if ftype == FRAME_CANCEL_PUSH {
                        Ok(FrameStep::Ready(Frame::CancelPush(id), next))
                    } else if ftype == FRAME_GOAWAY {
                        Ok(FrameStep::Ready(Frame::Goaway(id), next))
                    } else {
                        Ok(FrameStep::Ready(Frame::MaxPushId(id), next))
                    }
                } else {
                    Err(FrameReadError::Proto(Code::H3FrameError))
                }
            },
            None => Err(FrameReadError::Proto(Code::H3FrameError)),
        }
    } else if ftype == FRAME_SETTINGS {
        let payload = copy_range(buf, p2, next);
        match parse_settings_payload(&payload) {
            Ok(pairs) => Ok(FrameStep::Ready(Frame::Settings(pairs), next)),
            Err(c) => Err(FrameReadError::Proto(c)),
        }
    } else if ftype == 0x2 || ftype == 0x5 || ftype == 0x6 || ftype == 0x8 || ftype == 0x9 {
        Err(FrameReadError::Proto(Code::H3FrameUnexpected))
    } else {
        Ok(FrameStep::Skipped(next))
    }
}

/// Every identifier and value in `pairs` is in varint range.
pub open spec fn wf_pairs(pairs: Seq<(u64, u64)>) -> bool {
    forall|i: int|
        0 <= i < pairs.len() ==> (#[trigger] pairs[i]).0 < VARINT_MAX && pairs[i].1 < VARINT_MAX
}

/// The SETTINGS payload for `pairs`: each pair as two varints, in order.
pub open spec fn settings_payload_bytes(pairs: Seq<(u64, u64)>) -> Seq<u8>
    decreases pairs.len(),
{
    if pairs.len() == 0 {
        Seq::empty()
    } else {
        varint_bytes(pairs[0].0) + varint_bytes(pairs[0].1) + settings_payload_bytes(
            pairs.drop_first(),
        )
    }
}

/// The wire encoding of a frame: type varint, length varint, payload. The
/// grease frame is emitted with type `0x21` (`0x1f * 0 + 0x21`) and an empty
/// payload.
pub open spec fn frame_bytes(f: SpecFrame) -> Seq<u8> {
    match f {
        SpecFrame::Data { payload } => varint_bytes(FRAME_DATA) + varint_bytes(
            payload.len() as u64,
        ) + payload,
        SpecFrame::Headers { block } => varint_bytes(FRAME_HEADERS) + varint_bytes(
            block.len() as u64,
        ) + block,
        SpecFrame::CancelPush { id } => varint_bytes(FRAME_CANCEL_PUSH) + varint_bytes(
            varint_len(id) as u64,
        ) + varint_bytes(id),
        SpecFrame::Settings { pairs } => varint_bytes(FRAME_SETTINGS) + varint_bytes(
            settings_payload_bytes(pairs).len() as u64,
        ) + settings_payload_bytes(pairs),
        SpecFrame::Goaway { id } => varint_bytes(FRAME_GOAWAY) + varint_bytes(
            varint_len(id) as u64,
        ) + varint_bytes(id),
        SpecFrame::MaxPushId { id } => varint_bytes(FRAME_MAX_PUSH_ID) + varint_bytes(
            varint_len(id) as u64,
        ) + varint_bytes(id),
        SpecFrame::Grease => varint_bytes(0x21) + varint_bytes(0),
    }
}

/// A frame that can be put on the wire: every varint it needs is in range.
pub open spec fn wf_frame(f: SpecFrame) -> bool {
    match f {
        SpecFrame::Data { payload } => payload.len() < VARINT_MAX,
        SpecFrame::Headers { block } => block.len() < VARINT_MAX,
        SpecFrame::CancelPush { id } => id < VARINT_MAX,
        SpecFrame::Settings { pairs } => wf_pairs(pairs) && settings_payload_bytes(pairs).len()
            < VARINT_MAX,
        SpecFrame::Goaway { id } => id < VARINT_MAX,
        SpecFrame::MaxPushId { id } => id < VARINT_MAX,
        SpecFrame::Grease => true,
    }
}

/// Appends all of `src` to `out`.
pub(crate) fn extend_bytes(out: &mut Vec<u8>, src: &Vec<u8>)
    ensures
        final(out)@ == old(out)@ + src@,
{
    let mut i: usize = 0;
    while i < src.len()
        invariant
            i <= src@.len(),
            out@ == old(out)@ + src@.subrange(0, i as int),
        decreases src@.len() - i,
    {
        out.push(src[i]);
        assert(out@ =~= old(out)@ + src@.subrange(0, i + 1));
        i = i + 1;
    }
    assert(out@ =~= old(out)@ + src@);
}

/// The number of bytes of the canonical varint encoding of `v`.
pub fn varint_size(v: u64) -> (n: u64)
    requires
        v < VARINT_MAX,
    ensures
        n == varint_len(v),
{
    if v < 64 {
        1
    } else if v < 16384 {
        2
    } else if v < 0x4000_0000 {
        4
    } else {
        8
    }
}

/// Encodes `pairs` as a SETTINGS payload.
pub fn encode_settings_payload(pairs: &Vec<(u64, u64)>) -> (r: Vec<u8>)
    requires
        wf_pairs(pairs@),
    ensures
        r@ == settings_payload_bytes(pairs@),
{
    let mut out: Vec<u8> = Vec::new();
    proof {
        assert(pairs@.skip(0) =~= pairs@);
        assert(out@ + settings_payload_bytes(pairs@.skip(0)) =~= settings_payload_bytes(pairs@));
    }
    let mut i: usize = 0;
    while i < pairs.len()
        invariant
            i <= pairs@.len(),
            wf_pairs(pairs@),
            out@ + settings_payload_bytes(pairs@.skip(i as int)) == settings_payload_bytes(pairs@),
        decreases pairs@.len() - i,
    {
        let (id, value) = pairs[i];
        encode_varint(id, &mut out);
        encode_varint(value, &mut out);
        proof {
            let tail = pairs@.skip(i as int);
            assert(tail[0] == pairs@[i as int]);
            assert(tail.drop_first() =~= pairs@.skip(i + 1));
            assert(settings_payload_bytes(tail) == varint_bytes(id) + varint_bytes(value)
                + settings_payload_bytes(pairs@.skip(i + 1)));
            assert(out@ + settings_payload_bytes(pairs@.skip(i + 1)) =~= settings_payload_bytes(
                pairs@,
            ));
        }
        i = i + 1;
    }
    proof {
        assert(pairs@.skip(pairs@.len() as int).len() == 0);
        assert(out@ + settings_payload_bytes(pairs@.skip(pairs@.len() as int)) =~= out@);
    }
    out
}

/// Encodes one frame for the wire.
pub fn encode_frame(f: &Frame) -> (r: Vec<u8>)
    requires
        wf_frame(f@),
    ensures
        r@ == frame_bytes(f@),
{
    let mut out: Vec<u8> = Vec::new();
    match f {
        Frame::Data(payload) => {
            encode_varint(FRAME_DATA, &mut out);
            encode_varint(payload.len() as u64, &mut out);
            extend_bytes(&mut out, payload);
        },
        Frame::Headers(block) => {
            encode_varint(FRAME_HEADERS, &mut out);
            encode_varint(block.len() as u64, &mut out);
            extend_bytes(&mut out, block);
        },
        Frame::CancelPush(id) => {
            encode_varint(FRAME_CANCEL_PUSH, &mut out);
            let n = varint_size(*id);
            encode_varint(n, &mut out);
            encode_varint(*id, &mut out);
        },
        Frame::Settings(pairs) => {
            encode_varint(FRAME_SETTINGS, &mut out);
            let payload = encode_settings_payload(pairs);
            encode_varint(payload.len() as u64, &mut out);
            extend_bytes(&mut out, &payload);
        },
        Frame::Goaway(id) => {
            encode_varint(FRAME_GOAWAY, &mut out);
            let n = varint_size(*id);
            encode_varint(n, &mut out);
            encode_varint(*id, &mut out);
        },
        Frame::MaxPushId(id) => {
            encode_varint(FRAME_MAX_PUSH_ID, &mut out);
            let n = varint_size(*id);
            encode_varint(n, &mut out);
            encode_varint(*id, &mut out);
        },
        Frame::Grease => {
            encode_varint(0x21, &mut out);
            encode_varint(0, &mut out);
        },
    }
    out
}

/// A SETTINGS payload parses back to exactly the pairs it was encoded from,
/// wherever it sits in a buffer.
#[verifier::rlimit(100)]
proof fn lemma_settings_payload_parse(buf: Seq<u8>, pos: int, pairs: Seq<(u64, u64)>)
    requires
        wf_pairs(pairs),
        0 <= pos <= buf.len(),
        buf.len() == pos + settings_payload_bytes(pairs).len(),
        buf.subrange(pos, buf.len() as int) == settings_payload_bytes(pairs),
    ensures
        settings_pairs_at(buf, pos) == Some(pairs),
    decreases pairs.len(),
{
    if pairs.len() == 0 {
        assert(pos == buf.len());
        assert(Seq::<(u64, u64)>::empty() =~= pairs);
    } else {
        let id = pairs[0].0;
        let value = pairs[0].1;
        let rest = pairs.drop_first();
        let n1 = varint_len(id);
        let n2 = varint_len(value);
        let spb = settings_payload_bytes(pairs);
        assert(spb == varint_bytes(id) + varint_bytes(value) + settings_payload_bytes(rest));
        assert forall|k: int| 0 <= k < spb.len() implies buf[pos + k] == #[trigger] spb[k] by {
            assert(buf.subrange(pos, buf.len() as int)[k] == buf[pos + k]);
        }
        assert(buf.subrange(pos, pos + n1) =~= varint_bytes(id));
        lemma_varint_at_prefix(buf, pos, id);
        assert(buf.subrange(pos + n1, pos + n1 + n2) =~= varint_bytes(value)) by {
            assert forall|k: int| 0 <= k < n2 implies #[trigger] buf.subrange(
                pos + n1,
                pos + n1 + n2,
            )[k] == varint_bytes(value)[k] by {
                assert(buf[pos + (n1 + k)] == spb[n1 + k]);
            }
        }
        lemma_varint_at_prefix(buf, pos + n1, value);
        assert(wf_pairs(rest)) by {
            assert(forall|i: int| 0 <= i < rest.len() ==> rest[i] == pairs[i + 1]);
        }
        assert(buf.subrange(pos + n1 + n2, buf.len() as int) =~= settings_payload_bytes(rest)) by {
            assert forall|k: int| 0 <= k < settings_payload_bytes(rest).len() implies #[trigger] buf
                .subrange(pos + n1 + n2, buf.len() as int)[k] == settings_payload_bytes(rest)[k] by {
                assert(buf[pos + (n1 + n2 + k)] == spb[n1 + n2 + k]);
            }
        }
        lemma_settings_payload_parse(buf, pos + n1 + n2, rest);
        assert(seq![(id, value)] + rest =~= pairs);
    }
}

/// Encoding then parsing a SETTINGS payload preserves the pairs, and with
/// them the set of (identifier, value) entries.
pub proof fn lemma_settings_round_trip(pairs: Seq<(u64, u64)>)
    requires
        wf_pairs(pairs),
    ensures
        settings_pairs_at(settings_payload_bytes(pairs), 0) == Some(pairs),
{
    let buf = settings_payload_bytes(pairs);
    assert(buf.subrange(0, buf.len() as int) =~= buf);
    lemma_settings_payload_parse(buf, 0, pairs);
}

/// A whole SETTINGS frame read back from its own encoding yields the same
/// pairs: the reader's step on the encoding is exactly the frame.
pub proof fn lemma_settings_frame_round_trip(pairs: Seq<(u64, u64)>, eos: bool)
    requires
        wf_pairs(pairs),
        settings_payload_bytes(pairs).len() < VARINT_MAX,
        !has_duplicate_setting(pairs),
        settings_values_ok(pairs),
    ensures
        spec_next_frame(frame_bytes(SpecFrame::Settings { pairs }), 0, eos) == Ok::<
            SpecFrameStep,
            FrameReadError,
        >(
            SpecFrameStep::Ready {
                f: SpecFrame::Settings { pairs },
                next: frame_bytes(SpecFrame::Settings { pairs }).len() as int,
            },
        ),
{
    let payload = settings_payload_bytes(pairs);
    let plen = payload.len() as u64;
    let buf = frame_bytes(SpecFrame::Settings { pairs });
    assert(buf == varint_bytes(FRAME_SETTINGS) + varint_bytes(plen) + payload);
    let n1 = varint_len(FRAME_SETTINGS);
    let n2 = varint_len(plen);
    assert(n1 == 1);
    assert(buf.subrange(0, n1) =~= varint_bytes(FRAME_SETTINGS));
    lemma_varint_at_prefix(buf, 0, FRAME_SETTINGS);
    assert(buf.subrange(n1, n1 + n2) =~= varint_bytes(plen));
    lemma_varint_at_prefix(buf, n1, plen);
    let p2 = n1 + n2;
    assert(buf.len() - p2 == plen);
    assert(buf.subrange(p2, p2 + plen) =~= payload);
    lemma_settings_round_trip(pairs);
}

} // verus!
