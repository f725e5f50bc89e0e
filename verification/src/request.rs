//! One HTTP request or response stream: the receive half that speaks DATA,
//! HEADERS and trailers in the only order RFC 9114 allows, and the send half
//! that frames body bytes and trailers within the peer's advertised limits.
//!
//! QPACK coding is outside this crate: an encoded field section travels
//! through as an opaque block, and the caller reports the decoded size so the
//! limits here can be enforced.
use vstd::prelude::*;

use crate::bytebuf::{bytes_from_vec, bytes_view};
use crate::error::{Code, ErrorScope, InternalConnectionError, InternalRequestStreamError};
use crate::frame::{
    encode_frame, frame_bytes, next_frame, spec_next_frame, Frame, FrameReadError, FrameStep,
    SpecFrame, SpecFrameStep,
};
use crate::report::{clone_report_sender, send_report, ErrorReport};
use crate::shared::{ConnectionState, SharedState, SharedStateRef};
use crate::varint::VARINT_MAX;

verus! {

/// Where a request stream's receive half stands (RFC 9114 section 4.1).
#[derive(Clone, Copy, Debug, PartialEq, Eq, Structural)]
pub enum RequestStreamState {
    /// Awaiting the initial HEADERS, consumed by the request-building layer.
    Idle,
    /// DATA frames may come; a HEADERS frame starts the trailers.
    BodyOrTrailers,
    /// A trailer block is stashed; only end of stream may follow.
    TrailersStashed,
    /// End of stream was observed.
    Done,
    /// The stream was reset or stopped locally.
    Reset,
}

/// What a receive poll for body data yielded.
#[derive(Clone, Debug)]
pub enum RecvData {
    /// More bytes are needed.
    Pending,
    /// A chunk of the body.
    Data(Vec<u8>),
    /// No more body: end of stream, or trailers are next.
    End,
}

/// What a receive poll for trailers yielded.
#[derive(Debug)]
pub enum RecvTrailers {
    /// More bytes are needed.
    Pending,
    /// The stream ended without trailers.
    NoTrailers,
    /// The encoded trailer block, end of stream confirmed behind it.
    Block(bytes::Bytes),
}

/// What a poll for the initial HEADERS yielded.
#[derive(Clone, Debug)]
pub enum RecvInitial {
    /// More bytes are needed.
    Pending,
    /// The encoded initial field section; the body may now be read.
    Headers(Vec<u8>),
}

/// One request stream half. The receive buffer mirrors what the transport
/// has delivered; the connection state is the snapshot shared at creation.
pub struct RequestStream {
    /// Unread bytes of the receive half.
    pub recv_buf: Vec<u8>,
    /// How much of `recv_buf` is already consumed.
    pub recv_pos: usize,
    /// The transport reported a clean end of stream after `recv_buf`.
    pub recv_eos: bool,
    /// Where the receive half stands.
    pub state: RequestStreamState,
    /// A stashed encoded trailer block.
    pub trailers: Option<bytes::Bytes>,
    /// The connection's shared state.
    pub conn_state: SharedStateRef,
    /// Largest decoded field section this side accepts.
    pub max_field_section_size: u64,
    /// A grease frame may still be sent before finishing.
    pub send_grease_frame: bool,
    /// The driver's error-report channel.
    pub error_sender: tokio::sync::mpsc::UnboundedSender<ErrorReport>,
}

impl ConnectionState for RequestStream {
    open spec fn spec_shared(&self) -> SharedState {
        self.conn_state@
    }

    fn shared_state(&self) -> (r: &SharedStateRef) {
        &self.conn_state
    }
}

impl RequestStream {
    /// The receive cursor is inside its buffer.
    pub open spec fn wf(self) -> bool {
        self.recv_pos <= self.recv_buf@.len()
    }

    /// All fields that a receive poll leaves alone.
    pub open spec fn same_send_side(a: RequestStream, b: RequestStream) -> bool {
        &&& a.conn_state == b.conn_state
        &&& a.max_field_section_size == b.max_field_section_size
        &&& a.send_grease_frame == b.send_grease_frame
        &&& a.recv_buf == b.recv_buf
        &&& a.recv_eos == b.recv_eos
    }

    /// A fresh stream around a receive half the transport just opened.
    pub fn new(
        max_field_section_size: u64,
        conn_state: SharedStateRef,
        grease: bool,
        error_sender: tokio::sync::mpsc::UnboundedSender<ErrorReport>,
    ) -> (r: RequestStream)
        ensures
            r.wf(),
            r.state == RequestStreamState::Idle,
            r.trailers is None,
            r.recv_buf@.len() == 0,
            r.recv_pos == 0,
            !r.recv_eos,
            r.conn_state == conn_state,
            r.max_field_section_size == max_field_section_size,
            r.send_grease_frame == grease,
    {
        RequestStream {
            recv_buf: Vec::new(),
            recv_pos: 0,
            recv_eos: false,
            state: RequestStreamState::Idle,
            trailers: None,
            conn_state,
            max_field_section_size,
            send_grease_frame: grease,
            error_sender,
        }
    }

    /// Hands bytes the transport delivered to the receive half.
    pub fn on_recv_bytes(&mut self, bytes: &Vec<u8>)
        requires
            old(self).wf(),
        ensures
            final(self).wf(),
            final(self).recv_buf@ == old(self).recv_buf@ + bytes@,
            *final(self) == (RequestStream {
                recv_buf: final(self).recv_buf,
                ..*old(self)
            }),
    {
        crate::frame::extend_bytes(&mut self.recv_buf, bytes);
    }

    /// Records that the transport reported a clean end of stream.
    pub fn on_recv_eos(&mut self)
        requires
            old(self).wf(),
        ensures
            final(self).wf(),
            *final(self) == (RequestStream { recv_eos: true, ..*old(self) }),
    {
        self.recv_eos = true;
    }

    /// Reports a fault to the driver and returns the error this stream must
    /// surface: the connection's terminal error if one is latched, else the
    /// fault itself.
    pub fn close(&self, code: Code, reason: &'static str) -> (r: InternalConnectionError)
        ensures
            r == match self.conn_state@.error {
                Some(e) => e,
                None => (InternalConnectionError { code, message: reason }),
            },
    {
        send_report(&self.error_sender, code, reason);
        self.maybe_conn_err(InternalConnectionError::new(code, reason))
    }

    /// Consumes the initial HEADERS block that opens every request stream
    /// (RFC 9114 section 4.1); the request-building layer decodes it. On
    /// success the stream moves from idle to the body, the very transition
    /// `spec_request_step` makes on a HEADERS event. Any other frame first,
    /// or an end of stream before the block, is H3_FRAME_UNEXPECTED,
    /// reported to the driver.
    pub fn poll_recv_initial_headers(&mut self) -> (r: Result<
        RecvInitial,
        InternalConnectionError,
    >)
        requires
            old(self).wf(),
            old(self).state == RequestStreamState::Idle,
        ensures
            final(self).wf(),
            Self::same_send_side(*old(self), *final(self)),
            ({
                let s = *old(self);
                match spec_next_frame(s.recv_buf@, s.recv_pos as int, s.recv_eos) {
                    Ok(SpecFrameStep::Pending) => r matches Ok(RecvInitial::Pending)
                        && *final(self) == s,
                    Ok(SpecFrameStep::Skipped { next }) => {
                        &&& r matches Ok(RecvInitial::Pending)
                        &&& final(self).recv_pos == next
                        &&& *final(self) == (RequestStream {
                            recv_pos: final(self).recv_pos,
                            ..s
                        })
                    },
                    Ok(SpecFrameStep::Ready { f, next }) => match f {
                        SpecFrame::Headers { block } => {
                            &&& match r {
                                Ok(RecvInitial::Headers(v)) => v@ == block,
                                _ => false,
                            }
                            &&& final(self).recv_pos == next
                            &&& *final(self) == (RequestStream {
                                recv_pos: final(self).recv_pos,
                                state: RequestStreamState::BodyOrTrailers,
                                ..s
                            })
                        },
                        _ => match r {
                            Err(e) => (match s.conn_state@.error {
                                Some(l) => e == l,
                                None => e.code == Code::H3FrameUnexpected,
                            }) && *final(self) == s,
                            Ok(_) => false,
                        },
                    },
                    Ok(SpecFrameStep::End) => match r {
                        Err(e) => (match s.conn_state@.error {
                            Some(l) => e == l,
                            None => e.code == Code::H3FrameUnexpected,
                        }) && *final(self) == s,
                        Ok(_) => false,
                    },
                    Err(FrameReadError::UnexpectedEnd) => match r {
                        Err(e) => (match s.conn_state@.error {
                            Some(l) => e == l,
                            None => e.code == Code::H3FrameError,
                        }) && *final(self) == s,
                        Ok(_) => false,
                    },
                    Err(FrameReadError::Proto(code)) => match r {
                        Err(e) => (match s.conn_state@.error {
                            Some(l) => e == l,
                            None => e.code == code,
                        }) && *final(self) == s,
                        Ok(_) => false,
                    },
                }
            }),
    {
        match next_frame(&self.recv_buf, self.recv_pos, self.recv_eos) {
            Ok(FrameStep::Pending) => Ok(RecvInitial::Pending),
            Ok(FrameStep::End) => Err(
                self.close(Code::H3FrameUnexpected, "stream ended before the request headers"),
            ),
            Ok(FrameStep::Skipped(next)) => {
                self.recv_pos = next;
                Ok(RecvInitial::Pending)
            },
            Ok(FrameStep::Ready(frame, next)) => match frame {
                Frame::Headers(block) => {
                    self.recv_pos = next;
                    self.state = RequestStreamState::BodyOrTrailers;
                    Ok(RecvInitial::Headers(block))
                },
                _ => Err(self.close(Code::H3FrameUnexpected, "received unexpected frame")),
            },
            Err(FrameReadError::UnexpectedEnd) => Err(
                self.close(Code::H3FrameError, "received incomplete frame"),
            ),
            Err(FrameReadError::Proto(code)) => Err(
                self.close(code, "malformed or forbidden frame on request stream"),
            ),
        }
    }

    /// Receives the next chunk of the body. `End` means the body is over:
    /// the stream ended, or a HEADERS frame started the trailers and was
    /// stashed. A frame other than DATA or HEADERS is H3_FRAME_UNEXPECTED,
    /// reported to the driver (RFC 9114 section 4.1). The initial HEADERS
    /// must have been consumed first.
    pub fn poll_recv_data(&mut self) -> (r: Result<RecvData, InternalConnectionError>)
        requires
            old(self).wf(),
            old(self).state != RequestStreamState::Idle,
        ensures
            final(self).wf(),
            Self::same_send_side(*old(self), *final(self)),
            ({
                let s = *old(self);
                if s.state != RequestStreamState::BodyOrTrailers {
                    r matches Ok(RecvData::End) && *final(self) == s
                } else {
                    match spec_next_frame(s.recv_buf@, s.recv_pos as int, s.recv_eos) {
                        Ok(SpecFrameStep::Pending) => r matches Ok(RecvData::Pending)
                            && *final(self) == s,
                        Ok(SpecFrameStep::End) => r matches Ok(RecvData::End) && *final(self) == (
                        RequestStream { state: RequestStreamState::Done, ..s }),
                        Ok(SpecFrameStep::Skipped { next }) => r matches Ok(RecvData::Pending)
                            && *final(self) == (RequestStream {
                            recv_pos: final(self).recv_pos,
                            ..s
                        }) && final(self).recv_pos == next,
                        Ok(SpecFrameStep::Ready { f, next }) => match f {
                            SpecFrame::Data { payload } => {
                                &&& match r {
                                    Ok(RecvData::Data(v)) => v@ == payload,
                                    _ => false,
                                }
                                &&& final(self).recv_pos == next
                                &&& final(self).state == RequestStreamState::BodyOrTrailers
                                &&& final(self).trailers == s.trailers
                            },
                            SpecFrame::Headers { block } => {
                                &&& r matches Ok(RecvData::End)
                                &&& final(self).recv_pos == next
                                &&& final(self).state == RequestStreamState::TrailersStashed
                                &&& match final(self).trailers {
                                    Some(b) => bytes_view(b) == block,
                                    None => false,
                                }
                            },
                            _ => match r {
                                Err(e) => (match s.conn_state@.error {
                                    Some(l) => e == l,
                                    None => e.code == Code::H3FrameUnexpected,
                                }) && *final(self) == s,
                                Ok(_) => false,
                            },
                        },
                        Err(FrameReadError::UnexpectedEnd) => match r {
                            Err(e) => (match s.conn_state@.error {
                                Some(l) => e == l,
                                None => e.code == Code::H3FrameError,
                            }) && *final(self) == s,
                            Ok(_) => false,
                        },
                        Err(FrameReadError::Proto(code)) => match r {
                            Err(e) => (match s.conn_state@.error {
                                Some(l) => e == l,
                                None => e.code == code,
                            }) && *final(self) == s,
                            Ok(_) => false,
                        },
                    }
                }
            }),
    {
        if !matches!(self.state, RequestStreamState::BodyOrTrailers) {
            return Ok(RecvData::End);
        }
        match next_frame(&self.recv_buf, self.recv_pos, self.recv_eos) {
            Ok(FrameStep::Pending) => Ok(RecvData::Pending),
            Ok(FrameStep::End) => {
                self.state = RequestStreamState::Done;
                Ok(RecvData::End)
            },
            Ok(FrameStep::Skipped(next)) => {
                self.recv_pos = next;
                Ok(RecvData::Pending)
            },
            Ok(FrameStep::Ready(frame, next)) => match frame {
                Frame::Data(payload) => {
                    self.recv_pos = next;
                    Ok(RecvData::Data(payload))
                },
                Frame::Headers(block) => {
                    self.recv_pos = next;
                    self.state = RequestStreamState::TrailersStashed;
                    self.trailers = Some(bytes_from_vec(block));
                    Ok(RecvData::End)
                },
                _ => Err(self.close(Code::H3FrameUnexpected, "received unexpected frame")),
            },
            Err(FrameReadError::UnexpectedEnd) => Err(
                self.close(Code::H3FrameError, "received incomplete frame"),
            ),
            Err(FrameReadError::Proto(code)) => Err(
                self.close(code, "malformed or forbidden frame on request stream"),
            ),
        }
    }

    /// What reading the trailers does once a candidate block is at hand:
    /// `s` is the stream with the block taken out of the stash and the
    /// reader's cursor past the block's frame. The block comes back only
    /// with the end of stream confirmed behind it; a wait re-stashes it;
    /// any further real frame is H3_FRAME_UNEXPECTED.
    pub open spec fn trailers_step(
        s: RequestStream,
        block: Seq<u8>,
        b: RequestStream,
        r: Result<RecvTrailers, InternalConnectionError>,
    ) -> bool {
        match spec_next_frame(s.recv_buf@, s.recv_pos as int, s.recv_eos) {
            Ok(SpecFrameStep::End) => {
                &&& match r {
                    Ok(RecvTrailers::Block(bb)) => bytes_view(bb) == block,
                    _ => false,
                }
                &&& b == (RequestStream {
                    state: RequestStreamState::Done,
                    trailers: None,
                    ..s
                })
            },
            Ok(SpecFrameStep::Pending) => {
                &&& r matches Ok(RecvTrailers::Pending)
                &&& match b.trailers {
                    Some(bb) => bytes_view(bb) == block,
                    None => false,
                }
                &&& b == (RequestStream { trailers: b.trailers, ..s })
            },
            Ok(SpecFrameStep::Skipped { next }) => {
                &&& r matches Ok(RecvTrailers::Pending)
                &&& match b.trailers {
                    Some(bb) => bytes_view(bb) == block,
                    None => false,
                }
                &&& b.recv_pos == next
                &&& b == (RequestStream {
                    trailers: b.trailers,
                    recv_pos: b.recv_pos,
                    ..s
                })
            },
            Ok(SpecFrameStep::Ready { .. }) => {
                &&& match r {
                    Err(e) => match s.conn_state@.error {
                        Some(l) => e == l,
                        None => e.code == Code::H3FrameUnexpected,
                    },
                    Ok(_) => false,
                }
                &&& b == (RequestStream { trailers: None, ..s })
            },
            Err(FrameReadError::UnexpectedEnd) => {
                &&& match r {
                    Err(e) => match s.conn_state@.error {
                        Some(l) => e == l,
                        None => e.code == Code::H3FrameError,
                    },
                    Ok(_) => false,
                }
                &&& b == (RequestStream { trailers: None, ..s })
            },
            Err(FrameReadError::Proto(code)) => {
                &&& match r {
                    Err(e) => match s.conn_state@.error {
                        Some(l) => e == l,
                        None => e.code == code,
                    },
                    Ok(_) => false,
                }
                &&& b == (RequestStream { trailers: None, ..s })
            },
        }
    }

    /// Receives the trailers: the stashed or next HEADERS block, once the
    /// end of stream behind it is confirmed. `None` means the stream ended
    /// without trailers. A frame where end of stream is due is
    /// H3_FRAME_UNEXPECTED, reported to the driver. The caller decodes the
    /// returned block and checks the decoded size with
    /// `check_decoded_field_section`.
    pub fn poll_recv_trailers(&mut self) -> (r: Result<RecvTrailers, InternalConnectionError>)
        requires
            old(self).wf(),
            old(self).state != RequestStreamState::Idle,
        ensures
            final(self).wf(),
            Self::same_send_side(*old(self), *final(self)),
            ({
                let s0 = *old(self);
                match s0.trailers {
                    Some(stashed) => Self::trailers_step(
                        (RequestStream { trailers: None, ..s0 }),
                        bytes_view(stashed),
                        *final(self),
                        r,
                    ),
                    None => match spec_next_frame(s0.recv_buf@, s0.recv_pos as int, s0.recv_eos) {
                        Ok(SpecFrameStep::Pending) => r matches Ok(RecvTrailers::Pending)
                            && *final(self) == s0,
                        Ok(SpecFrameStep::End) => r matches Ok(RecvTrailers::NoTrailers)
                            && *final(self) == (RequestStream {
                            state: RequestStreamState::Done,
                            ..s0
                        }),
                        Ok(SpecFrameStep::Skipped { next }) => {
                            &&& r matches Ok(RecvTrailers::Pending)
                            &&& final(self).recv_pos == next
                            &&& *final(self) == (RequestStream {
                                recv_pos: final(self).recv_pos,
                                ..s0
                            })
                        },
                        Ok(SpecFrameStep::Ready { f, next }) => match f {
                            SpecFrame::Headers { block } => Self::trailers_step(
                                (RequestStream { recv_pos: next as usize, ..s0 }),
                                block,
                                *final(self),
                                r,
                            ),
                            _ => match r {
                                Err(e) => (match s0.conn_state@.error {
                                    Some(l) => e == l,
                                    None => e.code == Code::H3FrameUnexpected,
                                }) && *final(self) == s0,
                                Ok(_) => false,
                            },
                        },
                        Err(FrameReadError::UnexpectedEnd) => match r {
                            Err(e) => (match s0.conn_state@.error {
                                Some(l) => e == l,
                                None => e.code == Code::H3FrameError,
                            }) && *final(self) == s0,
                            Ok(_) => false,
                        },
                        Err(FrameReadError::Proto(code)) => match r {
                            Err(e) => (match s0.conn_state@.error {
                                Some(l) => e == l,
                                None => e.code == code,
                            }) && *final(self) == s0,
                            Ok(_) => false,
                        },
                    },
                }
            }),
    {
        let block: bytes::Bytes = match self.trailers.take() {
            Some(b) => b,
            None => {
                // no stashed trailers: the next frame decides
                match next_frame(&self.recv_buf, self.recv_pos, self.recv_eos) {
                    Ok(FrameStep::Pending) => {
                        return Ok(RecvTrailers::Pending);
                    },
                    Ok(FrameStep::End) => {
                        self.state = RequestStreamState::Done;
                        return Ok(RecvTrailers::NoTrailers);
                    },
                    Ok(FrameStep::Skipped(next)) => {
                        self.recv_pos = next;
                        return Ok(RecvTrailers::Pending);
                    },
                    Ok(FrameStep::Ready(frame, next)) => match frame {
                        Frame::Headers(encoded) => {
                            self.recv_pos = next;
                            bytes_from_vec(encoded)
                        },
                        _ => {
                            return Err(
                                self.close(Code::H3FrameUnexpected, "received unexpected frame"),
                            );
                        },
                    },
                    Err(FrameReadError::UnexpectedEnd) => {
                        return Err(self.close(Code::H3FrameError, "received incomplete frame"));
                    },
                    Err(FrameReadError::Proto(code)) => {
                        return Err(
                            self.close(code, "malformed or forbidden frame on request stream"),
                        );
                    },
                }
            },
        };
        // the trailers must be the last frame: end of stream must follow
        match next_frame(&self.recv_buf, self.recv_pos, self.recv_eos) {
            Ok(FrameStep::End) => {
                self.state = RequestStreamState::Done;
                self.trailers = None;
                Ok(RecvTrailers::Block(block))
            },
            Ok(FrameStep::Pending) => {
                self.trailers = Some(block);
                Ok(RecvTrailers::Pending)
            },
            Ok(FrameStep::Skipped(next)) => {
                self.recv_pos = next;
                self.trailers = Some(block);
                Ok(RecvTrailers::Pending)
            },
            Ok(FrameStep::Ready(_, _)) => Err(
                self.close(Code::H3FrameUnexpected, "received unexpected frame"),
            ),
            Err(FrameReadError::UnexpectedEnd) => Err(
                self.close(Code::H3FrameError, "received incomplete frame"),
            ),
            Err(FrameReadError::Proto(code)) => Err(
                self.close(code, "malformed or forbidden frame on request stream"),
            ),
        }
    }

    /// Accepts or refuses a decoded field section of `mem_size` bytes
    /// against this side's limit: too large is an error local to the stream
    /// (the request is abandoned, the connection lives on).
    pub fn check_decoded_field_section(&self, mem_size: u64) -> (r: Result<
        (),
        InternalRequestStreamError,
    >)
        ensures
            r is Ok <==> mem_size <= self.max_field_section_size,
            match r {
                Err(e) => e.scope == ErrorScope::Stream && e.code == Code::H3MessageError,
                Ok(_) => true,
            },
    {
        if mem_size <= self.max_field_section_size {
            Ok(())
        } else {
            Err(
                InternalRequestStreamError::new(
                    ErrorScope::Stream,
                    Code::H3MessageError,
                    "header field section too big",
                ),
            )
        }
    }

    /// Frames a chunk of the body as a DATA frame for the send half.
    pub fn send_data(&mut self, buf: Vec<u8>) -> (r: Vec<u8>)
        requires
            buf@.len() < VARINT_MAX,
        ensures
            r@ == frame_bytes(SpecFrame::Data { payload: buf@ }),
            *final(self) == *old(self),
    {
        encode_frame(&Frame::Data(buf))
    }

    /// Frames an encoded trailer section as a HEADERS frame, refusing it
    /// when its decoded size `mem_size` exceeds the peer's advertised
    /// `max_field_section_size` (RFC 9114 section 4.2.2): the peer would
    /// not process it.
    pub fn send_trailers(&mut self, block: Vec<u8>, mem_size: u64) -> (r: Result<
        Vec<u8>,
        InternalRequestStreamError,
    >)
        requires
            block@.len() < VARINT_MAX,
        ensures
            *final(self) == *old(self),
            r is Ok <==> mem_size <= old(self).conn_state@.peer_config.max_field_section_size,
            match r {
                Ok(bytes) => bytes@ == frame_bytes(SpecFrame::Headers { block: block@ }),
                Err(e) => e.scope == ErrorScope::Stream && e.code == Code::H3MessageError,
            },
    {
        let max_mem_size = self.conn_state.read().peer_config.max_field_section_size;
        if mem_size > max_mem_size {
            return Err(
                InternalRequestStreamError::new(
                    ErrorScope::Stream,
                    Code::H3MessageError,
                    "peer's max_field_section_size exceeded",
                ),
            );
        }
        Ok(encode_frame(&Frame::Headers(block)))
    }

    /// The bytes to write before finishing the send half: one grease frame,
    /// at most once per connection, then nothing ever again.
    pub fn finish(&mut self) -> (r: Vec<u8>)
        ensures
            old(self).send_grease_frame ==> r@ == frame_bytes(SpecFrame::Grease),
            !old(self).send_grease_frame ==> r@.len() == 0,
            *final(self) == (RequestStream { send_grease_frame: false, ..*old(self) }),
    {
        if self.send_grease_frame {
            self.send_grease_frame = false;
            encode_frame(&Frame::Grease)
        } else {
            Vec::new()
        }
    }

    /// Asks the peer to stop sending on this stream; the returned value is
    /// the error code for the transport's STOP_SENDING.
    pub fn stop_sending(&mut self, err_code: Code) -> (r: u64)
        ensures
            r == err_code.spec_value(),
            *final(self) == (RequestStream { state: RequestStreamState::Reset, ..*old(self) }),
    {
        self.state = RequestStreamState::Reset;
        err_code.value()
    }

    /// Stops this stream with an error code; the returned value is the
    /// error code for the transport's RESET_STREAM.
    pub fn stop_stream(&mut self, code: Code) -> (r: u64)
        ensures
            r == code.spec_value(),
            *final(self) == (RequestStream { state: RequestStreamState::Reset, ..*old(self) }),
    {
        self.state = RequestStreamState::Reset;
        code.value()
    }

    /// Splits a bidirectional stream into its send and receive halves: the
    /// receive half keeps the buffered bytes, the stash and the limit; the
    /// send half keeps only what sending needs.
    pub fn split(self) -> (r: (RequestStream, RequestStream))
        ensures
            ({
                let (send, recv) = r;
                &&& send.trailers is None
                &&& send.max_field_section_size == 0
                &&& send.send_grease_frame == self.send_grease_frame
                &&& send.conn_state == self.conn_state
                &&& recv.recv_buf == self.recv_buf
                &&& recv.recv_pos == self.recv_pos
                &&& recv.recv_eos == self.recv_eos
                &&& recv.state == self.state
                &&& recv.trailers == self.trailers
                &&& recv.conn_state == self.conn_state
                &&& recv.max_field_section_size == self.max_field_section_size
                &&& recv.send_grease_frame == self.send_grease_frame
            }),
    {
        let send = RequestStream {
            recv_buf: Vec::new(),
            recv_pos: 0,
            recv_eos: false,
            state: RequestStreamState::Idle,
            trailers: None,
            conn_state: self.conn_state,
            max_field_section_size: 0,
            send_grease_frame: self.send_grease_frame,
            error_sender: clone_report_sender(&self.error_sender),
        };
        let recv = RequestStream {
            recv_buf: self.recv_buf,
            recv_pos: self.recv_pos,
            recv_eos: self.recv_eos,
            state: self.state,
            trailers: self.trailers,
            conn_state: self.conn_state,
            max_field_section_size: self.max_field_section_size,
            send_grease_frame: self.send_grease_frame,
            error_sender: self.error_sender,
        };
        (send, recv)
    }
}

/// A receive event on a request stream, abstracted to what the sequencing
/// rules see: the frame kind, or the end of the stream.
#[derive(Clone, Copy, Debug, PartialEq, Eq, Structural)]
pub enum ReqEvent {
    /// A HEADERS frame.
    Headers,
    /// A DATA frame.
    Data,
    /// Any other frame.
    Other,
    /// Clean end of stream.
    Eos,
}

/// The request stream's sequencing rule, one event at a time: the very
/// transition `poll_recv_data` and `poll_recv_trailers` make. Every
/// violation is H3_FRAME_UNEXPECTED (RFC 9114 section 4.1).
pub open spec fn spec_request_step(s: RequestStreamState, ev: ReqEvent) -> Result<
    RequestStreamState,
    Code,
> {
    match s {
        RequestStreamState::Idle => match ev {
            ReqEvent::Headers => Ok(RequestStreamState::BodyOrTrailers),
            _ => Err(Code::H3FrameUnexpected),
        },
        RequestStreamState::BodyOrTrailers => match ev {
            ReqEvent::Data => Ok(RequestStreamState::BodyOrTrailers),
            ReqEvent::Headers => Ok(RequestStreamState::TrailersStashed),
            ReqEvent::Eos => Ok(RequestStreamState::Done),
            ReqEvent::Other => Err(Code::H3FrameUnexpected),
        },
        RequestStreamState::TrailersStashed => match ev {
            ReqEvent::Eos => Ok(RequestStreamState::Done),
            _ => Err(Code::H3FrameUnexpected),
        },
        RequestStreamState::Done => Err(Code::H3FrameUnexpected),
        RequestStreamState::Reset => Err(Code::H3FrameUnexpected),
    }
}

/// The state a whole trace of events leaves behind, or the first refusal.
pub open spec fn spec_request_trace(s: RequestStreamState, evs: Seq<ReqEvent>) -> Result<
    RequestStreamState,
    Code,
>
    decreases evs.len(),
{
    if evs.len() == 0 {
        Ok(s)
    } else {
        match spec_request_step(s, evs[0]) {
            Err(c) => Err(c),
            Ok(s2) => spec_request_trace(s2, evs.drop_first()),
        }
    }
}

/// Every event strictly before `k` is a DATA frame.
pub open spec fn all_data_before(evs: Seq<ReqEvent>, k: int) -> bool {
    forall|i: int| 0 <= i < k ==> evs[i] == ReqEvent::Data
}

/// After the initial HEADERS, the trace reads `DATA* · HEADERS? · EOS` with
/// the data run ending at `k`.
pub open spec fn body_valid_at(evs: Seq<ReqEvent>, k: int) -> bool {
    &&& 0 <= k < evs.len()
    &&& all_data_before(evs, k)
    &&& ((k == evs.len() - 1 && evs[k] == ReqEvent::Eos) || (k == evs.len() - 2 && evs[k]
        == ReqEvent::Headers && evs[k + 1] == ReqEvent::Eos))
}

/// The trace after the initial HEADERS reads `DATA* · HEADERS? · EOS`.
pub open spec fn body_valid(evs: Seq<ReqEvent>) -> bool {
    exists|k: int| body_valid_at(evs, k)
}

/// The whole trace reads `HEADERS · DATA* · HEADERS? · EOS`.
pub open spec fn is_valid_request_trace(evs: Seq<ReqEvent>) -> bool {
    evs.len() >= 1 && evs[0] == ReqEvent::Headers && body_valid(evs.skip(1))
}

/// From the body state, a trace runs to completion exactly when it reads
/// `DATA* · HEADERS? · EOS`.
proof fn lemma_body_trace(evs: Seq<ReqEvent>)
    ensures
        spec_request_trace(RequestStreamState::BodyOrTrailers, evs) == Ok::<
            RequestStreamState,
            Code,
        >(RequestStreamState::Done) <==> body_valid(evs),
    decreases evs.len(),
{
    if evs.len() == 0 {
        assert(!body_valid(evs));
    } else {
        let rest = evs.drop_first();
        if evs[0] == ReqEvent::Eos {
            if rest.len() == 0 {
                assert(spec_request_trace(RequestStreamState::Done, rest) == Ok::<
                    RequestStreamState,
                    Code,
                >(RequestStreamState::Done));
                assert(body_valid_at(evs, 0));
            } else {
                assert(spec_request_trace(RequestStreamState::Done, rest) is Err);
                assert(!body_valid(evs)) by {
                    assert forall|k: int| !body_valid_at(evs, k) by {
                        if 0 <= k < evs.len() && all_data_before(evs, k) {
                            if k >= 1 {
                                assert(evs[0] == ReqEvent::Data);
                            }
                        }
                    }
                }
            }
        } else if evs[0] == ReqEvent::Data {
            lemma_body_trace(rest);
            if body_valid(rest) {
                let k = choose|k: int| body_valid_at(rest, k);
                assert(body_valid_at(evs, k + 1)) by {
                    assert forall|i: int| 0 <= i < k + 1 implies evs[i] == ReqEvent::Data by {
                        if i >= 1 {
                            assert(rest[i - 1] == ReqEvent::Data);
                        }
                    }
                    assert(evs[k + 1] == rest[k]);
                    if k == rest.len() - 2 {
                        assert(evs[k + 2] == rest[k + 1]);
                    }
                }
            }
            if body_valid(evs) {
                let k = choose|k: int| body_valid_at(evs, k);
                assert(k >= 1) by {
                    if k == 0 {
                        assert(evs[0] == ReqEvent::Eos || evs[0] == ReqEvent::Headers);
                    }
                }
                assert(body_valid_at(rest, k - 1)) by {
                    assert forall|i: int| 0 <= i < k - 1 implies rest[i] == ReqEvent::Data by {
                        assert(evs[i + 1] == ReqEvent::Data);
                    }
                    assert(rest[k - 1] == evs[k]);
                    if k == evs.len() - 2 {
                        assert(rest[k] == evs[k + 1]);
                    }
                }
            }
        } else if evs[0] == ReqEvent::Headers {
            if rest.len() == 0 {
                assert(!body_valid(evs)) by {
                    assert forall|k: int| !body_valid_at(evs, k) by {}
                }
            } else {
                let rr = rest.drop_first();
                if rest[0] == ReqEvent::Eos {
                    if rr.len() == 0 {
                        assert(spec_request_trace(RequestStreamState::TrailersStashed, rest)
                            == spec_request_trace(RequestStreamState::Done, rr));
                        assert(body_valid_at(evs, 0));
                    } else {
                        assert(spec_request_trace(RequestStreamState::Done, rr) is Err);
                        assert(!body_valid(evs)) by {
                            assert forall|k: int| !body_valid_at(evs, k) by {
                                if 0 <= k < evs.len() && all_data_before(evs, k) {
                                    if k >= 1 {
                                        assert(evs[0] == ReqEvent::Data);
                                    } else {
                                        assert(evs.len() >= 3);
                                        assert(evs[1] == rest[0]);
                                    }
                                }
                            }
                        }
                    }
                } else {
                    assert(spec_request_step(RequestStreamState::TrailersStashed, rest[0]) is Err);
                    assert(!body_valid(evs)) by {
                        assert forall|k: int| !body_valid_at(evs, k) by {
                            if 0 <= k < evs.len() && all_data_before(evs, k) {
                                if k >= 1 {
                                    assert(evs[0] == ReqEvent::Data);
                                } else {
                                    assert(evs[1] == rest[0]);
                                }
                            }
                        }
                    }
                }
            }
        } else {
            assert(!body_valid(evs)) by {
                assert forall|k: int| !body_valid_at(evs, k) by {
                    if 0 <= k < evs.len() && all_data_before(evs, k) {
                        if k >= 1 {
                            assert(evs[0] == ReqEvent::Data);
                        }
                    }
                }
            }
        }
    }
}

/// The observed frame sequence of a request stream belongs to
/// `HEADERS · DATA* · HEADERS? · EOS` exactly when the sequencing rule runs
/// the stream from idle to done; any other sequence is refused, and the
/// refusal is always H3_FRAME_UNEXPECTED.
pub proof fn lemma_request_frame_sequence(evs: Seq<ReqEvent>)
    ensures
        spec_request_trace(RequestStreamState::Idle, evs) == Ok::<RequestStreamState, Code>(
            RequestStreamState::Done,
        ) <==> is_valid_request_trace(evs),
        spec_request_trace(RequestStreamState::Idle, evs) matches Err(c) ==> c
            == Code::H3FrameUnexpected,
{
    if evs.len() == 0 {
        assert(!is_valid_request_trace(evs));
    } else {
        let rest = evs.drop_first();
        assert(rest =~= evs.skip(1));
        if evs[0] == ReqEvent::Headers {
            lemma_body_trace(rest);
            lemma_request_err_code(RequestStreamState::BodyOrTrailers, rest);
        } else {
            assert(!is_valid_request_trace(evs));
        }
    }
}

/// Every refusal of the sequencing rule is H3_FRAME_UNEXPECTED.
proof fn lemma_request_err_code(s: RequestStreamState, evs: Seq<ReqEvent>)
    ensures
        spec_request_trace(s, evs) matches Err(c) ==> c == Code::H3FrameUnexpected,
    decreases evs.len(),
{
    if evs.len() > 0 {
        match spec_request_step(s, evs[0]) {
            Err(_) => {},
            Ok(s2) => {
                lemma_request_err_code(s2, evs.drop_first());
            },
        }
    }
}

} // verus!
