//! The connection driver: owns one QUIC connection's critical streams,
//! classifies inbound unidirectional streams, validates the control stream's
//! frame order, enforces GOAWAY monotonicity, drives the grease stream and
//! the terminal-error latch.
//!
//! The transport is asynchronous and outside this crate. Every operation
//! here consumes transport events as plain values (bytes that arrived,
//! results of stream operations) and returns the bytes to write or the
//! actions to perform, so the whole decision core is verified while the I/O
//! stays in the caller.
//!
//! The local control send half is never finished or reset while the
//! connection lives: no operation of this interface can do either — the
//! driver can only append frames to it, recorded in its write log, whose
//! first entry is always the SETTINGS frame.
use vstd::prelude::*;

use crate::error::{Code, InternalConnectionError};
use crate::frame::{
    encode_frame, frame_bytes, settings_payload_bytes, wf_pairs, Frame, SpecFrame,
    SETTINGS_ENABLE_WEBTRANSPORT, SETTINGS_H3_DATAGRAM, SETTINGS_MAX_FIELD_SECTION_SIZE,
};
use crate::report::{clone_report_sender, report_channel, try_recv_report, ErrorReport};
use crate::shared::{default_settings, ConnectionState, Settings, SharedState, SharedStateRef};
use crate::stream_type::{resolve_uni_header, ResolvedStreamType, STREAM_TYPE_CONTROL,
    STREAM_TYPE_DECODER, STREAM_TYPE_ENCODER};
use crate::varint::{encode_varint, varint_bytes, VARINT_MAX};

verus! {

/// Connection configuration: the local settings to announce and whether to
/// exercise the grease paths.
#[derive(Clone, Copy, Debug)]
pub struct Config {
    /// Send a grease stream and a grease frame once per connection.
    pub send_grease: bool,
    /// The local settings, announced in the first control frame.
    pub settings: Settings,
    /// How many WebTransport streams may wait for their session before
    /// further ones are rejected.
    pub wt_stream_buffer_limit: usize,
}

/// The settings pairs announced for the local configuration.
pub open spec fn spec_settings_pairs(s: Settings) -> Seq<(u64, u64)> {
    seq![(SETTINGS_MAX_FIELD_SECTION_SIZE, s.max_field_section_size)] + (if s.enable_datagram {
        seq![(SETTINGS_H3_DATAGRAM, 1u64)]
    } else {
        Seq::empty()
    }) + (if s.enable_webtransport {
        seq![(SETTINGS_ENABLE_WEBTRANSPORT, 1u64)]
    } else {
        Seq::empty()
    })
}

/// Builds the settings pairs for the local configuration.
pub fn settings_pairs(s: &Settings) -> (r: Vec<(u64, u64)>)
    ensures
        r@ == spec_settings_pairs(*s),
{
    let mut out: Vec<(u64, u64)> = Vec::new();
    out.push((SETTINGS_MAX_FIELD_SECTION_SIZE, s.max_field_section_size));
    if s.enable_datagram {
        out.push((SETTINGS_H3_DATAGRAM, 1));
    }
    if s.enable_webtransport {
        out.push((SETTINGS_ENABLE_WEBTRANSPORT, 1));
    }
    assert(out@ =~= spec_settings_pairs(*s));
    out
}

/// A settings payload takes at most sixteen bytes for each pair.
proof fn lemma_spb_len(pairs: Seq<(u64, u64)>)
    ensures
        settings_payload_bytes(pairs).len() <= 16 * pairs.len(),
    decreases pairs.len(),
{
    if pairs.len() > 0 {
        lemma_spb_len(pairs.drop_first());
    }
}

/// The grease stream's progress, advanced step by step and never retried
/// after a failure.
#[derive(Clone, Copy, Debug, PartialEq, Eq, Structural)]
pub enum GreaseStatus {
    /// Grease stream is not started.
    NotStarted,
    /// Grease stream is open, nothing written yet.
    Started,
    /// Grease data is handed to the transport, not yet flushed.
    DataPrepared,
    /// Grease data is flushed.
    DataSent,
    /// Grease stream is finished.
    Finished,
}

/// How far the grease stream has come; failures stop it in place.
pub open spec fn grease_rank(g: GreaseStatus) -> int {
    match g {
        GreaseStatus::NotStarted => 0,
        GreaseStatus::Started => 1,
        GreaseStatus::DataPrepared => 2,
        GreaseStatus::DataSent => 3,
        GreaseStatus::Finished => 4,
    }
}

/// What the transport answered to the grease step in progress.
#[derive(Clone, Copy, Debug, PartialEq, Eq, Structural)]
pub enum GreaseStepOutcome {
    /// No progress is possible yet; try again later.
    Pending,
    /// The operation succeeded.
    Ready,
    /// The operation failed; the grease stream is abandoned for good.
    Failed,
}

/// What the caller must do next for the grease stream.
#[derive(Clone, Debug)]
pub enum GreaseAction {
    /// Write these bytes on the grease stream.
    SendBytes(Vec<u8>),
    /// Flush the grease stream.
    Flush,
    /// Finish the grease stream cleanly.
    Finish,
}

/// An action the transport must perform on an inbound stream.
#[derive(Clone, Copy, Debug, PartialEq, Eq, Structural)]
pub enum Action {
    /// Issue STOP_SENDING with this code on that stream.
    StopSending { stream: u64, code: Code },
    /// Reset that stream with this code.
    ResetStream { stream: u64, code: Code },
}

/// An inbound unidirectional stream whose type varint has not resolved yet,
/// with the bytes read so far.
#[derive(Clone, Debug)]
pub struct PendingRecvStream {
    /// The transport's handle for the stream.
    pub stream: u64,
    /// Header bytes received so far.
    pub buf: Vec<u8>,
}

/// WebTransport streams buffered until their session is established, as
/// (session id, stream handle) pairs.
pub struct AcceptedStreams {
    /// The buffered WebTransport unidirectional streams.
    pub wt_uni_streams: Vec<(u64, u64)>,
}

impl Default for AcceptedStreams {
    /// No stream waits at first.
    fn default() -> (r: Self)
        ensures
            r.wt_uni_streams@ == Seq::<(u64, u64)>::empty(),
    {
        AcceptedStreams { wt_uni_streams: Vec::new() }
    }
}

/// A transport event concerning an inbound unidirectional stream.
#[derive(Clone, Debug)]
pub enum UniStreamEvent {
    /// The transport yielded a new inbound unidirectional stream.
    New { stream: u64 },
    /// Bytes arrived on an inbound unidirectional stream.
    Bytes { stream: u64, bytes: Vec<u8> },
    /// The stream ended cleanly.
    Eos { stream: u64 },
    /// The peer reset the stream.
    Reset { stream: u64 },
}

/// The bytes to write when the connection starts: the control stream header
/// with the SETTINGS frame, and the QPACK stream headers where those
/// streams could be opened.
pub struct StartupWrites {
    /// First bytes of the local control stream: stream type then SETTINGS.
    pub control: Vec<u8>,
    /// First byte of the QPACK encoder stream, if it is open.
    pub encoder: Option<Vec<u8>>,
    /// First byte of the QPACK decoder stream, if it is open.
    pub decoder: Option<Vec<u8>>,
}

/// What a control poll yielded.
#[derive(Clone, Debug)]
pub enum ControlPoll {
    /// Nothing can be done before more bytes arrive.
    Pending,
    /// Progress was made but there is nothing to forward (a skipped frame).
    Nothing,
    /// A control frame to forward upward.
    Frame(Frame),
}

/// The driver of one HTTP/3 connection.
pub struct ConnectionInner {
    /// The shared record: peer settings, terminal error, closing flag.
    pub shared: SharedStateRef,
    /// Handle of the peer's control stream, once bound.
    pub control_recv: Option<u64>,
    /// Unread bytes of the peer's control stream.
    pub control_recv_buf: Vec<u8>,
    /// How much of `control_recv_buf` is already consumed.
    pub control_recv_pos: usize,
    /// The peer's control stream ended cleanly.
    pub control_recv_eos: bool,
    /// The peer's control stream was reset.
    pub control_recv_reset: bool,
    /// Handle of the peer's QPACK encoder stream, once bound.
    pub encoder_recv: Option<u64>,
    /// Handle of the peer's QPACK decoder stream, once bound.
    pub decoder_recv: Option<u64>,
    /// The local QPACK encoder send half is open.
    pub encoder_send: bool,
    /// The local QPACK decoder send half is open.
    pub decoder_send: bool,
    /// Buffered WebTransport streams awaiting their session.
    pub accepted_streams: AcceptedStreams,
    /// Inbound unidirectional streams whose type has not resolved yet.
    pub pending_recv_streams: Vec<PendingRecvStream>,
    /// The peer's SETTINGS frame has arrived.
    pub got_peer_settings: bool,
    /// A grease frame may still be sent on a request stream.
    pub send_grease_frame: bool,
    /// The grease stream should still be driven.
    pub send_grease_stream_flag: bool,
    /// Step of the grease stream.
    pub grease_step: GreaseStatus,
    /// The connection's configuration.
    pub config: Config,
    /// Producer half of the error-report channel, cloned into every request
    /// stream.
    pub error_sender: tokio::sync::mpsc::UnboundedSender<ErrorReport>,
    /// Consumer half of the error-report channel, drained on every poll.
    pub error_getter: tokio::sync::mpsc::UnboundedReceiver<ErrorReport>,
    /// The frames written on the local control stream, in order.
    pub control_log: Ghost<Seq<SpecFrame>>,
}

impl ConnectionInner {
    /// The driver's structural invariant: the local SETTINGS frame stands
    /// first in the control stream's write log, and the control reader's
    /// cursor is inside its buffer.
    pub open spec fn wf(self) -> bool {
        &&& self.config.settings.max_field_section_size < VARINT_MAX
        &&& self.control_recv_pos <= self.control_recv_buf@.len()
        &&& self.control_log@.len() >= 1
        &&& self.control_log@[0] is Settings
    }

    /// The latched terminal error, if any.
    pub open spec fn spec_conn_error(self) -> Option<InternalConnectionError> {
        self.shared@.error
    }

    /// Everything but the shared record and the control write log is the
    /// same in `a` and `b`.
    pub open spec fn same_but_shared(a: ConnectionInner, b: ConnectionInner) -> bool {
        &&& a.control_recv == b.control_recv
        &&& a.control_recv_buf == b.control_recv_buf
        &&& a.control_recv_pos == b.control_recv_pos
        &&& a.control_recv_eos == b.control_recv_eos
        &&& a.control_recv_reset == b.control_recv_reset
        &&& a.encoder_recv == b.encoder_recv
        &&& a.decoder_recv == b.decoder_recv
        &&& a.encoder_send == b.encoder_send
        &&& a.decoder_send == b.decoder_send
        &&& a.accepted_streams.wt_uni_streams == b.accepted_streams.wt_uni_streams
        &&& a.pending_recv_streams == b.pending_recv_streams
        &&& a.got_peer_settings == b.got_peer_settings
        &&& a.send_grease_frame == b.send_grease_frame
        &&& a.send_grease_stream_flag == b.send_grease_stream_flag
        &&& a.grease_step == b.grease_step
        &&& a.config == b.config
        &&& a.control_log == b.control_log
    }

    /// Nothing at all changed between `a` and `b` but the channel handles,
    /// which Verus does not compare.
    pub open spec fn same_state(a: ConnectionInner, b: ConnectionInner) -> bool {
        Self::same_but_shared(a, b) && a.shared@ == b.shared@
    }

    /// Latches a connection error (first fatal wins) and returns the error
    /// every later operation will report.
    fn handle_connection_error(&mut self, e: InternalConnectionError) -> (r:
        InternalConnectionError)
        ensures
            Self::same_but_shared(*old(self), *final(self)),
            final(self).shared@.closing == old(self).shared@.closing,
            final(self).shared@.peer_config == old(self).shared@.peer_config,
            final(self).shared@.error == match old(self).shared@.error {
                Some(prev) => Some(prev),
                None => Some(e),
            },
            Some(r) == final(self).shared@.error,
    {
        self.shared.write().set_error(e);
        match self.shared.read().error {
            Some(latched) => latched,
            None => e,  // unreachable: the latch was just set
        }
    }

    /// Latches a terminal error and reports what the transport must be
    /// closed with: the first fatal error wins, and every later public
    /// operation returns it. The caller closes the QUIC connection with
    /// the returned code and message.
    pub fn close_connection(&mut self, code: Code, message: &'static str) -> (r:
        InternalConnectionError)
        ensures
            Self::same_but_shared(*old(self), *final(self)),
            final(self).shared@.closing == old(self).shared@.closing,
            final(self).shared@.peer_config == old(self).shared@.peer_config,
            final(self).shared@.error == match old(self).shared@.error {
                Some(prev) => Some(prev),
                None => Some(InternalConnectionError { code, message }),
            },
            Some(r) == final(self).shared@.error,
    {
        let e = InternalConnectionError::new(code, message);
        self.handle_connection_error(e)
    }

    /// The latched terminal error, if any.
    pub fn get_conn_error(&self) -> (r: Option<InternalConnectionError>)
        ensures
            r == self.spec_conn_error(),
    {
        match self.shared.read().error {
            Some(e) => Some(e),
            None => None,
        }
    }

    /// Builds the first bytes of the local unidirectional streams: the
    /// control stream type followed by the local SETTINGS frame, and the
    /// QPACK stream types for the halves that are open. The SETTINGS frame
    /// is thereby the first frame on the control stream.
    pub fn send_control_stream_headers(&mut self) -> (w: StartupWrites)
        requires
            old(self).config.settings.max_field_section_size < VARINT_MAX,
        ensures
            w.control@ == varint_bytes(STREAM_TYPE_CONTROL) + frame_bytes(
                SpecFrame::Settings { pairs: spec_settings_pairs(old(self).config.settings) },
            ),
            w.encoder is Some <==> old(self).encoder_send,
            w.decoder is Some <==> old(self).decoder_send,
            w.encoder matches Some(b) ==> b@ == varint_bytes(STREAM_TYPE_ENCODER),
            w.decoder matches Some(b) ==> b@ == varint_bytes(STREAM_TYPE_DECODER),
            final(self).control_log@ == old(self).control_log@ + seq![
                SpecFrame::Settings { pairs: spec_settings_pairs(old(self).config.settings) },
            ],
            Self::same_but_shared(
                ConnectionInner { control_log: final(self).control_log, ..*old(self) },
                *final(self),
            ),
            final(self).shared@ == old(self).shared@,
    {
        let pairs = settings_pairs(&self.config.settings);
        proof {
            assert(wf_pairs(pairs@));
            lemma_spb_len(pairs@);
        }
        let settings = Frame::Settings(pairs);
        let mut control: Vec<u8> = Vec::new();
        encode_varint(STREAM_TYPE_CONTROL, &mut control);
        let frame = encode_frame(&settings);
        let mut k: usize = 0;
        while k < frame.len()
            invariant
                k <= frame@.len(),
                control@ == varint_bytes(STREAM_TYPE_CONTROL) + frame@.subrange(0, k as int),
            decreases frame@.len() - k,
        {
            control.push(frame[k]);
            assert(control@ =~= varint_bytes(STREAM_TYPE_CONTROL) + frame@.subrange(0, k + 1));
            k = k + 1;
        }
        assert(control@ =~= varint_bytes(STREAM_TYPE_CONTROL) + frame@);
        let encoder = if self.encoder_send {
            let mut b: Vec<u8> = Vec::new();
            encode_varint(STREAM_TYPE_ENCODER, &mut b);
            Some(b)
        } else {
            None
        };
        let decoder = if self.decoder_send {
            let mut b: Vec<u8> = Vec::new();
            encode_varint(STREAM_TYPE_DECODER, &mut b);
            Some(b)
        } else {
            None
        };
        self.control_log = Ghost(
            self.control_log@ + seq![
                SpecFrame::Settings { pairs: spec_settings_pairs(self.config.settings) },
            ],
        );
        StartupWrites { control, encoder, decoder }
    }

    /// Builds a ready driver. The caller has already opened the local
    /// control send stream (a failure there is a transport error before any
    /// HTTP/3 decision arises) and reports whether the optional QPACK
    /// encoder and decoder streams could be opened; a failure there merely
    /// disables the role. The returned writes carry the SETTINGS frame as
    /// the first frame of the control stream.
    pub fn new(encoder_open: bool, decoder_open: bool, config: Config) -> (r: (
        ConnectionInner,
        StartupWrites,
    ))
        requires
            config.settings.max_field_section_size < VARINT_MAX,
        ensures
            ({
                let (c, w) = r;
                &&& c.wf()
                &&& c.shared@.error is None
                &&& !c.shared@.closing
                &&& c.shared@.peer_config == default_settings()
                &&& c.control_recv is None
                &&& c.encoder_recv is None
                &&& c.decoder_recv is None
                &&& c.encoder_send == encoder_open
                &&& c.decoder_send == decoder_open
                &&& !c.got_peer_settings
                &&& c.grease_step == GreaseStatus::NotStarted
                &&& c.send_grease_stream_flag == config.send_grease
                &&& c.send_grease_frame == config.send_grease
                &&& c.config == config
                &&& c.pending_recv_streams@.len() == 0
                &&& c.accepted_streams.wt_uni_streams@.len() == 0
                &&& c.control_log@ == seq![
                    SpecFrame::Settings { pairs: spec_settings_pairs(config.settings) },
                ]
                &&& w.control@ == varint_bytes(STREAM_TYPE_CONTROL) + frame_bytes(
                    SpecFrame::Settings { pairs: spec_settings_pairs(config.settings) },
                )
                &&& (w.encoder is Some <==> encoder_open)
                &&& (w.decoder is Some <==> decoder_open)
            }),
    {
        let (sender, receiver) = report_channel();
        let ghost initial_log: Seq<SpecFrame> = Seq::empty();
        let mut conn = ConnectionInner {
            shared: SharedStateRef::default(),
            control_recv: None,
            control_recv_buf: Vec::new(),
            control_recv_pos: 0,
            control_recv_eos: false,
            control_recv_reset: false,
            encoder_recv: None,
            decoder_recv: None,
            encoder_send: encoder_open,
            decoder_send: decoder_open,
            accepted_streams: AcceptedStreams::default(),
            pending_recv_streams: Vec::new(),
            got_peer_settings: false,
            send_grease_frame: config.send_grease,
            send_grease_stream_flag: config.send_grease,
            grease_step: GreaseStatus::NotStarted,
            config,
            error_sender: sender,
            error_getter: receiver,
            control_log: Ghost(initial_log),
        };
        let writes = conn.send_control_stream_headers();
        proof {
            assert(conn.control_log@ =~= seq![
                SpecFrame::Settings { pairs: spec_settings_pairs(config.settings) },
            ]);
        }
        (conn, writes)
    }

    /// A clone of the error-report sender, for a request stream.
    pub fn error_sender(&self) -> tokio::sync::mpsc::UnboundedSender<ErrorReport> {
        clone_report_sender(&self.error_sender)
    }

    /// What `shutdown` decides: whether a GOAWAY with `max_id` goes on the
    /// wire, and the recorded last sent id afterwards. An id above an
    /// earlier one is refused; an equal or smaller one is re-sent.
    pub open spec fn spec_shutdown(sent_closing: Option<u64>, max_id: u64) -> (Option<u64>, bool) {
        match sent_closing {
            Some(prev) => if max_id > prev {
                (Some(prev), false)
            } else {
                (Some(max_id), true)
            },
            None => (Some(max_id), true),
        }
    }

    /// Starts graceful shutdown: records `max_id`, sets the closing flag
    /// and yields the GOAWAY frame bytes for the control stream — unless a
    /// greater id than an earlier one was asked, which is a no-op, or a
    /// terminal error is latched, which is returned instead.
    pub fn shutdown(&mut self, sent_closing: &mut Option<u64>, max_id: u64) -> (r: Result<
        Option<Vec<u8>>,
        InternalConnectionError,
    >)
        requires
            old(self).wf(),
            max_id < VARINT_MAX,
        ensures
            final(self).wf(),
            match old(self).shared@.error {
                Some(e) => r == Err::<Option<Vec<u8>>, InternalConnectionError>(e)
                    && Self::same_state(*old(self), *final(self)) && *final(sent_closing) == *old(sent_closing),
                None => {
                    let (sent, emit) = Self::spec_shutdown(*old(sent_closing), max_id);
                    &&& *final(sent_closing) == sent
                    &&& final(self).shared@.error is None
                    &&& final(self).shared@.peer_config == old(self).shared@.peer_config
                    &&& if emit {
                        &&& r matches Ok(Some(bytes)) && bytes@ == frame_bytes(
                            SpecFrame::Goaway { id: max_id },
                        )
                        &&& final(self).shared@.closing
                        &&& final(self).control_log@ == old(self).control_log@ + seq![
                            SpecFrame::Goaway { id: max_id },
                        ]
                        &&& Self::same_but_shared(
                            ConnectionInner { control_log: final(self).control_log, ..*old(self) },
                            *final(self),
                        )
                    } else {
                        r == Ok::<Option<Vec<u8>>, InternalConnectionError>(None)
                            && Self::same_state(*old(self), *final(self))
                    }
                },
            },
    {
        if let Some(e) = self.get_conn_error() {
            return Err(e);
        }
        if let Some(prev) = *sent_closing {
            if max_id > prev {
                return Ok(None);
            }
        }
        *sent_closing = Some(max_id);
        self.shared.write().closing = true;
        let frame = Frame::Goaway(max_id);
        let bytes = encode_frame(&frame);
        self.control_log = Ghost(self.control_log@ + seq![SpecFrame::Goaway { id: max_id }]);
        Ok(Some(bytes))
    }

    /// What `process_goaway` decides for a received GOAWAY carrying `id`:
    /// `Ok` with the new recorded id, or the H3_ID_ERROR refusal when the
    /// id grew.
    pub open spec fn spec_process_goaway(recv_closing: Option<u64>, id: u64) -> Result<
        Option<u64>,
        Code,
    > {
        match recv_closing {
            Some(prev) => if prev < id {
                Err(Code::H3IdError)
            } else {
                Ok(Some(id))
            },
            None => Ok(Some(id)),
        }
    }

    /// Handles a GOAWAY received on the control stream: records the id and
    /// sets the closing flag, but refuses an id greater than an earlier one
    /// with H3_ID_ERROR, latching it as the connection's terminal error.
    pub fn process_goaway(&mut self, recv_closing: &mut Option<u64>, id: u64) -> (r: Result<
        (),
        InternalConnectionError,
    >)
        requires
            old(self).wf(),
        ensures
            final(self).wf(),
            match old(self).shared@.error {
                Some(e) => r == Err::<(), InternalConnectionError>(e) && Self::same_state(
                    *old(self),
                    *final(self),
                ) && *final(recv_closing) == *old(recv_closing),
                None => match Self::spec_process_goaway(*old(recv_closing), id) {
                    Ok(recorded) => {
                        &&& r is Ok
                        &&& *final(recv_closing) == recorded
                        &&& final(self).shared@.closing
                        &&& final(self).shared@.error is None
                        &&& final(self).shared@.peer_config == old(self).shared@.peer_config
                        &&& Self::same_but_shared(*old(self), *final(self))
                    },
                    Err(code) => {
                        &&& r matches Err(e) && e.code == code
                        &&& *final(recv_closing) == *old(recv_closing)
                        &&& final(self).shared@.error matches Some(l) && l.code == code
                        &&& Self::same_but_shared(*old(self), *final(self))
                    },
                },
            },
    {
        if let Some(e) = self.get_conn_error() {
            return Err(e);
        }
        if let Some(prev) = *recv_closing {
            if prev < id {
                return Err(
                    self.handle_connection_error(
                        InternalConnectionError::new(
                            Code::H3IdError,
                            "received a GOAWAY with a greater id than the former one",
                        ),
                    ),
                );
            }
        }
        *recv_closing = Some(id);
        if !self.shared.read().closing {
            self.shared.write().closing = true;
        }
        Ok(())
    }
}

/// The effect of one settings entry on a `Settings` record; identifiers not
/// modelled here are carried in the frame but change nothing.
pub open spec fn spec_apply_setting(s: Settings, id: u64, value: u64) -> Settings {
    if id == SETTINGS_MAX_FIELD_SECTION_SIZE {
        Settings { max_field_section_size: value, ..s }
    } else if id == SETTINGS_ENABLE_WEBTRANSPORT {
        Settings { enable_webtransport: value == 1, ..s }
    } else if id == SETTINGS_H3_DATAGRAM {
        Settings { enable_datagram: value == 1, ..s }
    } else {
        s
    }
}

/// The `Settings` record a SETTINGS frame's pairs denote, applied in order
/// over the defaults.
pub open spec fn spec_settings_from_pairs(pairs: Seq<(u64, u64)>) -> Settings
    decreases pairs.len(),
{
    if pairs.len() == 0 {
        default_settings()
    } else {
        spec_apply_setting(
            spec_settings_from_pairs(pairs.drop_last()),
            pairs.last().0,
            pairs.last().1,
        )
    }
}

/// Reads a SETTINGS frame's pairs into a `Settings` record.
pub fn settings_from_pairs(pairs: &Vec<(u64, u64)>) -> (r: Settings)
    ensures
        r == spec_settings_from_pairs(pairs@),
{
    let mut acc = Settings::default();
    let mut i: usize = 0;
    while i < pairs.len()
        invariant
            i <= pairs@.len(),
            acc == spec_settings_from_pairs(pairs@.take(i as int)),
        decreases pairs@.len() - i,
    {
        let (id, value) = pairs[i];
        if id == SETTINGS_MAX_FIELD_SECTION_SIZE {
            acc.max_field_section_size = value;
        } else if id == SETTINGS_ENABLE_WEBTRANSPORT {
            acc.enable_webtransport = value == 1;
        } else if id == SETTINGS_H3_DATAGRAM {
            acc.enable_datagram = value == 1;
        }
        proof {
            assert(pairs@.take(i + 1).drop_last() =~= pairs@.take(i as int));
            assert(pairs@.take(i + 1).last() == pairs@[i as int]);
        }
        i = i + 1;
    }
    assert(pairs@.take(pairs@.len() as int) =~= pairs@);
    acc
}

/// The control-stream state machine's answer to one parsed frame:
/// `Ok(true)` publishes settings, `Ok(false)` forwards the frame upward,
/// `Err` names the connection error (RFC 9114 sections 6.2.1 and 7.2.4).
pub open spec fn spec_control_frame(got_peer_settings: bool, f: SpecFrame) -> Result<bool, Code> {
    match f {
        SpecFrame::Settings { .. } => if got_peer_settings {
            Err(Code::H3FrameUnexpected)
        } else {
            Ok(true)
        },
        SpecFrame::Goaway { .. } | SpecFrame::CancelPush { .. } | SpecFrame::MaxPushId { .. } => if !got_peer_settings {
            Err(Code::H3MissingSettings)
        } else {
            Ok(false)
        },
        SpecFrame::Data { .. } | SpecFrame::Headers { .. } | SpecFrame::Grease => if !got_peer_settings {
            Err(Code::H3MissingSettings)
        } else {
            Err(Code::H3FrameUnexpected)
        },
    }
}

impl ConnectionInner {
    /// `e` is what a faulting operation returned, given that it wanted to
    /// fail with `code`: the latch's first error wins, and afterwards the
    /// latch holds `e`. The closing flag and peer settings are untouched.
    pub open spec fn latched_error_result(
        a: ConnectionInner,
        b: ConnectionInner,
        e: InternalConnectionError,
        code: Code,
    ) -> bool {
        &&& match a.shared@.error {
            Some(prev) => e == prev && b.shared@.error == Some(prev),
            None => e.code == code && b.shared@.error == Some(e),
        }
        &&& b.shared@.closing == a.shared@.closing
        &&& b.shared@.peer_config == a.shared@.peer_config
        &&& Self::same_but_shared(a, b)
    }

    /// Checks the error-report channel; a queued report from a request
    /// stream comes back as the connection error to close with. The state
    /// is untouched either way; which report arrives, if any, depends on
    /// what the request streams sent.
    pub fn poll_check_stream_errors(&mut self) -> (r: Result<(), InternalConnectionError>)
        ensures
            Self::same_state(*old(self), *final(self)),
    {
        match try_recv_report(&mut self.error_getter) {
            Some(report) => Err(InternalConnectionError::new(report.code, report.message)),
            None => Ok(()),
        }
    }

    /// Admits the next inbound bidirectional stream: the transport is
    /// polled by the caller; this gate refuses once a terminal error is
    /// latched.
    pub fn poll_accept_bi(&mut self) -> (r: Result<(), InternalConnectionError>)
        ensures
            Self::same_state(*old(self), *final(self)),
            match old(self).shared@.error {
                Some(e) => r == Err::<(), InternalConnectionError>(e),
                None => r is Ok,
            },
    {
        match self.get_conn_error() {
            Some(e) => Err(e),
            None => Ok(()),
        }
    }

    /// Reads the next frame off the peer's control stream and runs the
    /// control-stream state machine on it: the first frame must be
    /// SETTINGS, which is published to the shared state; GOAWAY,
    /// CANCEL_PUSH and MAX_PUSH_ID are forwarded; anything else, and a
    /// closed or reset control stream, is a connection error, latched here.
    /// Everything one deterministic control poll does, as stated by
    /// `poll_control_step`: the whole control-stream state machine's answer
    /// to the bytes at the reader's cursor.
    pub open spec fn control_step_rel(
        a: ConnectionInner,
        b: ConnectionInner,
        r: Result<ControlPoll, InternalConnectionError>,
    ) -> bool {
        match a.shared@.error {
                Some(e) => r == Err::<ControlPoll, InternalConnectionError>(e) && Self::same_state(
                    a,
                    b,
                ),
                None => ({
                    let s = a;
                    if s.control_recv_reset {
                        match r {
                            Err(e) => Self::latched_error_result(
                                s,
                                b,
                                e,
                                Code::H3ClosedCriticalStream,
                            ),
                            Ok(_) => false,
                        }
                    } else if s.control_recv is None {
                        r matches Ok(ControlPoll::Pending) && Self::same_state(s, b)
                    } else {
                        match crate::frame::spec_next_frame(
                            s.control_recv_buf@,
                            s.control_recv_pos as int,
                            s.control_recv_eos,
                        ) {
                            Ok(crate::frame::SpecFrameStep::Pending) => r matches Ok(
                                ControlPoll::Pending,
                            ) && Self::same_state(s, b),
                            Ok(crate::frame::SpecFrameStep::End) => match r {
                                Err(e) => Self::latched_error_result(
                                    s,
                                    b,
                                    e,
                                    Code::H3ClosedCriticalStream,
                                ),
                                Ok(_) => false,
                            },
                            Ok(crate::frame::SpecFrameStep::Skipped { next }) => {
                                &&& r matches Ok(ControlPoll::Nothing)
                                &&& b.control_recv_pos == next
                                &&& Self::same_state(
                                    ConnectionInner {
                                        control_recv_pos: b.control_recv_pos,
                                        ..s
                                    },
                                    b,
                                )
                            },
                            Ok(crate::frame::SpecFrameStep::Ready { f, next }) => match spec_control_frame(
                                s.got_peer_settings,
                                f,
                            ) {
                                Err(code) => match r {
                                    Err(e) => Self::latched_error_result(s, b, e, code),
                                    Ok(_) => false,
                                },
                                Ok(true) => {
                                    &&& match r {
                                        Ok(ControlPoll::Frame(fr)) => fr@ == f,
                                        _ => false,
                                    }
                                    &&& b.got_peer_settings
                                    &&& b.control_recv_pos == next
                                    &&& b.shared@.peer_config
                                        == spec_settings_from_pairs(f->Settings_pairs)
                                    &&& b.shared@.error is None
                                    &&& b.shared@.closing == s.shared@.closing
                                    &&& Self::same_but_shared(
                                        ConnectionInner {
                                            control_recv_pos: b.control_recv_pos,
                                            got_peer_settings: true,
                                            ..s
                                        },
                                        b,
                                    )
                                },
                                Ok(false) => {
                                    &&& match r {
                                        Ok(ControlPoll::Frame(fr)) => fr@ == f,
                                        _ => false,
                                    }
                                    &&& b.control_recv_pos == next
                                    &&& Self::same_state(
                                        ConnectionInner {
                                            control_recv_pos: b.control_recv_pos,
                                            ..s
                                        },
                                        b,
                                    )
                                },
                            },
                            Err(crate::frame::FrameReadError::UnexpectedEnd) => match r {
                                Err(e) => Self::latched_error_result(
                                    s,
                                    b,
                                    e,
                                    Code::H3FrameError,
                                ),
                                Ok(_) => false,
                            },
                            Err(crate::frame::FrameReadError::Proto(code)) => match r {
                                Err(e) => Self::latched_error_result(s, b, e, code),
                                Ok(_) => false,
                            },
                        }
                    }
                }),
            }
    }

    pub fn poll_control_step(&mut self) -> (r: Result<ControlPoll, InternalConnectionError>)
        requires
            old(self).wf(),
        ensures
            final(self).wf(),
            Self::control_step_rel(*old(self), *final(self), r),
    {
        if let Some(e) = self.get_conn_error() {
            return Err(e);
        }
        if self.control_recv_reset {
            return Err(
                self.handle_connection_error(
                    InternalConnectionError::new(
                        Code::H3ClosedCriticalStream,
                        "control stream was reset",
                    ),
                ),
            );
        }
        if self.control_recv.is_none() {
            return Ok(ControlPoll::Pending);
        }
        match crate::frame::next_frame(
            &self.control_recv_buf,
            self.control_recv_pos,
            self.control_recv_eos,
        ) {
            Ok(crate::frame::FrameStep::Pending) => Ok(ControlPoll::Pending),
            Ok(crate::frame::FrameStep::End) => Err(
                self.handle_connection_error(
                    InternalConnectionError::new(
                        Code::H3ClosedCriticalStream,
                        "control stream was closed",
                    ),
                ),
            ),
            Ok(crate::frame::FrameStep::Skipped(next)) => {
                self.control_recv_pos = next;
                Ok(ControlPoll::Nothing)
            },
            Ok(crate::frame::FrameStep::Ready(frame, next)) => match frame {
                Frame::Settings(pairs) => {
                    if !self.got_peer_settings {
                        self.got_peer_settings = true;
                        let published = settings_from_pairs(&pairs);
                        self.shared.write().peer_config = published;
                        self.control_recv_pos = next;
                        Ok(ControlPoll::Frame(Frame::Settings(pairs)))
                    } else {
                        Err(
                            self.handle_connection_error(
                                InternalConnectionError::new(
                                    Code::H3FrameUnexpected,
                                    "second settings frame received",
                                ),
                            ),
                        )
                    }
                },
                Frame::Goaway(id) => {
                    if !self.got_peer_settings {
                        Err(
                            self.handle_connection_error(
                                InternalConnectionError::new(
                                    Code::H3MissingSettings,
                                    "received frame before settings",
                                ),
                            ),
                        )
                    } else {
                        self.control_recv_pos = next;
                        Ok(ControlPoll::Frame(Frame::Goaway(id)))
                    }
                },
                Frame::CancelPush(id) => {
                    if !self.got_peer_settings {
                        Err(
                            self.handle_connection_error(
                                InternalConnectionError::new(
                                    Code::H3MissingSettings,
                                    "received frame before settings",
                                ),
                            ),
                        )
                    } else {
                        self.control_recv_pos = next;
                        Ok(ControlPoll::Frame(Frame::CancelPush(id)))
                    }
                },
                Frame::MaxPushId(id) => {
                    if !self.got_peer_settings {
                        Err(
                            self.handle_connection_error(
                                InternalConnectionError::new(
                                    Code::H3MissingSettings,
                                    "received frame before settings",
                                ),
                            ),
                        )
                    } else {
                        self.control_recv_pos = next;
                        Ok(ControlPoll::Frame(Frame::MaxPushId(id)))
                    }
                },
                _ => {
                    if !self.got_peer_settings {
                        Err(
                            self.handle_connection_error(
                                InternalConnectionError::new(
                                    Code::H3MissingSettings,
                                    "received frame before settings",
                                ),
                            ),
                        )
                    } else {
                        Err(
                            self.handle_connection_error(
                                InternalConnectionError::new(
                                    Code::H3FrameUnexpected,
                                    "received unexpected frame on control stream",
                                ),
                            ),
                        )
                    }
                },
            },
            Err(crate::frame::FrameReadError::UnexpectedEnd) => Err(
                self.handle_connection_error(
                    InternalConnectionError::new(Code::H3FrameError, "received incomplete frame"),
                ),
            ),
            Err(crate::frame::FrameReadError::Proto(code)) => Err(
                self.handle_connection_error(
                    InternalConnectionError::new(
                        code,
                        "malformed or forbidden frame on control stream",
                    ),
                ),
            ),
        }
    }

    /// One control poll: returns the latched error if any, drains the
    /// error-report channel (a report closes the connection, first fatal
    /// wins), then reads the control stream as `poll_control_step` does. An
    /// empty drain changes nothing, so on success the whole step relation
    /// holds against the entry state; on an error the report decided, only
    /// its code can stay open here.
    pub fn poll_control(&mut self) -> (r: Result<ControlPoll, InternalConnectionError>)
        requires
            old(self).wf(),
        ensures
            final(self).wf(),
            match old(self).shared@.error {
                Some(e) => r == Err::<ControlPoll, InternalConnectionError>(e) && Self::same_state(
                    *old(self),
                    *final(self),
                ),
                None => {
                    &&& (r is Ok ==> Self::control_step_rel(*old(self), *final(self), r))
                    &&& match r {
                        Err(e) => final(self).shared@.error == Some(e),
                        Ok(_) => true,
                    }
                    &&& (old(self).control_recv is Some ==> final(self).control_recv == old(
                        self,
                    ).control_recv)
                    &&& final(self).control_log == old(self).control_log
                    &&& final(self).config == old(self).config
                },
            },
    {
        if let Some(e) = self.get_conn_error() {
            return Err(e);
        }
        let ghost entry = *old(self);
        match self.poll_check_stream_errors() {
            Err(e) => Err(self.handle_connection_error(e)),
            Ok(()) => {
                let ghost drained = *self;
                let r = self.poll_control_step();
                proof {
                    if r is Ok {
                        assert(Self::same_state(entry, drained));
                        assert(Self::control_step_rel(drained, *self, r));
                        assert(Self::control_step_rel(entry, *self, r));
                    }
                }
                r
            },
        }
    }
}

impl ConnectionState for ConnectionInner {
    open spec fn spec_shared(&self) -> SharedState {
        self.shared@
    }

    fn shared_state(&self) -> (r: &SharedStateRef) {
        &self.shared
    }
}

/// The bytes the grease stream carries: a reserved stream type
/// (`0x1f * 0 + 0x21`) followed by one grease frame.
pub open spec fn grease_stream_bytes() -> Seq<u8> {
    varint_bytes(0x21) + frame_bytes(SpecFrame::Grease)
}

impl ConnectionInner {
    /// Mutable access to the buffered WebTransport streams, for the session
    /// layer to claim them.
    pub fn accepted_streams_mut(&mut self) -> (r: &mut AcceptedStreams)
        ensures
            *r == old(self).accepted_streams,
            *final(self) == (ConnectionInner { accepted_streams: *final(r), ..*old(self) }),
    {
        &mut self.accepted_streams
    }

    /// Some pending stream carries this handle.
    pub open spec fn has_pending(self, stream: u64) -> bool {
        exists|i: int|
            0 <= i < self.pending_recv_streams@.len() && (#[trigger] self.pending_recv_streams@[
                i
            ]).stream == stream
    }

    /// Index of the pending stream with this handle, if one is waiting.
    fn find_pending(&self, stream: u64) -> (r: Option<usize>)
        ensures
            match r {
                Some(i) => i < self.pending_recv_streams@.len()
                    && self.pending_recv_streams@[i as int].stream == stream,
                None => !self.has_pending(stream),
            },
    {
        let mut i: usize = 0;
        while i < self.pending_recv_streams.len()
            invariant
                i <= self.pending_recv_streams@.len(),
                forall|k: int|
                    0 <= k < i ==> (#[trigger] self.pending_recv_streams@[k]).stream != stream,
            decreases self.pending_recv_streams@.len() - i,
        {
            if self.pending_recv_streams[i].stream == stream {
                return Some(i);
            }
            i = i + 1;
        }
        None
    }

    /// Routes a freshly classified inbound stream (RFC 9114 section 6.2):
    /// binds the single control, QPACK encoder and QPACK decoder streams
    /// and refuses a second of any with H3_STREAM_CREATION_ERROR; buffers a
    /// WebTransport stream or rejects it when the buffer is full; asks for
    /// STOP_SENDING on an unknown type without harming the connection.
    /// `rest` holds bytes that arrived beyond the stream header.
    pub fn on_resolved_uni_stream(
        &mut self,
        stream: u64,
        rt: ResolvedStreamType,
        rest: Vec<u8>,
    ) -> (r: Result<Option<Action>, InternalConnectionError>)
        requires
            old(self).wf(),
        ensures
            final(self).wf(),
            match rt {
                ResolvedStreamType::Control => match old(self).control_recv {
                    Some(_) => match r {
                        Err(e) => Self::latched_error_result(
                            *old(self),
                            *final(self),
                            e,
                            Code::H3StreamCreationError,
                        ),
                        Ok(_) => false,
                    },
                    None => r == Ok::<Option<Action>, InternalConnectionError>(None) && *final(self)
                        == (ConnectionInner {
                        control_recv: Some(stream),
                        control_recv_buf: rest,
                        control_recv_pos: 0,
                        ..*old(self)
                    }),
                },
                ResolvedStreamType::Encoder => match old(self).encoder_recv {
                    Some(_) => match r {
                        Err(e) => Self::latched_error_result(
                            *old(self),
                            *final(self),
                            e,
                            Code::H3StreamCreationError,
                        ),
                        Ok(_) => false,
                    },
                    None => r == Ok::<Option<Action>, InternalConnectionError>(None) && *final(self)
                        == (ConnectionInner { encoder_recv: Some(stream), ..*old(self) }),
                },
                ResolvedStreamType::Decoder => match old(self).decoder_recv {
                    Some(_) => match r {
                        Err(e) => Self::latched_error_result(
                            *old(self),
                            *final(self),
                            e,
                            Code::H3StreamCreationError,
                        ),
                        Ok(_) => false,
                    },
                    None => r == Ok::<Option<Action>, InternalConnectionError>(None) && *final(self)
                        == (ConnectionInner { decoder_recv: Some(stream), ..*old(self) }),
                },
                ResolvedStreamType::WebTransportUni { session_id } => if !old(self)
                    .config.settings.enable_webtransport {
                    r == Ok::<Option<Action>, InternalConnectionError>(None) && *final(self)
                        == *old(self)
                } else if old(self).accepted_streams.wt_uni_streams@.len()
                    >= old(self).config.wt_stream_buffer_limit {
                    r == Ok::<Option<Action>, InternalConnectionError>(
                        Some(
                            Action::ResetStream {
                                stream,
                                code: Code::H3WebTransportBufferedStreamRejected,
                            },
                        ),
                    ) && *final(self) == *old(self)
                } else {
                    &&& r == Ok::<Option<Action>, InternalConnectionError>(None)
                    &&& final(self).accepted_streams.wt_uni_streams@
                        == old(self).accepted_streams.wt_uni_streams@.push((session_id, stream))
                    &&& *final(self) == (ConnectionInner {
                        accepted_streams: final(self).accepted_streams,
                        ..*old(self)
                    })
                },
                ResolvedStreamType::Push { .. } => r == Ok::<Option<Action>, InternalConnectionError>(
                    None,
                ) && *final(self) == *old(self),
                ResolvedStreamType::Unknown { .. } => {
                    &&& r == Ok::<Option<Action>, InternalConnectionError>(
                        Some(Action::StopSending { stream, code: Code::H3StreamCreationError }),
                    )
                    &&& *final(self) == *old(self)
                },
            },
    {
        match rt {
            ResolvedStreamType::Control => {
                if self.control_recv.is_some() {
                    Err(
                        self.handle_connection_error(
                            InternalConnectionError::new(
                                Code::H3StreamCreationError,
                                "got two control streams",
                            ),
                        ),
                    )
                } else {
                    self.control_recv = Some(stream);
                    self.control_recv_buf = rest;
                    self.control_recv_pos = 0;
                    Ok(None)
                }
            },
            ResolvedStreamType::Encoder => {
                if self.encoder_recv.is_some() {
                    Err(
                        self.handle_connection_error(
                            InternalConnectionError::new(
                                Code::H3StreamCreationError,
                                "got two encoder streams",
                            ),
                        ),
                    )
                } else {
                    self.encoder_recv = Some(stream);
                    Ok(None)
                }
            },
            ResolvedStreamType::Decoder => {
                if self.decoder_recv.is_some() {
                    Err(
                        self.handle_connection_error(
                            InternalConnectionError::new(
                                Code::H3StreamCreationError,
                                "got two decoder streams",
                            ),
                        ),
                    )
                } else {
                    self.decoder_recv = Some(stream);
                    Ok(None)
                }
            },
            ResolvedStreamType::WebTransportUni { session_id } => {
                if !self.config.settings.enable_webtransport {
                    Ok(None)
                } else if self.accepted_streams.wt_uni_streams.len()
                    >= self.config.wt_stream_buffer_limit {
                    Ok(
                        Some(
                            Action::ResetStream {
                                stream,
                                code: Code::H3WebTransportBufferedStreamRejected,
                            },
                        ),
                    )
                } else {
                    self.accepted_streams.wt_uni_streams.push((session_id, stream));
                    Ok(None)
                }
            },
            ResolvedStreamType::Push { .. } => Ok(None),
            ResolvedStreamType::Unknown { .. } => Ok(
                Some(Action::StopSending { stream, code: Code::H3StreamCreationError }),
            ),
        }
    }

    /// What one `Bytes` event does to a driver whose pending entry `i`
    /// carries the handle: the entry's buffer grows; if the header resolves,
    /// the entry leaves the pending list and the stream is routed exactly as
    /// `on_resolved_uni_stream` routes it.
    pub open spec fn bytes_event_step(
        a: ConnectionInner,
        b: ConnectionInner,
        r: Result<Option<Action>, InternalConnectionError>,
        i: int,
        stream: u64,
        bytes: Seq<u8>,
    ) -> bool {
        let newbuf = a.pending_recv_streams@[i].buf@ + bytes;
        let removed = a.pending_recv_streams@.remove(i);
        match crate::stream_type::spec_resolve_uni_header(newbuf) {
            None => {
                &&& r == Ok::<Option<Action>, InternalConnectionError>(None)
                &&& b.pending_recv_streams@.len() == removed.len() + 1
                &&& b.pending_recv_streams@ == removed.push(b.pending_recv_streams@.last())
                &&& b.pending_recv_streams@.last().stream == stream
                &&& b.pending_recv_streams@.last().buf@ == newbuf
                &&& b == (ConnectionInner {
                    pending_recv_streams: b.pending_recv_streams,
                    ..a
                })
            },
            Some((rt, used)) => {
                &&& b.pending_recv_streams@ == removed
                &&& match rt {
                    ResolvedStreamType::Control => match a.control_recv {
                        None => {
                            &&& r == Ok::<Option<Action>, InternalConnectionError>(None)
                            &&& b.control_recv == Some(stream)
                            &&& b.control_recv_buf@ == newbuf.skip(used)
                            &&& b == (ConnectionInner {
                                control_recv: Some(stream),
                                control_recv_buf: b.control_recv_buf,
                                control_recv_pos: 0,
                                pending_recv_streams: b.pending_recv_streams,
                                ..a
                            })
                        },
                        Some(_) => Self::dup_binding_step(a, b, r),
                    },
                    ResolvedStreamType::Encoder => match a.encoder_recv {
                        None => {
                            &&& r == Ok::<Option<Action>, InternalConnectionError>(None)
                            &&& b == (ConnectionInner {
                                encoder_recv: Some(stream),
                                pending_recv_streams: b.pending_recv_streams,
                                ..a
                            })
                        },
                        Some(_) => Self::dup_binding_step(a, b, r),
                    },
                    ResolvedStreamType::Decoder => match a.decoder_recv {
                        None => {
                            &&& r == Ok::<Option<Action>, InternalConnectionError>(None)
                            &&& b == (ConnectionInner {
                                decoder_recv: Some(stream),
                                pending_recv_streams: b.pending_recv_streams,
                                ..a
                            })
                        },
                        Some(_) => Self::dup_binding_step(a, b, r),
                    },
                    ResolvedStreamType::WebTransportUni { session_id } => if !a.config.settings.enable_webtransport {
                        r == Ok::<Option<Action>, InternalConnectionError>(None) && b == (
                        ConnectionInner { pending_recv_streams: b.pending_recv_streams, ..a })
                    } else if a.accepted_streams.wt_uni_streams@.len()
                        >= a.config.wt_stream_buffer_limit {
                        r == Ok::<Option<Action>, InternalConnectionError>(
                            Some(
                                Action::ResetStream {
                                    stream,
                                    code: Code::H3WebTransportBufferedStreamRejected,
                                },
                            ),
                        ) && b == (ConnectionInner {
                            pending_recv_streams: b.pending_recv_streams,
                            ..a
                        })
                    } else {
                        &&& r == Ok::<Option<Action>, InternalConnectionError>(None)
                        &&& b.accepted_streams.wt_uni_streams@
                            == a.accepted_streams.wt_uni_streams@.push((session_id, stream))
                        &&& b == (ConnectionInner {
                            accepted_streams: b.accepted_streams,
                            pending_recv_streams: b.pending_recv_streams,
                            ..a
                        })
                    },
                    ResolvedStreamType::Push { .. } => r == Ok::<
                        Option<Action>,
                        InternalConnectionError,
                    >(None) && b == (ConnectionInner {
                        pending_recv_streams: b.pending_recv_streams,
                        ..a
                    }),
                    ResolvedStreamType::Unknown { .. } => r == Ok::<
                        Option<Action>,
                        InternalConnectionError,
                    >(Some(Action::StopSending { stream, code: Code::H3StreamCreationError })) && b
                        == (ConnectionInner {
                        pending_recv_streams: b.pending_recv_streams,
                        ..a
                    }),
                }
            },
        }
    }

    /// A second critical stream of an already bound role: the attempt is
    /// refused with H3_STREAM_CREATION_ERROR and latched (first fatal wins);
    /// only the latch and the pending list moved.
    pub open spec fn dup_binding_step(
        a: ConnectionInner,
        b: ConnectionInner,
        r: Result<Option<Action>, InternalConnectionError>,
    ) -> bool {
        match r {
            Err(e) => {
                &&& match a.shared@.error {
                    Some(prev) => e == prev,
                    None => e.code == Code::H3StreamCreationError,
                }
                &&& b.shared@.error == Some(e)
                &&& b.shared@.closing == a.shared@.closing
                &&& b.shared@.peer_config == a.shared@.peer_config
                &&& Self::same_but_shared(
                    (ConnectionInner { pending_recv_streams: b.pending_recv_streams, ..a }),
                    b,
                )
            },
            Ok(_) => false,
        }
    }

    /// Handles one unidirectional stream event: a new stream starts an
    /// empty pending entry; bytes grow the entry's buffer until its header
    /// resolves and the stream is routed; bytes of the bound control stream
    /// feed the control reader; a stream that closes or resets before its
    /// header completes is dropped without harm (RFC 9114 section 6.2), and
    /// a closed or reset control stream is remembered for the next control
    /// poll.
    /// Everything one unidirectional stream event does, as stated by
    /// `accept_uni_event`: with a latched error the event is refused and
    /// nothing moves; otherwise a new stream starts a pending entry, bytes
    /// feed the control reader or a pending entry (routing a resolved
    /// header), and a close or reset drops a pending entry or marks the
    /// control stream.
    pub open spec fn uni_event_rel(
        a: ConnectionInner,
        b: ConnectionInner,
        r: Result<Option<Action>, InternalConnectionError>,
        ev: UniStreamEvent,
    ) -> bool {
        match a.shared@.error {
                Some(e) => r == Err::<Option<Action>, InternalConnectionError>(e)
                    && Self::same_state(a, b),
                None => match ev {
                    UniStreamEvent::New { stream } => {
                        &&& r == Ok::<Option<Action>, InternalConnectionError>(None)
                        &&& b.pending_recv_streams@.len() == a.pending_recv_streams@.len() + 1
                        &&& b.pending_recv_streams@ == a.pending_recv_streams@.push(b.pending_recv_streams@.last())
                        &&& b.pending_recv_streams@.last().stream == stream
                        &&& b.pending_recv_streams@.last().buf@.len() == 0
                        &&& b == (ConnectionInner {
                            pending_recv_streams: b.pending_recv_streams,
                            ..a
                        })
                    },
                    UniStreamEvent::Bytes { stream, ref bytes } => if a.control_recv
                        == Some(stream) {
                        &&& r == Ok::<Option<Action>, InternalConnectionError>(None)
                        &&& b.control_recv_buf@ == a.control_recv_buf@ + bytes@
                        &&& b == (ConnectionInner {
                            control_recv_buf: b.control_recv_buf,
                            ..a
                        })
                    } else if a.encoder_recv == Some(stream) || a.decoder_recv
                        == Some(stream) {
                        r == Ok::<Option<Action>, InternalConnectionError>(None) && b
                            == a
                    } else if a.has_pending(stream) {
                        exists|i: int|
                            #![auto]
                            0 <= i < a.pending_recv_streams@.len() && a.pending_recv_streams@[i].stream == stream && Self::bytes_event_step(
                                a,
                                b,
                                r,
                                i,
                                stream,
                                bytes@,
                            )
                    } else {
                        r == Ok::<Option<Action>, InternalConnectionError>(None) && b
                            == a
                    },
                    UniStreamEvent::Eos { stream } => if a.control_recv == Some(stream) {
                        r == Ok::<Option<Action>, InternalConnectionError>(None) && b
                            == (ConnectionInner { control_recv_eos: true, ..a })
                    } else if a.has_pending(stream) {
                        exists|i: int|
                            #![auto]
                            0 <= i < a.pending_recv_streams@.len() && a.pending_recv_streams@[i].stream == stream && r == Ok::<
                                Option<Action>,
                                InternalConnectionError,
                            >(None) && b.pending_recv_streams@ == a.pending_recv_streams@.remove(i) && b == (ConnectionInner {
                                pending_recv_streams: b.pending_recv_streams,
                                ..a
                            })
                    } else {
                        r == Ok::<Option<Action>, InternalConnectionError>(None) && b
                            == a
                    },
                    UniStreamEvent::Reset { stream } => if a.control_recv == Some(stream) {
                        r == Ok::<Option<Action>, InternalConnectionError>(None) && b
                            == (ConnectionInner { control_recv_reset: true, ..a })
                    } else if a.has_pending(stream) {
                        exists|i: int|
                            #![auto]
                            0 <= i < a.pending_recv_streams@.len() && a.pending_recv_streams@[i].stream == stream && r == Ok::<
                                Option<Action>,
                                InternalConnectionError,
                            >(None) && b.pending_recv_streams@ == a.pending_recv_streams@.remove(i) && b == (ConnectionInner {
                                pending_recv_streams: b.pending_recv_streams,
                                ..a
                            })
                    } else {
                        r == Ok::<Option<Action>, InternalConnectionError>(None) && b
                            == a
                    },
                },
            }
    }

    /// The returned action list grows by exactly what one event's step
    /// yielded: one action, nothing, or — never — a refusal.
    pub open spec fn step_collects(
        step: Result<Option<Action>, InternalConnectionError>,
        acts: Seq<Action>,
        actions: Seq<Action>,
    ) -> bool {
        match step {
            Ok(Some(act)) => actions == acts.push(act),
            Ok(None) => actions == acts,
            Err(_) => false,
        }
    }

    /// The states and actions a whole event batch leaves behind, event by
    /// event: each step is `uni_event_rel`, and the actions come out in the
    /// order their events were handled.
    pub open spec fn accept_events_rel(
        a: ConnectionInner,
        b: ConnectionInner,
        events: Seq<UniStreamEvent>,
        actions: Seq<Action>,
    ) -> bool
        decreases events.len(),
    {
        if events.len() == 0 {
            b == a && actions == Seq::<Action>::empty()
        } else {
            exists|
                mid: ConnectionInner,
                step: Result<Option<Action>, InternalConnectionError>,
                acts: Seq<Action>,
            |
                #![trigger Self::uni_event_rel(mid, b, step, events.last()),
                    Self::step_collects(step, acts, actions)]
                Self::accept_events_rel(a, mid, events.drop_last(), acts) && Self::uni_event_rel(
                    mid,
                    b,
                    step,
                    events.last(),
                ) && Self::step_collects(step, acts, actions)
        }
    }

    /// A batch that fails: the events before some index are worked through
    /// as `uni_event_rel` states, the event at that index refuses with `e`,
    /// and the events after it are left untouched.
    pub open spec fn accept_events_err_rel(
        a: ConnectionInner,
        b: ConnectionInner,
        events: Seq<UniStreamEvent>,
        e: InternalConnectionError,
    ) -> bool {
        exists|j: int, mid: ConnectionInner, acts: Seq<Action>|
            #![trigger Self::accept_events_rel(a, mid, events.take(j), acts)]
            0 <= j < events.len() && Self::accept_events_rel(a, mid, events.take(j), acts)
                && Self::uni_event_rel(mid, b, Err(e), events[j])
    }

    /// Feeds bytes to the pending entry with this handle, if any, and
    /// routes the stream once its header resolves.
    #[verifier::rlimit(100)]
    fn accept_stream_bytes(&mut self, stream: u64, bytes: &Vec<u8>) -> (r: Result<
        Option<Action>,
        InternalConnectionError,
    >)
        requires
            old(self).wf(),
            old(self).shared@.error is None,
        ensures
            final(self).wf(),
            if old(self).has_pending(stream) {
                exists|i: int|
                    #![auto]
                    0 <= i < old(self).pending_recv_streams@.len() && old(
                        self,
                    ).pending_recv_streams@[i].stream == stream && Self::bytes_event_step(
                        *old(self),
                        *final(self),
                        r,
                        i,
                        stream,
                        bytes@,
                    )
            } else {
                r == Ok::<Option<Action>, InternalConnectionError>(None) && *final(self) == *old(
                    self,
                )
            },
    {
        match self.find_pending(stream) {
            Some(idx) => {
                let mut p = self.pending_recv_streams.remove(idx);
                crate::frame::extend_bytes(&mut p.buf, bytes);
                proof {
                    assert(p.buf@ == old(self).pending_recv_streams@[idx as int].buf@ + bytes@);
                }
                match resolve_uni_header(&p.buf) {
                    None => {
                        self.pending_recv_streams.push(p);
                        proof {
                            assert(Self::bytes_event_step(
                                *old(self),
                                *self,
                                Ok(None),
                                idx as int,
                                stream,
                                bytes@,
                            ));
                        }
                        Ok(None)
                    },
                    Some((rt, used)) => {
                        let rest = crate::frame::copy_range(&p.buf, used, p.buf.len());
                        proof {
                            assert(rest@ =~= (old(
                                self,
                            ).pending_recv_streams@[idx as int].buf@ + bytes@).skip(used as int));
                        }
                        let ghost mid = *self;
                        proof {
                            assert(mid == (ConnectionInner {
                                pending_recv_streams: mid.pending_recv_streams,
                                ..*old(self)
                            }));
                        }
                        let res = self.on_resolved_uni_stream(p.stream, rt, rest);
                        proof {
                            let a = *old(self);
                            let newbuf = a.pending_recv_streams@[idx as int].buf@ + bytes@;
                            assert(crate::stream_type::spec_resolve_uni_header(newbuf) == Some(
                                (rt, used as int),
                            ));
                            assert(self.pending_recv_streams@ == a.pending_recv_streams@.remove(
                                idx as int,
                            ));
                            assert(rest@ == newbuf.skip(used as int));
                            assert(Self::bytes_event_step(a, *self, res, idx as int, stream, bytes@));
                        }
                        res
                    },
                }
            },
            None => {
                // bytes for a stream this driver does not track
                Ok(None)
            },
        }
    }

    #[verifier::rlimit(100)]
    pub fn accept_uni_event(&mut self, ev: &UniStreamEvent) -> (r: Result<
        Option<Action>,
        InternalConnectionError,
    >)
        requires
            old(self).wf(),
        ensures
            final(self).wf(),
            Self::uni_event_rel(*old(self), *final(self), r, *ev),
    {
        if let Some(e) = self.get_conn_error() {
            return Err(e);
        }
        match ev {
            UniStreamEvent::New { stream } => {
                self.pending_recv_streams.push(
                    PendingRecvStream { stream: *stream, buf: Vec::new() },
                );
                Ok(None)
            },
            UniStreamEvent::Bytes { stream, bytes } => {
                let is_control = match self.control_recv {
                    Some(cs) => cs == *stream,
                    None => false,
                };
                let is_qpack = match (self.encoder_recv, self.decoder_recv) {
                    (Some(es), _) if es == *stream => true,
                    (_, Some(ds)) if ds == *stream => true,
                    _ => false,
                };
                if is_control {
                    crate::frame::extend_bytes(&mut self.control_recv_buf, bytes);
                    Ok(None)
                } else if is_qpack {
                    // QPACK instructions are outside this crate's scope
                    Ok(None)
                } else {
                    self.accept_stream_bytes(*stream, bytes)
                }
            },
            UniStreamEvent::Eos { stream } => {
                let is_control = match self.control_recv {
                    Some(cs) => cs == *stream,
                    None => false,
                };
                if is_control {
                    self.control_recv_eos = true;
                } else {
                    match self.find_pending(*stream) {
                        Some(idx) => {
                            // closed before the header resolved: tolerated
                            let _ = self.pending_recv_streams.remove(idx);
                        },
                        None => {},
                    }
                }
                Ok(None)
            },
            UniStreamEvent::Reset { stream } => {
                let is_control = match self.control_recv {
                    Some(cs) => cs == *stream,
                    None => false,
                };
                if is_control {
                    self.control_recv_reset = true;
                } else {
                    match self.find_pending(*stream) {
                        Some(idx) => {
                            let _ = self.pending_recv_streams.remove(idx);
                        },
                        None => {},
                    }
                }
                Ok(None)
            },
        }
    }

    /// Works through the transport's unidirectional stream events: buffers
    /// header bytes of streams whose type has not resolved, classifies and
    /// routes the resolved ones, feeds the bound control stream's bytes to
    /// the control reader, and silently drops streams that close before
    /// their header completes. The returned actions are for the caller to
    /// perform; an error has been latched when one is returned. Each event
    /// is handled exactly as `accept_uni_event` states.
    pub fn poll_accept_recv(&mut self, events: Vec<UniStreamEvent>) -> (r: Result<
        Vec<Action>,
        InternalConnectionError,
    >)
        requires
            old(self).wf(),
        ensures
            final(self).wf(),
            match old(self).shared@.error {
                Some(e) => r == Err::<Vec<Action>, InternalConnectionError>(e) && Self::same_state(
                    *old(self),
                    *final(self),
                ),
                None => {
                    &&& match r {
                        Ok(actions) => Self::accept_events_rel(
                            *old(self),
                            *final(self),
                            events@,
                            actions@,
                        ),
                        Err(e) => Self::accept_events_err_rel(*old(self), *final(self), events@, e),
                    }
                    &&& (r is Ok ==> final(self).shared@.error is None && final(self).shared@
                        == old(self).shared@)
                    &&& match r {
                        Err(e) => final(self).shared@.error == Some(e),
                        Ok(_) => true,
                    }
                    &&& (old(self).control_recv is Some ==> final(self).control_recv == old(
                        self,
                    ).control_recv)
                    &&& (old(self).encoder_recv is Some ==> final(self).encoder_recv == old(
                        self,
                    ).encoder_recv)
                    &&& (old(self).decoder_recv is Some ==> final(self).decoder_recv == old(
                        self,
                    ).decoder_recv)
                    &&& final(self).got_peer_settings == old(self).got_peer_settings
                    &&& final(self).grease_step == old(self).grease_step
                    &&& final(self).config == old(self).config
                    &&& final(self).control_log == old(self).control_log
                },
            },
    {
        if let Some(e) = self.get_conn_error() {
            return Err(e);
        }
        let mut actions: Vec<Action> = Vec::new();
        let mut i: usize = 0;
        while i < events.len()
            invariant
                self.wf(),
                old(self).shared@.error is None,
                self.shared@ == old(self).shared@,
                old(self).control_recv is Some ==> self.control_recv == old(self).control_recv,
                old(self).encoder_recv is Some ==> self.encoder_recv == old(self).encoder_recv,
                old(self).decoder_recv is Some ==> self.decoder_recv == old(self).decoder_recv,
                self.got_peer_settings == old(self).got_peer_settings,
                self.grease_step == old(self).grease_step,
                self.config == old(self).config,
                self.control_log == old(self).control_log,
                i <= events@.len(),
                Self::accept_events_rel(*old(self), *self, events@.take(i as int), actions@),
            decreases events@.len() - i,
        {
            let ghost pre = *self;
            let ghost acts_pre = actions@;
            let step = self.accept_uni_event(&events[i]);
            match step {
                Ok(Some(a)) => {
                    actions.push(a);
                },
                Ok(None) => {},
                Err(e) => {
                    proof {
                        assert(Self::accept_events_rel(
                            *old(self),
                            pre,
                            events@.take(i as int),
                            acts_pre,
                        ));
                        assert(Self::uni_event_rel(pre, *self, Err(e), events@[i as int]));
                        assert(Self::accept_events_err_rel(*old(self), *self, events@, e));
                    }
                    return Err(e);
                },
            }
            proof {
                let evs1 = events@.take(i + 1);
                assert(evs1.drop_last() =~= events@.take(i as int));
                assert(evs1.last() == events@[i as int]);
                assert(Self::accept_events_rel(*old(self), pre, evs1.drop_last(), acts_pre));
                assert(Self::uni_event_rel(pre, *self, step, evs1.last()));
                assert(Self::step_collects(step, acts_pre, actions@));
                assert(Self::accept_events_rel(*old(self), *self, evs1, actions@));
            }
            i = i + 1;
        }
        proof {
            assert(events@.take(events@.len() as int) =~= events@);
        }
        Ok(actions)
    }

    /// What one grease poll does to (step, flag) given the transport's
    /// answer: progress on success, abandonment on failure, and no motion
    /// at all once the flag is cleared.
    pub open spec fn spec_grease_step(step: GreaseStatus, flag: bool, outcome: GreaseStepOutcome) -> (
        GreaseStatus,
        bool,
    ) {
        if !flag {
            (step, false)
        } else {
            match outcome {
                GreaseStepOutcome::Pending => (step, true),
                GreaseStepOutcome::Failed => (step, false),
                GreaseStepOutcome::Ready => match step {
                    GreaseStatus::NotStarted => (GreaseStatus::Started, true),
                    GreaseStatus::Started => (GreaseStatus::DataPrepared, true),
                    GreaseStatus::DataPrepared => (GreaseStatus::DataSent, true),
                    GreaseStatus::DataSent => (GreaseStatus::Finished, false),
                    GreaseStatus::Finished => (GreaseStatus::Finished, false),
                },
            }
        }
    }

    /// Advances the grease stream one step (RFC 9114 section 6.2.3).
    /// `outcome` is the transport's answer to the step in progress: opening
    /// the stream, then writing the reserved bytes, then flushing, then
    /// finishing. Any failure abandons the grease stream for good; the
    /// returned action is what the caller must attempt next.
    pub fn poll_grease_stream(&mut self, outcome: GreaseStepOutcome) -> (r: Option<GreaseAction>)
        requires
            old(self).wf(),
        ensures
            final(self).wf(),
            (final(self).grease_step, final(self).send_grease_stream_flag) == Self::spec_grease_step(
                old(self).grease_step,
                old(self).send_grease_stream_flag,
                outcome,
            ),
            Self::same_state(
                ConnectionInner {
                    grease_step: final(self).grease_step,
                    send_grease_stream_flag: final(self).send_grease_stream_flag,
                    ..*old(self)
                },
                *final(self),
            ),
            match r {
                Some(GreaseAction::SendBytes(b)) => old(self).send_grease_stream_flag && outcome
                    == GreaseStepOutcome::Ready && old(self).grease_step
                    == GreaseStatus::NotStarted && b@ == grease_stream_bytes(),
                Some(GreaseAction::Flush) => old(self).send_grease_stream_flag && outcome
                    == GreaseStepOutcome::Ready && old(self).grease_step == GreaseStatus::Started,
                Some(GreaseAction::Finish) => old(self).send_grease_stream_flag && outcome
                    == GreaseStepOutcome::Ready && old(self).grease_step
                    == GreaseStatus::DataPrepared,
                None => !(old(self).send_grease_stream_flag && outcome == GreaseStepOutcome::Ready
                    && (old(self).grease_step == GreaseStatus::NotStarted || old(self).grease_step
                    == GreaseStatus::Started || old(self).grease_step
                    == GreaseStatus::DataPrepared)),
            },
    {
        if !self.send_grease_stream_flag {
            return None;
        }
        match outcome {
            GreaseStepOutcome::Pending => None,
            GreaseStepOutcome::Failed => {
                self.send_grease_stream_flag = false;
                None
            },
            GreaseStepOutcome::Ready => match self.grease_step {
                GreaseStatus::NotStarted => {
                    self.grease_step = GreaseStatus::Started;
                    let mut b: Vec<u8> = Vec::new();
                    encode_varint(0x21, &mut b);
                    let frame = encode_frame(&Frame::Grease);
                    crate::frame::extend_bytes(&mut b, &frame);
                    Some(GreaseAction::SendBytes(b))
                },
                GreaseStatus::Started => {
                    self.grease_step = GreaseStatus::DataPrepared;
                    Some(GreaseAction::Flush)
                },
                GreaseStatus::DataPrepared => {
                    self.grease_step = GreaseStatus::DataSent;
                    Some(GreaseAction::Finish)
                },
                GreaseStatus::DataSent => {
                    self.grease_step = GreaseStatus::Finished;
                    self.send_grease_stream_flag = false;
                    None
                },
                GreaseStatus::Finished => {
                    self.send_grease_stream_flag = false;
                    None
                },
            },
        }
    }
}

/// The grease stream only moves forward: a poll never lowers its progress;
/// once the flag is cleared nothing moves at all, and any failure clears
/// the flag, so a failed step is never retried.
pub proof fn lemma_grease_monotonic(step: GreaseStatus, flag: bool, outcome: GreaseStepOutcome)
    ensures
        ({
            let (step2, flag2) = ConnectionInner::spec_grease_step(step, flag, outcome);
            &&& grease_rank(step2) >= grease_rank(step)
            &&& !flag ==> step2 == step && !flag2
            &&& outcome == GreaseStepOutcome::Failed ==> !flag2
        }),
{
}

/// One binding step for a critical stream role: a free slot takes the
/// stream; an occupied slot is left as it is and the attempt is refused
/// with H3_STREAM_CREATION_ERROR. This is the transition
/// `on_resolved_uni_stream` makes for the control, encoder and decoder
/// roles.
pub open spec fn spec_bind_role(bound: Option<u64>, stream: u64) -> (Option<u64>, Option<Code>) {
    match bound {
        Some(prev) => (Some(prev), Some(Code::H3StreamCreationError)),
        None => (Some(stream), None),
    }
}

/// The binding a trace of classification attempts leaves behind.
pub open spec fn spec_bind_trace(bound: Option<u64>, trace: Seq<u64>) -> Option<u64>
    decreases trace.len(),
{
    if trace.len() == 0 {
        bound
    } else {
        spec_bind_trace(spec_bind_role(bound, trace[0]).0, trace.drop_first())
    }
}

/// A slot once bound never changes again.
proof fn lemma_bind_stays(stream: u64, trace: Seq<u64>)
    ensures
        spec_bind_trace(Some(stream), trace) == Some(stream),
    decreases trace.len(),
{
    if trace.len() > 0 {
        lemma_bind_stays(stream, trace.drop_first());
    }
}

/// At most one stream is ever bound to a critical role: over any trace of
/// classification attempts, the first stream takes the role and keeps it,
/// and every later attempt is refused with H3_STREAM_CREATION_ERROR.
pub proof fn lemma_single_binding(trace: Seq<u64>)
    requires
        trace.len() >= 1,
    ensures
        spec_bind_trace(None, trace) == Some(trace[0]),
        forall|i: int|
            1 <= i < trace.len() ==> #[trigger] spec_bind_role(
                spec_bind_trace(None, trace.take(i)),
                trace[i],
            ).1 == Some(Code::H3StreamCreationError),
{
    assert(spec_bind_trace(None, trace) == spec_bind_trace(Some(trace[0]), trace.drop_first()));
    lemma_bind_stays(trace[0], trace.drop_first());
    assert forall|i: int| 1 <= i < trace.len() implies #[trigger] spec_bind_role(
        spec_bind_trace(None, trace.take(i)),
        trace[i],
    ).1 == Some(Code::H3StreamCreationError) by {
        assert(trace.take(i).len() == i);
        assert(trace.take(i)[0] == trace[0]);
        assert(spec_bind_trace(None, trace.take(i)) == spec_bind_trace(
            Some(trace[0]),
            trace.take(i).drop_first(),
        ));
        lemma_bind_stays(trace[0], trace.take(i).drop_first());
    }
}

/// Successive received GOAWAY identifiers never grow: after `a` is
/// recorded, a second GOAWAY with `b > a` is refused with H3_ID_ERROR and
/// the recorded id stays `a`; with `b <= a` it is recorded.
pub proof fn lemma_goaway_monotonic(a: u64, b: u64)
    ensures
        ConnectionInner::spec_process_goaway(None, a) == Ok::<Option<u64>, Code>(Some(a)),
        b > a ==> ConnectionInner::spec_process_goaway(Some(a), b) == Err::<Option<u64>, Code>(
            Code::H3IdError,
        ),
        b <= a ==> ConnectionInner::spec_process_goaway(Some(a), b) == Ok::<Option<u64>, Code>(
            Some(b),
        ),
{
}

/// Calling `shutdown` twice with the same id puts at most one GOAWAY on
/// the wire beyond the first, with the same identifier, and the recorded
/// id does not move.
/// The recorded id and the emitted GOAWAY ids after a whole sequence of
/// `shutdown` calls, folded through `spec_shutdown` in order.
pub open spec fn spec_shutdown_trace(sent: Option<u64>, ids: Seq<u64>) -> (Option<u64>, Seq<u64>)
    decreases ids.len(),
{
    if ids.len() == 0 {
        (sent, Seq::empty())
    } else {
        let (sent1, emit) = ConnectionInner::spec_shutdown(sent, ids[0]);
        let (sent_end, rest) = spec_shutdown_trace(sent1, ids.drop_first());
        (sent_end, if emit {
            seq![ids[0]] + rest
        } else {
            rest
        })
    }
}

/// Over any sequence of `shutdown` calls, the GOAWAY identifiers that go on
/// the wire never increase, and none exceeds an id recorded before the
/// sequence began.
pub proof fn lemma_goaway_sent_monotonic(sent: Option<u64>, ids: Seq<u64>)
    ensures
        ({
            let (sent_end, emitted) = spec_shutdown_trace(sent, ids);
            &&& forall|i: int, j: int|
                0 <= i < j < emitted.len() ==> #[trigger] emitted[j] <= #[trigger] emitted[i]
            &&& (sent matches Some(s0) ==> forall|i: int|
                0 <= i < emitted.len() ==> #[trigger] emitted[i] <= s0)
        }),
    decreases ids.len(),
{
    if ids.len() > 0 {
        let (sent1, emit) = ConnectionInner::spec_shutdown(sent, ids[0]);
        lemma_goaway_sent_monotonic(sent1, ids.drop_first());
        let (_, rest) = spec_shutdown_trace(sent1, ids.drop_first());
        if emit {
            assert(sent1 == Some(ids[0]));
            let emitted = seq![ids[0]] + rest;
            assert(emitted[0] == ids[0]);
            assert(forall|k: int| 0 <= k < rest.len() ==> #[trigger] emitted[k + 1] == rest[k]);
            assert forall|i: int, j: int| 0 <= i < j < emitted.len() implies #[trigger] emitted[j]
                <= #[trigger] emitted[i] by {
                if i == 0 {
                    assert(emitted[j] == rest[j - 1]);
                } else {
                    assert(emitted[i] == rest[i - 1]);
                    assert(emitted[j] == rest[j - 1]);
                }
            }
        }
    }
}

pub proof fn lemma_shutdown_idempotent(sent: Option<u64>, max_id: u64)
    ensures
        ({
            let (s1, emit1) = ConnectionInner::spec_shutdown(sent, max_id);
            let (s2, emit2) = ConnectionInner::spec_shutdown(s1, max_id);
            &&& s2 == s1
            &&& (emit1 ==> s1 == Some(max_id))
            &&& (emit2 ==> s2 == Some(max_id))
        }),
{
}

/// The local SETTINGS frame stands strictly before every other frame the
/// driver ever writes on its control stream: in any well-formed driver the
/// first entry of the control write log is a SETTINGS frame, and every
/// operation only appends to that log.
pub proof fn lemma_settings_first(c: ConnectionInner)
    requires
        c.wf(),
    ensures
        c.control_log@.len() >= 1,
        c.control_log@[0] is Settings,
{
}

} // verus!
