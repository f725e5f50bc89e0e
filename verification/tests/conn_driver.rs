use h3::conn::{
    Action, Config, ConnectionInner, ControlPoll, GreaseAction, GreaseStatus, GreaseStepOutcome,
    UniStreamEvent,
};
use h3::error::Code;
use h3::frame::{encode_frame, Frame};
use h3::shared::Settings;
use h3::varint::encode_varint;

fn config() -> Config {
    Config {
        send_grease: true,
        settings: Settings::default(),
        wt_stream_buffer_limit: 2,
    }
}

fn new_conn() -> ConnectionInner {
    let (conn, writes) = ConnectionInner::new(true, true, config());
    // the very first bytes on the control stream: stream type 0x00, then a
    // SETTINGS frame (type 0x04) before anything else
    assert_eq!(writes.control[0], 0x00);
    assert_eq!(writes.control[1], 0x04);
    assert_eq!(writes.encoder.as_deref(), Some(&[0x02][..]));
    assert_eq!(writes.decoder.as_deref(), Some(&[0x03][..]));
    conn
}

fn peer_settings_bytes() -> Vec<u8> {
    let mut bytes: Vec<u8> = Vec::new();
    encode_varint(0x00, &mut bytes); // control stream type
    bytes.extend_from_slice(&encode_frame(&Frame::Settings(vec![(0x6, 4096)])));
    bytes
}

fn bind_peer_control(conn: &mut ConnectionInner) {
    let events = vec![
        UniStreamEvent::New { stream: 1 },
        UniStreamEvent::Bytes { stream: 1, bytes: peer_settings_bytes() },
    ];
    let actions = conn.poll_accept_recv(events).expect("no error");
    assert!(actions.is_empty());
}

#[test]
fn happy_path_handshake() {
    let mut conn = new_conn();
    bind_peer_control(&mut conn);
    // exactly one Settings frame comes out of poll_control
    match conn.poll_control().expect("no error") {
        ControlPoll::Frame(Frame::Settings(pairs)) => assert_eq!(pairs, vec![(0x6, 4096)]),
        other => panic!("expected the peer settings, got {:?}", other),
    }
    assert!(conn.got_peer_settings);
    assert_eq!(conn.shared.read().peer_config.max_field_section_size, 4096);
    assert!(conn.shared.read().error.is_none());
    // nothing further on the control stream
    match conn.poll_control().expect("no error") {
        ControlPoll::Pending => {}
        other => panic!("expected to wait, got {:?}", other),
    }
    // a bidirectional stream may now be accepted
    assert!(conn.poll_accept_bi().is_ok());
}

#[test]
fn second_settings_closes_with_frame_unexpected() {
    let mut conn = new_conn();
    bind_peer_control(&mut conn);
    conn.poll_control().expect("first settings");
    let second = encode_frame(&Frame::Settings(vec![(0x6, 1)]));
    conn.poll_accept_recv(vec![UniStreamEvent::Bytes { stream: 1, bytes: second }])
        .expect("no error yet");
    let err = conn.poll_control().expect_err("second settings is fatal");
    assert_eq!(err.code, Code::H3FrameUnexpected);
    // the error is latched: every public operation now returns it
    let again = conn.poll_control().expect_err("latched");
    assert_eq!(again.code, Code::H3FrameUnexpected);
    let bi = conn.poll_accept_bi().expect_err("latched");
    assert_eq!(bi.code, Code::H3FrameUnexpected);
}

#[test]
fn missing_settings_closes_connection() {
    let mut conn = new_conn();
    let mut bytes: Vec<u8> = Vec::new();
    encode_varint(0x00, &mut bytes);
    bytes.extend_from_slice(&encode_frame(&Frame::Goaway(4)));
    conn.poll_accept_recv(vec![
        UniStreamEvent::New { stream: 1 },
        UniStreamEvent::Bytes { stream: 1, bytes },
    ])
    .expect("classification itself is fine");
    let err = conn.poll_control().expect_err("first frame must be settings");
    assert_eq!(err.code, Code::H3MissingSettings);
}

#[test]
fn duplicate_control_stream_is_stream_creation_error() {
    let mut conn = new_conn();
    bind_peer_control(&mut conn);
    let mut header: Vec<u8> = Vec::new();
    encode_varint(0x00, &mut header);
    let err = conn
        .poll_accept_recv(vec![
            UniStreamEvent::New { stream: 9 },
            UniStreamEvent::Bytes { stream: 9, bytes: header },
        ])
        .expect_err("a second control stream is fatal");
    assert_eq!(err.code, Code::H3StreamCreationError);
    assert!(conn.shared.read().error.is_some());
}

#[test]
fn goaway_monotonicity_violation() {
    let mut conn = new_conn();
    let mut recv_closing: Option<u64> = None;
    conn.process_goaway(&mut recv_closing, 8).expect("first goaway");
    assert_eq!(recv_closing, Some(8));
    assert!(conn.shared.read().closing);
    let err = conn
        .process_goaway(&mut recv_closing, 12)
        .expect_err("a greater id must be refused");
    assert_eq!(err.code, Code::H3IdError);
    assert_eq!(recv_closing, Some(8));
    assert!(conn.shared.read().error.is_some());
}

#[test]
fn goaway_smaller_id_is_recorded() {
    let mut conn = new_conn();
    let mut recv_closing: Option<u64> = Some(8);
    conn.process_goaway(&mut recv_closing, 3).expect("smaller id is fine");
    assert_eq!(recv_closing, Some(3));
}

#[test]
fn unknown_uni_type_gets_stop_sending_only() {
    let mut conn = new_conn();
    let mut header: Vec<u8> = Vec::new();
    encode_varint(0x55, &mut header);
    let actions = conn
        .poll_accept_recv(vec![
            UniStreamEvent::New { stream: 3 },
            UniStreamEvent::Bytes { stream: 3, bytes: header },
        ])
        .expect("an unknown type is not a connection error");
    assert_eq!(
        actions,
        vec![Action::StopSending { stream: 3, code: Code::H3StreamCreationError }]
    );
    assert!(conn.shared.read().error.is_none());
}

#[test]
fn stream_closed_before_header_is_tolerated() {
    let mut conn = new_conn();
    let actions = conn
        .poll_accept_recv(vec![
            UniStreamEvent::New { stream: 4 },
            UniStreamEvent::Eos { stream: 4 },
        ])
        .expect("no error");
    assert!(actions.is_empty());
    assert!(conn.shared.read().error.is_none());
}

#[test]
fn webtransport_buffer_limit_rejects_overflow() {
    let mut cfg = config();
    cfg.settings.enable_webtransport = true;
    cfg.wt_stream_buffer_limit = 1;
    let (mut conn, _) = ConnectionInner::new(false, false, cfg);
    let mut header: Vec<u8> = Vec::new();
    encode_varint(0x54, &mut header); // WebTransport uni type
    encode_varint(11, &mut header); // session id
    let actions = conn
        .poll_accept_recv(vec![
            UniStreamEvent::New { stream: 5 },
            UniStreamEvent::Bytes { stream: 5, bytes: header.clone() },
        ])
        .expect("buffered");
    assert!(actions.is_empty());
    assert_eq!(conn.accepted_streams.wt_uni_streams, vec![(11, 5)]);
    let actions = conn
        .poll_accept_recv(vec![
            UniStreamEvent::New { stream: 6 },
            UniStreamEvent::Bytes { stream: 6, bytes: header },
        ])
        .expect("rejected but not fatal");
    assert_eq!(
        actions,
        vec![Action::ResetStream {
            stream: 6,
            code: Code::H3WebTransportBufferedStreamRejected,
        }]
    );
}

#[test]
fn control_stream_reset_is_closed_critical_stream() {
    let mut conn = new_conn();
    bind_peer_control(&mut conn);
    conn.poll_control().expect("settings");
    conn.poll_accept_recv(vec![UniStreamEvent::Reset { stream: 1 }]).expect("no error yet");
    let err = conn.poll_control().expect_err("reset control stream is fatal");
    assert_eq!(err.code, Code::H3ClosedCriticalStream);
}

#[test]
fn control_stream_eos_is_closed_critical_stream() {
    let mut conn = new_conn();
    bind_peer_control(&mut conn);
    conn.poll_control().expect("settings");
    conn.poll_accept_recv(vec![UniStreamEvent::Eos { stream: 1 }]).expect("no error yet");
    let err = conn.poll_control().expect_err("closed control stream is fatal");
    assert_eq!(err.code, Code::H3ClosedCriticalStream);
}

#[test]
fn truncated_control_frame_is_frame_error() {
    let mut conn = new_conn();
    bind_peer_control(&mut conn);
    conn.poll_control().expect("settings");
    // a frame header promising more bytes than ever arrive, then EOS
    conn.poll_accept_recv(vec![
        UniStreamEvent::Bytes { stream: 1, bytes: vec![0x07, 0x04, 0x01] },
        UniStreamEvent::Eos { stream: 1 },
    ])
    .expect("no error yet");
    let err = conn.poll_control().expect_err("truncated frame");
    assert_eq!(err.code, Code::H3FrameError);
}

#[test]
fn shutdown_records_id_and_emits_goaway() {
    let mut conn = new_conn();
    let mut sent: Option<u64> = None;
    let bytes = conn.shutdown(&mut sent, 5).expect("ok").expect("a goaway goes out");
    assert_eq!(bytes, encode_frame(&Frame::Goaway(5)));
    assert_eq!(sent, Some(5));
    assert!(conn.shared.read().closing);
    // the same id again: re-sent, the recorded id does not move
    let again = conn.shutdown(&mut sent, 5).expect("ok").expect("re-sent");
    assert_eq!(again, encode_frame(&Frame::Goaway(5)));
    assert_eq!(sent, Some(5));
    // a greater id is a no-op
    assert!(conn.shutdown(&mut sent, 7).expect("ok").is_none());
    assert_eq!(sent, Some(5));
    // a smaller id goes out
    let smaller = conn.shutdown(&mut sent, 2).expect("ok").expect("sent");
    assert_eq!(smaller, encode_frame(&Frame::Goaway(2)));
    assert_eq!(sent, Some(2));
}

#[test]
fn close_connection_latches_first_error() {
    let mut conn = new_conn();
    let first = conn.close_connection(Code::H3InternalError, "first");
    assert_eq!(first.code, Code::H3InternalError);
    let second = conn.close_connection(Code::H3NoError, "second");
    assert_eq!(second.code, Code::H3InternalError);
    assert_eq!(second.message, "first");
    let mut sent: Option<u64> = None;
    let err = conn.shutdown(&mut sent, 1).expect_err("latched");
    assert_eq!(err.code, Code::H3InternalError);
    assert_eq!(sent, None);
}

#[test]
fn grease_stream_progresses_and_finishes() {
    let mut conn = new_conn();
    assert_eq!(conn.grease_step, GreaseStatus::NotStarted);
    // stream opened
    match conn.poll_grease_stream(GreaseStepOutcome::Ready) {
        Some(GreaseAction::SendBytes(bytes)) => {
            assert_eq!(bytes[0], 0x21); // reserved stream type
            assert_eq!(&bytes[1..], &encode_frame(&Frame::Grease)[..]);
        }
        other => panic!("expected the grease bytes, got {:?}", other),
    }
    assert_eq!(conn.grease_step, GreaseStatus::Started);
    // pending makes no progress
    assert!(conn.poll_grease_stream(GreaseStepOutcome::Pending).is_none());
    assert_eq!(conn.grease_step, GreaseStatus::Started);
    match conn.poll_grease_stream(GreaseStepOutcome::Ready) {
        Some(GreaseAction::Flush) => {}
        other => panic!("expected a flush, got {:?}", other),
    }
    match conn.poll_grease_stream(GreaseStepOutcome::Ready) {
        Some(GreaseAction::Finish) => {}
        other => panic!("expected a finish, got {:?}", other),
    }
    assert!(conn.poll_grease_stream(GreaseStepOutcome::Ready).is_none());
    assert_eq!(conn.grease_step, GreaseStatus::Finished);
    assert!(!conn.send_grease_stream_flag);
    // nothing moves any more
    assert!(conn.poll_grease_stream(GreaseStepOutcome::Ready).is_none());
    assert_eq!(conn.grease_step, GreaseStatus::Finished);
}

#[test]
fn grease_failure_abandons_for_good() {
    let mut conn = new_conn();
    assert!(conn.poll_grease_stream(GreaseStepOutcome::Failed).is_none());
    assert!(!conn.send_grease_stream_flag);
    assert_eq!(conn.grease_step, GreaseStatus::NotStarted);
    // never retried
    assert!(conn.poll_grease_stream(GreaseStepOutcome::Ready).is_none());
    assert_eq!(conn.grease_step, GreaseStatus::NotStarted);
}

#[test]
fn qpack_streams_bind_once() {
    let mut conn = new_conn();
    let mut enc: Vec<u8> = Vec::new();
    encode_varint(0x02, &mut enc);
    conn.poll_accept_recv(vec![
        UniStreamEvent::New { stream: 11 },
        UniStreamEvent::Bytes { stream: 11, bytes: enc.clone() },
    ])
    .expect("first encoder stream binds");
    assert_eq!(conn.encoder_recv, Some(11));
    let err = conn
        .poll_accept_recv(vec![
            UniStreamEvent::New { stream: 12 },
            UniStreamEvent::Bytes { stream: 12, bytes: enc },
        ])
        .expect_err("a second encoder stream is fatal");
    assert_eq!(err.code, Code::H3StreamCreationError);
}
