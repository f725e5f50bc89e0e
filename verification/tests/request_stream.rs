use h3::bytebuf::bytes_to_vec;
use h3::conn::{Config, ConnectionInner, ControlPoll};
use h3::error::{Code, ErrorScope};
use h3::frame::{encode_frame, Frame};
use h3::request::{RecvData, RecvInitial, RecvTrailers, RequestStream, RequestStreamState};
use h3::shared::{Settings, SharedStateRef};

fn conn() -> ConnectionInner {
    let (conn, _) = ConnectionInner::new(
        false,
        false,
        Config { send_grease: false, settings: Settings::default(), wt_stream_buffer_limit: 0 },
    );
    conn
}

fn body_stream(conn: &ConnectionInner) -> RequestStream {
    let mut rs = RequestStream::new(1024, SharedStateRef::default(), false, conn.error_sender());
    // the request-building layer consumes the initial HEADERS block
    rs.on_recv_bytes(&encode_frame(&Frame::Headers(vec![0x10])));
    match rs.poll_recv_initial_headers().expect("initial headers") {
        RecvInitial::Headers(block) => assert_eq!(block, vec![0x10]),
        other => panic!("expected the initial headers, got {:?}", other),
    }
    assert_eq!(rs.state, RequestStreamState::BodyOrTrailers);
    rs
}

#[test]
fn initial_headers_open_the_stream() {
    let conn = conn();
    let mut rs = RequestStream::new(64, SharedStateRef::default(), false, conn.error_sender());
    // nothing yet: the reader waits
    match rs.poll_recv_initial_headers().expect("pending") {
        RecvInitial::Pending => {}
        other => panic!("expected to wait, got {:?}", other),
    }
    rs.on_recv_bytes(&encode_frame(&Frame::Headers(vec![3, 4])));
    match rs.poll_recv_initial_headers().expect("headers") {
        RecvInitial::Headers(block) => assert_eq!(block, vec![3, 4]),
        other => panic!("expected the initial headers, got {:?}", other),
    }
    assert_eq!(rs.state, RequestStreamState::BodyOrTrailers);
}

#[test]
fn non_headers_first_frame_is_unexpected() {
    let conn = conn();
    let mut rs = RequestStream::new(64, SharedStateRef::default(), false, conn.error_sender());
    rs.on_recv_bytes(&encode_frame(&Frame::Data(vec![1])));
    let err = rs.poll_recv_initial_headers().expect_err("data before headers");
    assert_eq!(err.code, Code::H3FrameUnexpected);
    assert_eq!(rs.state, RequestStreamState::Idle);
}

#[test]
fn eos_before_initial_headers_is_unexpected() {
    let conn = conn();
    let mut rs = RequestStream::new(64, SharedStateRef::default(), false, conn.error_sender());
    rs.on_recv_eos();
    let err = rs.poll_recv_initial_headers().expect_err("empty request stream");
    assert_eq!(err.code, Code::H3FrameUnexpected);
}

#[test]
fn body_then_trailers_then_eos() {
    let conn = conn();
    let mut rs = body_stream(&conn);
    rs.on_recv_bytes(&encode_frame(&Frame::Data(vec![1, 2, 3])));
    rs.on_recv_bytes(&encode_frame(&Frame::Headers(vec![7, 7])));
    rs.on_recv_eos();
    match rs.poll_recv_data().expect("data") {
        RecvData::Data(chunk) => assert_eq!(chunk, vec![1, 2, 3]),
        other => panic!("expected the body chunk, got {:?}", other),
    }
    match rs.poll_recv_data().expect("trailers stashed") {
        RecvData::End => {}
        other => panic!("expected the body to end, got {:?}", other),
    }
    assert_eq!(rs.state, RequestStreamState::TrailersStashed);
    match rs.poll_recv_trailers().expect("trailers") {
        RecvTrailers::Block(block) => assert_eq!(bytes_to_vec(&block), vec![7, 7]),
        other => panic!("expected the trailer block, got {:?}", other),
    }
    assert_eq!(rs.state, RequestStreamState::Done);
}

#[test]
fn eos_without_trailers() {
    let conn = conn();
    let mut rs = body_stream(&conn);
    rs.on_recv_bytes(&encode_frame(&Frame::Data(vec![5])));
    rs.on_recv_eos();
    match rs.poll_recv_data().expect("data") {
        RecvData::Data(chunk) => assert_eq!(chunk, vec![5]),
        other => panic!("expected the body chunk, got {:?}", other),
    }
    match rs.poll_recv_data().expect("eos") {
        RecvData::End => {}
        other => panic!("expected the stream to end, got {:?}", other),
    }
    assert_eq!(rs.state, RequestStreamState::Done);
    match rs.poll_recv_trailers().expect("none") {
        RecvTrailers::NoTrailers => {}
        other => panic!("expected no trailers, got {:?}", other),
    }
}

#[test]
fn unexpected_frame_on_request_stream_reaches_the_driver() {
    let mut conn = conn();
    let mut rs = body_stream(&conn);
    rs.on_recv_bytes(&encode_frame(&Frame::Goaway(1)));
    let err = rs.poll_recv_data().expect_err("goaway off the control stream");
    assert_eq!(err.code, Code::H3FrameUnexpected);
    // the report travelled over the error channel: the driver's next poll
    // latches it and closes the connection with it
    let conn_err = conn.poll_control().expect_err("the report closes the connection");
    assert_eq!(conn_err.code, Code::H3FrameUnexpected);
    assert!(conn.shared.read().error.is_some());
    // once latched, every poll returns the same error
    match conn.poll_control() {
        Err(e) => assert_eq!(e.code, Code::H3FrameUnexpected),
        Ok(other) => panic!("the latched error must come back, got {:?}", other),
    }
}

#[test]
fn frame_after_trailers_is_unexpected() {
    let conn = conn();
    let mut rs = body_stream(&conn);
    rs.on_recv_bytes(&encode_frame(&Frame::Headers(vec![1])));
    rs.on_recv_bytes(&encode_frame(&Frame::Data(vec![2])));
    rs.on_recv_eos();
    match rs.poll_recv_data().expect("trailers stashed") {
        RecvData::End => {}
        other => panic!("expected the body to end, got {:?}", other),
    }
    let err = rs.poll_recv_trailers().expect_err("a frame after the trailers");
    assert_eq!(err.code, Code::H3FrameUnexpected);
}

#[test]
fn truncated_request_frame_is_frame_error() {
    let conn = conn();
    let mut rs = body_stream(&conn);
    let mut bytes = encode_frame(&Frame::Data(vec![1, 2, 3]));
    bytes.pop();
    rs.on_recv_bytes(&bytes);
    rs.on_recv_eos();
    let err = rs.poll_recv_data().expect_err("truncated");
    assert_eq!(err.code, Code::H3FrameError);
}

#[test]
fn send_data_frames_the_body() {
    let conn = conn();
    let mut rs = body_stream(&conn);
    let bytes = rs.send_data(vec![1, 2]);
    assert_eq!(bytes, vec![0x00, 0x02, 0x01, 0x02]);
}

#[test]
fn send_trailers_respects_peer_limit() {
    let conn = conn();
    let mut rs = body_stream(&conn);
    rs.conn_state.write().peer_config.max_field_section_size = 10;
    let err = rs.send_trailers(vec![1, 2, 3], 11).expect_err("too big for the peer");
    assert_eq!(err.scope, ErrorScope::Stream);
    assert_eq!(err.code, Code::H3MessageError);
    let bytes = rs.send_trailers(vec![1, 2, 3], 10).expect("within the limit");
    assert_eq!(bytes, encode_frame(&Frame::Headers(vec![1, 2, 3])));
}

#[test]
fn local_field_section_limit() {
    let conn = conn();
    let rs = body_stream(&conn);
    assert!(rs.check_decoded_field_section(1024).is_ok());
    let err = rs.check_decoded_field_section(1025).expect_err("over this side's limit");
    assert_eq!(err.scope, ErrorScope::Stream);
    assert_eq!(err.code, Code::H3MessageError);
}

#[test]
fn finish_sends_the_grease_frame_once()
{
    let conn = conn();
    let mut rs = RequestStream::new(0, SharedStateRef::default(), true, conn.error_sender());
    let bytes = rs.finish();
    assert_eq!(bytes, encode_frame(&Frame::Grease));
    assert!(rs.finish().is_empty());
}

#[test]
fn stop_codes_are_the_wire_values() {
    let conn = conn();
    let mut rs = body_stream(&conn);
    assert_eq!(rs.stop_sending(Code::H3RequestCancelled), 0x10c);
    assert_eq!(rs.state, RequestStreamState::Reset);
    let mut rs2 = body_stream(&conn);
    assert_eq!(rs2.stop_stream(Code::H3RequestRejected), 0x10b);
    assert_eq!(rs2.state, RequestStreamState::Reset);
}

#[test]
fn split_keeps_the_receive_side_state() {
    let conn = conn();
    let mut rs = RequestStream::new(256, SharedStateRef::default(), true, conn.error_sender());
    rs.on_recv_bytes(&encode_frame(&Frame::Data(vec![9])));
    let (send, recv) = rs.split();
    assert_eq!(send.max_field_section_size, 0);
    assert!(send.trailers.is_none());
    assert!(send.send_grease_frame);
    assert_eq!(recv.max_field_section_size, 256);
    assert_eq!(recv.state, RequestStreamState::Idle);
    assert!(!recv.recv_buf.is_empty());
}
