use h3::conn::{ConnectionInner, Config, ControlPoll, UniStreamEvent};
use h3::frame::{encode_frame, Frame};
use h3::shared::Settings;
use h3::stream_type::{resolve_uni_header, ResolvedStreamType};
use h3::varint::encode_varint;

#[test]
fn resolves_each_stream_type() {
    assert_eq!(
        resolve_uni_header(&vec![0x00]),
        Some((ResolvedStreamType::Control, 1))
    );
    assert_eq!(
        resolve_uni_header(&vec![0x02]),
        Some((ResolvedStreamType::Encoder, 1))
    );
    assert_eq!(
        resolve_uni_header(&vec![0x03]),
        Some((ResolvedStreamType::Decoder, 1))
    );
    // push: type then push id
    assert_eq!(
        resolve_uni_header(&vec![0x01, 0x09]),
        Some((ResolvedStreamType::Push { push_id: 9 }, 2))
    );
    // WebTransport: type (a two-byte varint) then session id
    let mut wt: Vec<u8> = Vec::new();
    encode_varint(0x54, &mut wt);
    wt.push(0x0b);
    assert_eq!(
        resolve_uni_header(&wt),
        Some((ResolvedStreamType::WebTransportUni { session_id: 11 }, 3))
    );
    // an unknown type resolves as unknown
    let mut buf: Vec<u8> = Vec::new();
    encode_varint(0x55, &mut buf);
    assert_eq!(
        resolve_uni_header(&buf),
        Some((ResolvedStreamType::Unknown { stream_type: 0x55 }, 2))
    );
}

#[test]
fn header_waits_for_its_second_varint() {
    // a push stream with no push id yet
    assert_eq!(resolve_uni_header(&vec![0x01]), None);
    assert_eq!(resolve_uni_header(&Vec::new()), None);
}

#[test]
fn push_stream_is_dropped_quietly() {
    let (mut conn, _) = ConnectionInner::new(
        false,
        false,
        Config { send_grease: false, settings: Settings::default(), wt_stream_buffer_limit: 0 },
    );
    let actions = conn
        .poll_accept_recv(vec![
            UniStreamEvent::New { stream: 8 },
            UniStreamEvent::Bytes { stream: 8, bytes: vec![0x01, 0x05] },
        ])
        .expect("a push stream is not an error");
    assert!(actions.is_empty());
    assert!(conn.shared.read().error.is_none());
}

#[test]
fn grease_frame_on_control_stream_is_ignored() {
    let (mut conn, _) = ConnectionInner::new(
        false,
        false,
        Config { send_grease: false, settings: Settings::default(), wt_stream_buffer_limit: 0 },
    );
    let mut bytes: Vec<u8> = Vec::new();
    encode_varint(0x00, &mut bytes); // control stream type
    bytes.extend_from_slice(&encode_frame(&Frame::Settings(vec![(0x6, 64)])));
    bytes.extend_from_slice(&[0x21, 0x01, 0xff]); // a reserved frame
    bytes.extend_from_slice(&encode_frame(&Frame::Goaway(0)));
    conn.poll_accept_recv(vec![
        UniStreamEvent::New { stream: 1 },
        UniStreamEvent::Bytes { stream: 1, bytes },
    ])
    .expect("no error");
    match conn.poll_control().expect("settings") {
        ControlPoll::Frame(Frame::Settings(_)) => {}
        other => panic!("expected the settings, got {:?}", other),
    }
    match conn.poll_control().expect("reserved frame skipped") {
        ControlPoll::Nothing => {}
        other => panic!("expected the reserved frame to be skipped, got {:?}", other),
    }
    match conn.poll_control().expect("goaway") {
        ControlPoll::Frame(Frame::Goaway(0)) => {}
        other => panic!("expected the goaway, got {:?}", other),
    }
}
