use h3::datagram::Datagram;
use h3::frame::{encode_frame, next_frame, parse_settings_payload, Frame, FrameReadError, FrameStep};
use h3::error::Code;
use h3::varint::{decode_varint, encode_varint};

fn roundtrip(v: u64) {
    let mut out: Vec<u8> = Vec::new();
    encode_varint(v, &mut out);
    let (got, used) = decode_varint(&out, 0).expect("complete varint");
    assert_eq!(got, v);
    assert_eq!(used, out.len());
}

#[test]
fn varint_round_trip_boundaries() {
    for v in [
        0u64,
        1,
        63,
        64,
        16383,
        16384,
        0x3fff_ffff,
        0x4000_0000,
        0x3fff_ffff_ffff_ffff,
    ] {
        roundtrip(v);
    }
}

#[test]
fn varint_exact_bytes() {
    let mut out: Vec<u8> = Vec::new();
    encode_varint(37, &mut out);
    assert_eq!(out, vec![37]);
    let mut out2: Vec<u8> = Vec::new();
    encode_varint(15293, &mut out2);
    assert_eq!(out2, vec![0x7b, 0xbd]);
    let mut out3: Vec<u8> = Vec::new();
    encode_varint(494878333, &mut out3);
    assert_eq!(out3, vec![0x9d, 0x7f, 0x3e, 0x7d]);
    let mut out4: Vec<u8> = Vec::new();
    encode_varint(151288809941952652, &mut out4);
    assert_eq!(out4, vec![0xc2, 0x19, 0x7c, 0x5e, 0xff, 0x14, 0xe8, 0x8c]);
}

#[test]
fn varint_incomplete_is_none() {
    // first byte promises two bytes, only one is there
    let buf = vec![0x7b];
    assert!(decode_varint(&buf, 0).is_none());
    assert!(decode_varint(&Vec::new(), 0).is_none());
}

#[test]
fn goaway_frame_exact_bytes() {
    let bytes = encode_frame(&Frame::Goaway(4));
    assert_eq!(bytes, vec![0x07, 0x01, 0x04]);
}

#[test]
fn data_frame_exact_bytes() {
    let bytes = encode_frame(&Frame::Data(vec![0xaa, 0xbb]));
    assert_eq!(bytes, vec![0x00, 0x02, 0xaa, 0xbb]);
}

#[test]
fn settings_frame_round_trip() {
    let pairs: Vec<(u64, u64)> = vec![(0x6, 4096), (0x33, 1), (0x4000, 77)];
    let bytes = encode_frame(&Frame::Settings(pairs.clone()));
    match next_frame(&bytes, 0, true).expect("parse") {
        FrameStep::Ready(Frame::Settings(got), next) => {
            assert_eq!(got, pairs);
            assert_eq!(next, bytes.len());
        }
        other => panic!("expected a settings frame, got {:?}", other),
    }
}

#[test]
fn settings_duplicate_id_is_settings_error() {
    let bytes = encode_frame(&Frame::Settings(vec![(0x6, 1), (0x6, 2)]));
    match next_frame(&bytes, 0, true) {
        Err(FrameReadError::Proto(code)) => assert_eq!(code, Code::H3SettingsError),
        other => panic!("expected a settings error, got {:?}", other),
    }
}

#[test]
fn settings_boolean_out_of_range_is_settings_error() {
    let payload = {
        let mut p: Vec<u8> = Vec::new();
        encode_varint(0x33, &mut p);
        encode_varint(2, &mut p);
        p
    };
    match parse_settings_payload(&payload) {
        Err(code) => assert_eq!(code, Code::H3SettingsError),
        other => panic!("expected a settings error, got {:?}", other),
    }
}

#[test]
fn truncated_frame_at_eos_is_unexpected_end() {
    let mut bytes = encode_frame(&Frame::Data(vec![1, 2, 3]));
    bytes.pop();
    match next_frame(&bytes, 0, true) {
        Err(FrameReadError::UnexpectedEnd) => {}
        other => panic!("expected a truncation error, got {:?}", other),
    }
    // without end of stream the reader just waits
    match next_frame(&bytes, 0, false) {
        Ok(FrameStep::Pending) => {}
        other => panic!("expected to wait for more bytes, got {:?}", other),
    }
}

#[test]
fn reserved_h2_frame_type_is_frame_unexpected() {
    // PING (0x6) with an empty payload
    let bytes = vec![0x06, 0x00];
    match next_frame(&bytes, 0, true) {
        Err(FrameReadError::Proto(code)) => assert_eq!(code, Code::H3FrameUnexpected),
        other => panic!("expected a frame error, got {:?}", other),
    }
}

#[test]
fn unknown_frame_type_is_skipped() {
    // grease frame type 0x21 with a 3-byte payload, then a GOAWAY
    let mut bytes = vec![0x21, 0x03, 1, 2, 3];
    let goaway = encode_frame(&Frame::Goaway(0));
    bytes.extend_from_slice(&goaway);
    match next_frame(&bytes, 0, true).expect("skip") {
        FrameStep::Skipped(next) => {
            assert_eq!(next, 5);
            match next_frame(&bytes, next, true).expect("goaway") {
                FrameStep::Ready(Frame::Goaway(0), _) => {}
                other => panic!("expected the goaway, got {:?}", other),
            }
        }
        other => panic!("expected the grease frame to be skipped, got {:?}", other),
    }
}

#[test]
fn datagram_round_trip() {
    let d = Datagram::new(7, vec![9, 8, 7]);
    let raw = d.encode();
    assert_eq!(raw, vec![0x07, 9, 8, 7]);
    let back = Datagram::decode(&raw).expect("flow id present");
    assert_eq!(back.flow_id, 7);
    assert_eq!(back.payload, vec![9, 8, 7]);
}
