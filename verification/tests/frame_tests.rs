//! The device-link frame codec.

use homieflow::frame::{Error, Frame, FrameCodec, ResponseCode};

#[test]
fn test_connect_codec() {
    let frame = Frame::Connect {
        client_id: [1, 2, 3, 4, 5, 6, 7, 8, 9, 10, 11, 12, 13, 14, 15, 16],
    };
    let mut codec = FrameCodec::new();
    let mut bytes: Vec<u8> = Vec::new();
    codec.encode(frame, &mut bytes);
    let decoded_frame = codec.decode(&mut bytes).unwrap().unwrap();
    assert_eq!(frame, decoded_frame);
    assert!(bytes.is_empty());
}

#[test]
fn test_connack_codec() {
    let frame = Frame::ConnACK { response_code: ResponseCode::Unauthorized };
    let mut codec = FrameCodec::new();
    let mut bytes: Vec<u8> = Vec::new();
    codec.encode(frame, &mut bytes);
    let decoded_frame = codec.decode(&mut bytes).unwrap().unwrap();
    assert_eq!(frame, decoded_frame);
    assert!(bytes.is_empty());
}

#[test]
fn decode_waits_for_whole_frame() {
    let mut codec = FrameCodec::new();
    let mut empty: Vec<u8> = Vec::new();
    assert_eq!(codec.decode(&mut empty), Ok(None));
    let mut partial_connect: Vec<u8> = vec![0, 1, 2, 3];
    assert_eq!(codec.decode(&mut partial_connect), Ok(None));
    assert_eq!(partial_connect, vec![0, 1, 2, 3]);
    let mut partial_ack: Vec<u8> = vec![1];
    assert_eq!(codec.decode(&mut partial_ack), Ok(None));
}

#[test]
fn decode_rejects_unknown_opcode() {
    let mut codec = FrameCodec::new();
    let mut bytes: Vec<u8> = vec![9, 0];
    assert_eq!(codec.decode(&mut bytes), Err(Error::InvalidOpcode(9)));
}

#[test]
fn decode_rejects_unknown_response_code() {
    let mut codec = FrameCodec::new();
    let mut bytes: Vec<u8> = vec![1, 7];
    assert_eq!(codec.decode(&mut bytes), Err(Error::InvalidOpcode(7)));
}

#[test]
fn decode_leaves_following_frames_in_place() {
    let mut codec = FrameCodec::new();
    let mut bytes: Vec<u8> = Vec::new();
    codec.encode(Frame::ConnACK { response_code: ResponseCode::Accepted }, &mut bytes);
    codec.encode(
        Frame::Connect { client_id: [0; 16] },
        &mut bytes,
    );
    let first = codec.decode(&mut bytes).unwrap().unwrap();
    assert_eq!(first, Frame::ConnACK { response_code: ResponseCode::Accepted });
    let second = codec.decode(&mut bytes).unwrap().unwrap();
    assert_eq!(second, Frame::Connect { client_id: [0; 16] });
    assert!(bytes.is_empty());
}
