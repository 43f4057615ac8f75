use rsocket::body::Body;
use rsocket::errors::FrameDecodeError;
use rsocket::frame::{Frame, Writeable};
use rsocket::header::{
    decode_header, encode_header, FLAG_COMPLETE, FLAG_METADATA, FLAG_NEXT, FLAG_RESUME,
    TYPE_CANCEL, TYPE_REQUEST_FNF,
};
use rsocket::payload::{payload_len, read_payload, write_payload};
use rsocket::request_fnf::RequestFNF;

fn encode(frame: &Frame) -> Vec<u8> {
    let mut buf = Vec::new();
    frame.write_to(&mut buf);
    assert_eq!(buf.len(), frame.len());
    buf
}

fn round_trip(frame: Frame) {
    let bytes = encode(&frame);
    let back = Frame::decode(&bytes).expect("decodes");
    assert_eq!(back, frame);
}

#[test]
fn fnf_without_metadata_scenario() {
    let frame = RequestFNF::builder(7, 0).set_data(b"hello".to_vec()).build();
    let bytes = encode(&frame);
    assert_eq!(bytes, vec![0, 0, 0, 7, 0x14, 0x00, b'h', b'e', b'l', b'l', b'o']);
    let back = Frame::decode(&bytes).unwrap();
    assert_eq!(back.get_stream_id(), 7);
    assert_eq!(back.get_frame_type(), TYPE_REQUEST_FNF);
    assert_eq!(back.get_flag() & FLAG_METADATA, 0);
    match back.get_body() {
        Body::RequestFNF(v) => {
            assert_eq!(v.get_data(), &Some(b"hello".to_vec()));
            assert_eq!(v.get_metadata(), &None);
        }
        other => panic!("unexpected body {:?}", other),
    }
}

#[test]
fn fnf_with_metadata_scenario() {
    let frame = RequestFNF::builder(7, 0)
        .set_data(b"hello".to_vec())
        .set_metadata(b"m".to_vec())
        .build();
    assert_eq!(frame.get_flag(), FLAG_METADATA);
    let bytes = encode(&frame);
    assert_eq!(
        bytes,
        vec![0, 0, 0, 7, 0x15, 0x00, 0, 0, 1, b'm', b'h', b'e', b'l', b'l', b'o']
    );
    let back = Frame::decode(&bytes).unwrap();
    match back.get_body() {
        Body::RequestFNF(v) => {
            assert_eq!(v.get_data(), &Some(b"hello".to_vec()));
            assert_eq!(v.get_metadata(), &Some(b"m".to_vec()));
        }
        other => panic!("unexpected body {:?}", other),
    }
}

#[test]
fn header_bit_exact() {
    for &(sid, code, flag) in &[(0u32, 0u16, 0u16), (1, 63, 0xFFFF), (0xDEADBEEF, 5, 0x123), (u32::MAX, 14, 1023)] {
        let mut buf = Vec::new();
        encode_header(&mut buf, sid, code, flag);
        assert_eq!(buf.len(), 6);
        assert_eq!(decode_header(&buf), (sid, code, flag & 0x03FF));
    }
    let mut buf = Vec::new();
    encode_header(&mut buf, 0x01020304, 0x3F, 0x3FF);
    assert_eq!(buf, vec![1, 2, 3, 4, 0xFF, 0xFF]);
}

#[test]
fn builder_keeps_metadata_flag_in_step() {
    let b = RequestFNF::builder(3, FLAG_NEXT).set_metadata(vec![1]);
    let f = b.build();
    assert_eq!(f.get_flag(), FLAG_NEXT | FLAG_METADATA);

    let f = RequestFNF::builder(3, FLAG_NEXT)
        .set_metadata(vec![1])
        .set_all((Some(vec![2]), None))
        .build();
    assert_eq!(f.get_flag(), FLAG_NEXT);
    match f.get_body() {
        Body::RequestFNF(v) => {
            assert_eq!(v.get_metadata(), &None);
            assert_eq!(v.get_data(), &Some(vec![2]));
        }
        other => panic!("unexpected body {:?}", other),
    }

    let f = RequestFNF::builder(3, 0).set_all((None, Some(vec![9]))).build();
    assert_eq!(f.get_flag(), FLAG_METADATA);

    let f = RequestFNF::builder(3, 0).set_data(vec![4]).build();
    assert_eq!(f.get_flag() & FLAG_METADATA, 0);
}

#[test]
fn empty_metadata_is_present() {
    let (m, d) = read_payload(FLAG_METADATA, &[0, 0, 0]).unwrap();
    assert_eq!(m, Some(vec![]));
    assert_eq!(d, None);
    let (m, d) = read_payload(0, &[]).unwrap();
    assert_eq!(m, None);
    assert_eq!(d, None);
    let (m, d) = read_payload(FLAG_METADATA, &[0, 0, 0, 7]).unwrap();
    assert_eq!(m, Some(vec![]));
    assert_eq!(d, Some(vec![7]));
}

#[test]
fn metadata_overrun_is_refused() {
    assert!(read_payload(FLAG_METADATA, &[0, 0, 5, 1, 2]).is_err());
    assert!(read_payload(FLAG_METADATA, &[0, 0]).is_err());
    let bytes = vec![0, 0, 0, 1, 0x15, 0x00, 0, 0, 9, 1];
    assert_eq!(Frame::decode(&bytes).unwrap_err(), FrameDecodeError::Truncated);
}

#[test]
fn payload_codec_writes_length_prefix() {
    let mut buf = Vec::new();
    let m = Some(vec![0xAA; 300]);
    let d = Some(vec![1, 2]);
    write_payload(&mut buf, &m, &d);
    assert_eq!(&buf[..3], &[0, 1, 44]);
    assert_eq!(buf.len(), 3 + 300 + 2);
    assert_eq!(payload_len(&m, &d), 305);
    assert_eq!(payload_len(&None, &None), 0);
}

#[test]
fn unknown_type_is_illegal() {
    let bytes = vec![0, 0, 0, 1, 0xFC, 0x00, 1, 2, 3];
    let err = Frame::decode(&bytes).unwrap_err();
    assert_eq!(err, FrameDecodeError::IllegalFrameType);
    assert_eq!(err.message(), "illegal frame type");
    let zero = vec![0, 0, 0, 1, 0x00, 0x00];
    assert_eq!(Frame::decode(&zero).unwrap_err(), FrameDecodeError::IllegalFrameType);
}

#[test]
fn short_input_is_truncated() {
    assert_eq!(Frame::decode(&[0, 0, 0]).unwrap_err(), FrameDecodeError::Truncated);
    let request_n = vec![0, 0, 0, 1, 0x20, 0x00, 0, 0];
    assert_eq!(Frame::decode(&request_n).unwrap_err(), FrameDecodeError::Truncated);
    assert_eq!(FrameDecodeError::Truncated.message(), "frame truncated");
}

#[test]
fn cancel_is_header_only() {
    let body = Body::Cancel();
    assert_eq!(body.len(), 0);
    let mut buf = Vec::new();
    body.write_to(&mut buf);
    assert!(buf.is_empty());
    let frame = Frame::new(9, Body::Cancel(), 0);
    assert_eq!(frame.len(), 6);
    let bytes = encode(&frame);
    assert_eq!(bytes, vec![0, 0, 0, 9, 0x24, 0x00]);
    let back = Frame::decode(&bytes).unwrap();
    assert_eq!(back.get_frame_type(), TYPE_CANCEL);
    assert_eq!(back.get_body(), &Body::Cancel());
}

#[test]
fn flag_predicates() {
    let f = Frame::new(1, Body::Cancel(), FLAG_NEXT);
    assert!(f.has_next());
    assert!(!f.has_complete());
    let f = Frame::new(1, Body::Cancel(), FLAG_COMPLETE);
    assert!(!f.has_next());
    assert!(f.has_complete());
}

#[test]
fn split_hands_over_data_then_metadata() {
    let bytes = vec![0, 0, 1, 5, 6];
    let v = RequestFNF::decode(FLAG_METADATA, &bytes).unwrap();
    assert_eq!(v.split(), (Some(vec![6]), Some(vec![5])));
}

#[test]
fn round_trip_every_kind() {
    round_trip(Frame::new(
        0,
        Body::Setup {
            major_version: 1,
            minor_version: 0,
            keepalive: 30_000,
            lifetime: 90_000,
            resume_token: Some(b"tok".to_vec()),
            mime_metadata: b"application/json".to_vec(),
            mime_data: b"text/plain".to_vec(),
            metadata: Some(b"md".to_vec()),
            data: Some(b"hi".to_vec()),
        },
        FLAG_RESUME | FLAG_METADATA,
    ));
    round_trip(Frame::new(
        0,
        Body::Setup {
            major_version: 1,
            minor_version: 2,
            keepalive: 1,
            lifetime: 2,
            resume_token: None,
            mime_metadata: vec![],
            mime_data: b"x".to_vec(),
            metadata: None,
            data: None,
        },
        0,
    ));
    round_trip(Frame::new(0, Body::Lease { ttl: 100, number_of_requests: 5, metadata: Some(vec![1, 2]) }, FLAG_METADATA));
    round_trip(Frame::new(0, Body::Lease { ttl: 100, number_of_requests: 5, metadata: None }, 0));
    round_trip(Frame::new(0, Body::Keepalive { last_received_position: u64::MAX - 3, data: Some(vec![7]) }, FLAG_RESUME));
    round_trip(RequestFNF::builder(5, 0).set_all((Some(vec![1]), Some(vec![]))).build());
    round_trip(Frame::new(3, Body::RequestResponse { metadata: None, data: Some(vec![1, 2, 3]) }, 0));
    round_trip(Frame::new(3, Body::RequestStream { initial_request_n: 10, metadata: Some(vec![4]), data: None }, FLAG_METADATA));
    round_trip(Frame::new(3, Body::RequestChannel { initial_request_n: 0x7FFF_FFFF, metadata: None, data: Some(vec![0]) }, FLAG_COMPLETE));
    round_trip(Frame::new(3, Body::RequestN { n: 42 }, 0));
    round_trip(Frame::new(3, Body::Cancel(), 0));
    round_trip(Frame::new(3, Body::Payload { metadata: Some(vec![]), data: Some(vec![9]) }, FLAG_METADATA | FLAG_NEXT | FLAG_COMPLETE));
    round_trip(Frame::new(3, Body::Error { code: 0x201, data: Some(b"boom".to_vec()) }, 0));
    round_trip(Frame::new(0, Body::MetadataPush { metadata: Some(vec![1, 1]), data: None }, FLAG_METADATA));
    round_trip(Frame::new(
        0,
        Body::Resume {
            major_version: 1,
            minor_version: 0,
            token: b"resume".to_vec(),
            last_received_server_position: 77,
            first_available_client_position: 1 << 40,
        },
        0,
    ));
    round_trip(Frame::new(0, Body::ResumeOK { last_received_client_position: 12345 }, 0));
}

#[test]
fn request_n_wire_form() {
    let bytes = encode(&Frame::new(1, Body::RequestN { n: 0x01020304 }, 0));
    assert_eq!(bytes, vec![0, 0, 0, 1, 0x20, 0x00, 1, 2, 3, 4]);
}

#[test]
fn setup_wire_form() {
    let frame = Frame::new(
        0,
        Body::Setup {
            major_version: 1,
            minor_version: 0,
            keepalive: 2,
            lifetime: 3,
            resume_token: Some(vec![0xAB]),
            mime_metadata: b"a".to_vec(),
            mime_data: b"b".to_vec(),
            metadata: None,
            data: Some(vec![0xCD]),
        },
        FLAG_RESUME,
    );
    let bytes = encode(&frame);
    assert_eq!(
        bytes,
        vec![
            0, 0, 0, 0, 0x04, 0x80, 0, 1, 0, 0, 0, 0, 0, 2, 0, 0, 0, 3, 0, 1, 0xAB, 1, b'a', 1,
            b'b', 0xCD
        ]
    );
}

#[test]
fn encode_matches_write_to() {
    let frame = Frame::new(2, Body::Error { code: 0x102, data: Some(b"bye".to_vec()) }, 0);
    assert!(frame.is_writable());
    let bytes = frame.encode();
    assert_eq!(bytes, vec![0, 0, 0, 2, 0x2C, 0x00, 0, 0, 1, 2, b'b', b'y', b'e']);
    assert_eq!(bytes, encode(&frame));
}

#[test]
fn overlong_mime_is_not_writable() {
    let frame = Frame::new(
        0,
        Body::Setup {
            major_version: 1,
            minor_version: 0,
            keepalive: 1,
            lifetime: 1,
            resume_token: None,
            mime_metadata: vec![b'a'; 256],
            mime_data: vec![],
            metadata: None,
            data: None,
        },
        0,
    );
    assert!(!frame.is_writable());
}

#[test]
fn builder_clears_metadata_flag_without_metadata() {
    let f = RequestFNF::builder(1, FLAG_METADATA | FLAG_NEXT).build();
    assert_eq!(f.get_flag(), FLAG_NEXT);
    let f = RequestFNF::builder(1, FLAG_METADATA).set_data(vec![5]).build();
    assert_eq!(f.get_flag() & FLAG_METADATA, 0);
    let bytes = encode(&f);
    assert_eq!(bytes, vec![0, 0, 0, 1, 0x14, 0x00, 5]);
}

#[test]
fn flag_bits_above_ten_are_dropped_on_the_wire() {
    let f = Frame::new(4, Body::Cancel(), 0xFC00 | FLAG_NEXT);
    let bytes = encode(&f);
    assert_eq!(bytes, vec![0, 0, 0, 4, 0x24, 0x20]);
    let back = Frame::decode(&bytes).unwrap();
    assert_eq!(back.get_stream_id(), 4);
    assert_eq!(back.get_frame_type(), TYPE_CANCEL);
    assert_eq!(back.get_flag(), FLAG_NEXT);
}
