use base64::engine::general_purpose;
use base64::Engine as _;
use crc16::{State, XMODEM};

use mcumgr_client::error::SmpError;
use mcumgr_client::frame::{chunk_lines, encode_request, unframe_checked, unframe_payload};
use mcumgr_client::header::{
    decode_header_v2, encode_header_v2, NmpGroup, NmpHdr, NmpId, NmpIdDef, NmpIdFs, NmpOp,
};
use mcumgr_client::receive::{Receiver, RxStatus};
use mcumgr_client::seq::SeqAllocator;
use mcumgr_client::transport::{
    accept_serial_response, check_answer, empty_body_value, udp_parse_response,
    udp_request_packet, validate_response,
};
use mcumgr_client::cbor::CborValue;

/// CBOR `{"d": "hello"}`.
const ECHO_REQ: [u8; 9] = [0xa1, 0x61, 0x64, 0x65, b'h', b'e', b'l', b'l', b'o'];
/// CBOR `{"r": "hello"}`.
const ECHO_RSP: [u8; 9] = [0xa1, 0x61, 0x72, 0x65, b'h', b'e', b'l', b'l', b'o'];

fn receive_all(frame: &[u8]) -> (Receiver, RxStatus, usize) {
    let mut rx = Receiver::new();
    let mut status = RxStatus::Pending;
    let mut used = 0;
    for &b in frame {
        status = rx.push(b);
        used += 1;
        if status != RxStatus::Pending {
            break;
        }
    }
    (rx, status, used)
}

fn lines(frame: &[u8]) -> Vec<Vec<u8>> {
    let mut out = Vec::new();
    let mut cur = Vec::new();
    for &b in frame {
        if b == b'\n' {
            out.push(cur.clone());
            cur.clear();
        } else {
            cur.push(b);
        }
    }
    assert!(cur.is_empty());
    out
}

#[test]
fn test_next_seq_id() {
    let mut counter = SeqAllocator::new_random();
    let mut ids = std::collections::HashSet::new();
    let initial_id = counter.next_seq_id();
    ids.insert(initial_id);

    for _ in 0..u8::MAX {
        let id = counter.next_seq_id();
        assert!(ids.insert(id), "Duplicate ID: {id}");
    }

    let wrapped_id = counter.next_seq_id();
    assert_eq!(wrapped_id, initial_id, "Wrapped ID does not match initial ID");
}

#[test]
fn seq_counter_wraps_from_255() {
    let mut counter = SeqAllocator::new(255);
    assert_eq!(counter.next_seq_id(), 255);
    assert_eq!(counter.next_seq_id(), 0);
    assert_eq!(counter.next_seq_id(), 1);
}

#[test]
fn serial_header_bytes_and_round_trip() {
    let h = NmpHdr { op: NmpOp::Write, flags: 0, len: 0x0102, group: NmpGroup::PerUser, seq: 0x42, id: 7 };
    let bytes = h.serialize();
    assert_eq!(bytes, vec![2, 0, 1, 2, 0, 64, 0x42, 7]);
    assert_eq!(NmpHdr::deserialize(&bytes), Ok(h));
    let mut longer = bytes.clone();
    longer.extend_from_slice(&[9, 9, 9]);
    assert_eq!(NmpHdr::deserialize(&longer), Ok(h));
}

#[test]
fn serial_header_rejects_unknown_values() {
    assert_eq!(NmpHdr::deserialize(&[4, 0, 0, 0, 0, 0, 0, 0]), Err(SmpError::DecodeError));
    assert_eq!(NmpHdr::deserialize(&[0, 0, 0, 0, 0, 10, 0, 0]), Err(SmpError::DecodeError));
    assert_eq!(NmpHdr::deserialize(&[0, 0, 0, 0, 0, 0, 0]), Err(SmpError::DecodeError));
}

#[test]
fn udp_header_bytes_and_round_trip() {
    let bytes = encode_header_v2(NmpOp::Read, NmpGroup::Fs, 1, 300, 9);
    assert_eq!(bytes, vec![0x08, 0, 1, 44, 0, 8, 9, 1]);
    let h = decode_header_v2(&bytes).unwrap();
    assert_eq!(h, NmpHdr { op: NmpOp::Read, flags: 0, len: 300, group: NmpGroup::Fs, seq: 9, id: 1 });
    // Bits above the operation are not read back.
    assert_eq!(decode_header_v2(&[0xfb, 5, 0, 0, 0, 0, 1, 2]).unwrap().op, NmpOp::WriteRsp);
    assert_eq!(decode_header_v2(&[0x08, 0, 0, 0]), Err(SmpError::DecodeError));
}

#[test]
fn new_req_takes_command_id() {
    let h = NmpHdr::new_req(NmpOp::Read, NmpGroup::Fs, NmpIdFs::FileHash);
    assert_eq!(h, NmpHdr { op: NmpOp::Read, flags: 0, len: 0, group: NmpGroup::Fs, seq: 0, id: 2 });
    assert_eq!(NmpIdDef::BootloaderInfo.to_u8(), 8);
}

#[test]
fn crc16_xmodem_check_value() {
    // The checksum of "123456789" must be 0x31C3: a payload carrying it passes the
    // checksum test and only fails on its (invalid) header.
    let mut p = vec![0x00, 0x0b];
    p.extend_from_slice(b"123456789");
    p.extend_from_slice(&[0x31, 0xc3]);
    assert_eq!(unframe_payload(&p), Err(SmpError::DecodeError));
    let last = p.len() - 1;
    p[last] = 0xc4;
    assert_eq!(unframe_payload(&p), Err(SmpError::FramingError));
}

#[test]
fn echo_request_frame_is_exact() {
    let (frame, hdr) =
        encode_request(128, NmpOp::Write, NmpGroup::Default, NmpIdDef::Echo, &ECHO_REQ.to_vec(), 0x42)
            .unwrap();
    assert_eq!(hdr, NmpHdr { op: NmpOp::Write, flags: 0, len: 9, group: NmpGroup::Default, seq: 0x42, id: 0 });
    let mut middle = vec![2, 0, 0, 9, 0, 0, 0x42, 0];
    middle.extend_from_slice(&ECHO_REQ);
    let crc = State::<XMODEM>::calculate(&middle);
    let mut payload = vec![0, (middle.len() + 2) as u8];
    payload.extend_from_slice(&middle);
    payload.extend_from_slice(&crc.to_be_bytes());
    let mut expected = vec![6, 9];
    expected.extend_from_slice(general_purpose::STANDARD.encode(&payload).as_bytes());
    expected.push(b'\n');
    assert_eq!(frame.len(), 31);
    assert_eq!(frame, expected);
}

#[test]
fn echo_round_trip_over_serial_frames() {
    let (req_frame, req_hdr) =
        encode_request(128, NmpOp::Write, NmpGroup::Default, NmpIdDef::Echo, &ECHO_REQ.to_vec(), 0x42)
            .unwrap();
    // The device side reads the request back.
    let (rx, status, used) = receive_all(&req_frame);
    assert_eq!(status, RxStatus::Complete);
    assert_eq!(used, req_frame.len());
    let (h, body) = rx.finish().unwrap();
    assert_eq!(h, req_hdr);
    assert_eq!(body, ECHO_REQ.to_vec());
    // The device answers.
    let (rsp_frame, _) =
        encode_request(128, NmpOp::WriteRsp, NmpGroup::Default, NmpIdDef::Echo, &ECHO_RSP.to_vec(), 0x42)
            .unwrap();
    let (rx, status, _) = receive_all(&rsp_frame);
    assert_eq!(status, RxStatus::Complete);
    let (h, body) = accept_serial_response(&req_hdr, &rx.payload).unwrap();
    assert_eq!(h, NmpHdr { op: NmpOp::WriteRsp, flags: 0, len: 9, group: NmpGroup::Default, seq: 0x42, id: 0 });
    assert_eq!(body, ECHO_RSP.to_vec());
}

#[test]
fn long_body_spans_lines_and_reassembles() {
    let body: Vec<u8> = (0..700u32).map(|i| (i * 7 % 251) as u8).collect();
    let (frame, hdr) =
        encode_request(128, NmpOp::Write, NmpGroup::Fs, NmpIdFs::File, &body, 3).unwrap();
    let ls = lines(&frame);
    assert!(ls.len() > 1);
    assert_eq!(&ls[0][..2], &[6, 9]);
    for l in &ls[1..] {
        assert_eq!(&l[..2], &[4, 20]);
    }
    for l in &ls {
        assert!(l.len() - 2 <= 124);
    }
    let (rx, status, used) = receive_all(&frame);
    assert_eq!(status, RxStatus::Complete);
    assert_eq!(used, frame.len());
    assert_eq!(rx.finish().unwrap(), (hdr, body));
}

#[test]
fn line_length_six_gives_two_character_lines() {
    let (frame, hdr) =
        encode_request(6, NmpOp::Write, NmpGroup::Default, NmpIdDef::Echo, &ECHO_REQ.to_vec(), 1).unwrap();
    let ls = lines(&frame);
    for l in &ls {
        assert_eq!(l.len(), 4);
    }
    let (rx, status, used) = receive_all(&frame);
    assert_eq!(status, RxStatus::Complete);
    assert_eq!(used, frame.len());
    assert_eq!(rx.finish().unwrap(), (hdr, ECHO_REQ.to_vec()));
}

#[test]
fn reframing_the_text_gives_the_same_bytes() {
    let (frame, _) =
        encode_request(20, NmpOp::Read, NmpGroup::Stat, NmpIdDef::Echo, &ECHO_REQ.to_vec(), 5).unwrap();
    let (rx, _, _) = receive_all(&frame);
    assert_eq!(chunk_lines(&rx.text, 16), frame);
}

#[test]
fn line_length_below_six_is_refused() {
    let r = encode_request(5, NmpOp::Write, NmpGroup::Default, NmpIdDef::Echo, &vec![], 0);
    assert_eq!(r, Err(SmpError::ConfigError));
}

#[test]
fn body_too_long_for_length_prefix_is_refused() {
    let body = vec![0u8; 65526];
    let r = encode_request(128, NmpOp::Write, NmpGroup::Default, NmpIdDef::Echo, &body, 0);
    assert_eq!(r, Err(SmpError::FramingError));
    let body = vec![0u8; 65525];
    assert!(encode_request(128, NmpOp::Write, NmpGroup::Default, NmpIdDef::Echo, &body, 0).is_ok());
}

#[test]
fn wrong_start_marker_fails_at_second_byte() {
    let mut rx = Receiver::new();
    assert_eq!(rx.push(0x06), RxStatus::Pending);
    assert_eq!(rx.push(0x08), RxStatus::Failed(SmpError::FramingError));
    // Nothing more is taken.
    assert_eq!(rx.push(0x09), RxStatus::Failed(SmpError::FramingError));
    assert!(rx.text.is_empty());
}

#[test]
fn wrong_continuation_marker_fails() {
    let (frame, _) =
        encode_request(6, NmpOp::Write, NmpGroup::Default, NmpIdDef::Echo, &ECHO_REQ.to_vec(), 1).unwrap();
    let mut broken = frame.clone();
    broken[5] = 6; // first byte of the second line's marker
    let (_, status, used) = receive_all(&broken);
    assert_eq!(status, RxStatus::Failed(SmpError::FramingError));
    assert_eq!(used, 6);
}

#[test]
fn undecodable_text_is_a_decode_error() {
    let mut rx = Receiver::new();
    for &b in &[6u8, 9, b'@', b'@', b'@', b'@'] {
        assert_eq!(rx.push(b), RxStatus::Pending);
    }
    assert_eq!(rx.push(b'\n'), RxStatus::Failed(SmpError::DecodeError));
}

#[test]
fn bad_length_prefix_is_a_framing_error() {
    let middle = [2u8, 0, 0, 0, 0, 0, 1, 0];
    let crc = State::<XMODEM>::calculate(&middle);
    let mut p = vec![0, 11];
    p.extend_from_slice(&middle);
    p.extend_from_slice(&crc.to_be_bytes());
    assert_eq!(unframe_checked(&p, crc), Err(SmpError::FramingError));
    p[1] = 10;
    assert_eq!(
        unframe_checked(&p, crc).unwrap().0,
        NmpHdr { op: NmpOp::Write, flags: 0, len: 0, group: NmpGroup::Default, seq: 1, id: 0 }
    );
    assert_eq!(unframe_checked(&p, crc ^ 1), Err(SmpError::FramingError));
    assert_eq!(unframe_checked(&[0, 2, 0], crc), Err(SmpError::FramingError));
}

#[test]
fn response_correlation() {
    let req = NmpHdr { op: NmpOp::Read, flags: 0, len: 0, group: NmpGroup::Fs, seq: 0x10, id: 1 };
    let good = NmpHdr { op: NmpOp::ReadRsp, len: 7, ..req };
    assert!(check_answer(&req, &good));
    assert!(!check_answer(&req, &NmpHdr { seq: 0x11, ..good }));
    assert!(!check_answer(&req, &NmpHdr { op: NmpOp::WriteRsp, ..good }));
    assert!(!check_answer(&req, &NmpHdr { group: NmpGroup::Image, ..good }));
    let not_a_request = NmpHdr { op: NmpOp::ReadRsp, ..req };
    assert!(!check_answer(&not_a_request, &good));
    assert_eq!(validate_response(&req, &good), Ok(()));
    assert_eq!(validate_response(&req, &NmpHdr { seq: 0x11, ..good }), Err(SmpError::WrongResponseType));
}

#[test]
fn sequence_mismatch_is_wrong_response_type() {
    let (_, req_hdr) =
        encode_request(128, NmpOp::Write, NmpGroup::Default, NmpIdDef::Echo, &ECHO_REQ.to_vec(), 0x10)
            .unwrap();
    let (rsp_frame, _) =
        encode_request(128, NmpOp::WriteRsp, NmpGroup::Default, NmpIdDef::Echo, &ECHO_RSP.to_vec(), 0x11)
            .unwrap();
    let (rx, status, _) = receive_all(&rsp_frame);
    assert_eq!(status, RxStatus::Complete);
    assert_eq!(accept_serial_response(&req_hdr, &rx.payload), Err(SmpError::WrongResponseType));
    // A fresh receiver takes the next, matching response.
    let (rsp_frame, _) =
        encode_request(128, NmpOp::WriteRsp, NmpGroup::Default, NmpIdDef::Echo, &ECHO_RSP.to_vec(), 0x10)
            .unwrap();
    let (rx, _, _) = receive_all(&rsp_frame);
    assert!(accept_serial_response(&req_hdr, &rx.payload).is_ok());
}

#[test]
fn udp_packet_and_response() {
    let p = udp_request_packet(NmpOp::Write, NmpGroup::Default, 0, &ECHO_REQ, 0x42).unwrap();
    let mut expected = vec![0x0a, 0, 0, 9, 0, 0, 0x42, 0];
    expected.extend_from_slice(&ECHO_REQ);
    assert_eq!(p, expected);

    let mut rsp = vec![0x0b, 0, 0, 9, 0, 0, 0x42, 0];
    rsp.extend_from_slice(&ECHO_RSP);
    let (h, body) = udp_parse_response(NmpOp::Write, NmpGroup::Default, 0x42, &rsp).unwrap();
    assert_eq!(h.op, NmpOp::WriteRsp);
    assert_eq!(body, ECHO_RSP.to_vec());

    assert_eq!(udp_parse_response(NmpOp::Write, NmpGroup::Default, 0x41, &rsp), Err(SmpError::WrongResponseType));
    assert_eq!(udp_parse_response(NmpOp::Read, NmpGroup::Default, 0x42, &rsp), Err(SmpError::WrongResponseType));
    assert_eq!(udp_parse_response(NmpOp::Write, NmpGroup::Default, 0x42, &rsp[..7]), Err(SmpError::FramingError));
    assert!(udp_request_packet(NmpOp::Write, NmpGroup::Default, 0, &vec![0u8; 65536], 0).is_err());
}

#[test]
fn udp_empty_body_is_an_empty_map() {
    let rsp = [0x0b, 0, 0, 0, 0, 0, 7, 5];
    let (_, body) = udp_parse_response(NmpOp::Write, NmpGroup::Default, 7, &rsp).unwrap();
    assert!(body.is_empty());
    assert_eq!(empty_body_value(&body), Some(CborValue::Dict(vec![])));
    assert_eq!(empty_body_value(&ECHO_RSP), None);
}
