//! Frame codec tests: round trip, boundaries, sentinel and tamper
//! detection, and the exact wire bytes of known frames.

use mu_protocol::error::{FrameDecodeError, FrameEncodeError};
use mu_protocol::mu_frame::{MUFrame, CONSOLE_OPCODE};

fn encoded(payload: &[u8]) -> Vec<u8> {
    let mut frame = MUFrame::new();
    frame.set_data(payload.to_vec()).unwrap();
    frame.serialize()
}

#[test]
fn test_check_crc_calculation() {
    let mut frame = MUFrame::new();
    frame.set_data(b"Hello, server!\n".to_vec()).unwrap();
    assert_eq!(frame.is_crc_valid(0xBD), true);
}

#[test]
fn test_serialize() {
    let mut frame = MUFrame::new();

    frame.set_data(b"Test string!\n".to_vec()).unwrap();

    let serialized_vec = frame.serialize();
    assert_eq!(serialized_vec.len(), 5 + frame.length as usize);

    assert_eq!(
        serialized_vec,
        vec![
            0xAA, 0x0D, 0xC0, 0x54, 0x65, 0x73, 0x74, 0x20, 0x73, 0x74, 0x72, 0x69, 0x6E, 0x67,
            0x21, 0x0A, 0x1E, 0xBB
        ]
    );
}

#[test]
fn test_deserialize() {
    let serialized_vec = vec![
        0xAA, 0x0D, 0xC0, 0x54, 0x65, 0x73, 0x74, 0x20, 0x73, 0x74, 0x72, 0x69, 0x6E, 0x67, 0x21,
        0x0A, 0x1E, 0xBB,
    ];
    let frame = MUFrame::deserialize(&serialized_vec).unwrap();
    assert_eq!(frame.is_prefix_correct(), true);
    assert_eq!(frame.is_postfix_correct(), true);
    assert_eq!(frame.is_crc_valid(0x1E), true);
    assert_eq!(frame.opcode, CONSOLE_OPCODE);
    assert_eq!(frame.data, b"Test string!\n");
}

#[test]
fn test_frame_invalidation() {
    let serialized_vec = vec![
        0xAA, 0x0D, 0xC0, 0x54, 0x65, 0x73, 0x74, 0x20, 0x73, 0x74, 0x72, 0x69, 0x6E, 0x67, 0x21,
        0x0A, 0x1E, 0xBB,
    ];
    let frame = MUFrame::deserialize(&serialized_vec).unwrap();
    assert_eq!(frame.is_prefix_correct(), true);
    assert_eq!(frame.is_postfix_correct(), true);
    assert_eq!(frame.is_crc_valid(0x1E), true);
    assert_eq!(frame.opcode, CONSOLE_OPCODE);
    assert_eq!(frame.data, b"Test string!\n");
    frame.invalidate_frame().unwrap();
}

#[test]
fn round_trip_all_lengths() {
    for len in 1..=255usize {
        let payload: Vec<u8> = (0..len).map(|i| 0x20 + (i % 0x5F) as u8).collect();
        let bytes = encoded(&payload);
        assert_eq!(bytes.len(), 5 + len);
        let frame = MUFrame::deserialize(&bytes).unwrap();
        assert_eq!(frame.data, payload);
        assert_eq!(frame.opcode, CONSOLE_OPCODE);
    }
}

#[test]
fn end_to_end_known_frame() {
    let bytes = encoded(b"Test string!\n");
    assert_eq!(bytes.len(), 5 + 13);
    let frame = MUFrame::deserialize(&bytes).unwrap();
    assert_eq!(frame.data, b"Test string!\n");
    assert!(frame.invalidate_frame().is_ok());
}

#[test]
fn encode_boundaries() {
    let mut frame = MUFrame::new();
    assert_eq!(
        frame.set_data(Vec::new()),
        Err(FrameEncodeError::InvalidPayload)
    );
    assert_eq!(
        frame.set_data(vec![0x41; 256]),
        Err(FrameEncodeError::InvalidPayload)
    );
    assert_eq!(frame.set_data(vec![0x41; 255]), Ok(()));
    let bytes = frame.serialize();
    assert_eq!(bytes.len(), 260);
    let back = MUFrame::deserialize(&bytes).unwrap();
    assert_eq!(back.data, vec![0x41; 255]);
}

#[test]
fn encode_rejects_non_ascii() {
    let mut frame = MUFrame::new();
    assert_eq!(
        frame.set_data(vec![0x41, 0x80, 0x42]),
        Err(FrameEncodeError::InvalidPayload)
    );
}

#[test]
fn sentinel_corruption_detected() {
    let good = encoded(b"Test string!\n");

    let mut bad_first = good.clone();
    bad_first[0] ^= 0x01;
    assert_eq!(
        MUFrame::deserialize(&bad_first),
        Err(FrameDecodeError::BadPrefix)
    );

    let mut bad_last = good.clone();
    let last = good.len() - 1;
    bad_last[last] ^= 0x01;
    assert_eq!(
        MUFrame::deserialize(&bad_last),
        Err(FrameDecodeError::BadPostfix)
    );
}

#[test]
fn single_bit_tamper_detected() {
    let good = encoded(b"Test string!\n");
    // the checksummed region: the opcode byte and every payload byte
    for idx in 2..(3 + 13) {
        for bit in 0..8 {
            let mut tampered = good.clone();
            tampered[idx] ^= 1 << bit;
            assert_eq!(
                MUFrame::deserialize(&tampered),
                Err(FrameDecodeError::BadCRC),
                "flip of bit {} at byte {} escaped the checksum",
                bit,
                idx
            );
        }
    }
}

#[test]
fn truncated_buffers_rejected() {
    let good = encoded(b"Test string!\n");
    for len in 0..good.len() {
        let r = MUFrame::deserialize(&good[..len]);
        assert_eq!(r, Err(FrameDecodeError::BadDataSize), "length {}", len);
    }
}

#[test]
fn zero_length_frame_rejected() {
    // a frame announcing an empty payload fails the size check
    let bytes = vec![0xAA, 0x00, 0xC0, 0x00, 0xBB];
    assert_eq!(
        MUFrame::deserialize(&bytes),
        Err(FrameDecodeError::BadDataSize)
    );
}

#[test]
fn bad_crc_reported() {
    let mut bytes = encoded(b"Test string!\n");
    let crc_at = bytes.len() - 2;
    bytes[crc_at] ^= 0xFF;
    assert_eq!(
        MUFrame::deserialize(&bytes),
        Err(FrameDecodeError::BadCRC)
    );
}

#[test]
fn bad_encoding_reported() {
    // a frame whose checksum is right but whose payload is not ASCII
    let crc8 = crc::Crc::<u8>::new(&crc::CRC_8_NRSC_5);
    let checksum = crc8.checksum(&[0xC0, 0x80]);
    let bytes = vec![0xAA, 0x01, 0xC0, 0x80, checksum, 0xBB];
    assert_eq!(
        MUFrame::deserialize(&bytes),
        Err(FrameDecodeError::BadEncoding)
    );
}

#[test]
fn trailing_bytes_ignored() {
    // the decoder reads exactly one frame and ignores what follows,
    // as a read from a zero-padded serial buffer demands
    let mut bytes = encoded(b"Test string!\n");
    bytes.extend_from_slice(&[0u8; 64]);
    let frame = MUFrame::deserialize(&bytes).unwrap();
    assert_eq!(frame.data, b"Test string!\n");
}
