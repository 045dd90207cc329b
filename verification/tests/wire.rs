use kapacitor_udf::io::{decode_frame, encode_frame, IoErrorKind};
use kapacitor_udf::varint::{decode_uvarint, encode_uvarint, DecodeStep, UvarintDecoder, VarintError};

#[test]
fn encode_small_values() {
    assert_eq!(encode_uvarint(0), vec![0x00]);
    assert_eq!(encode_uvarint(1), vec![0x01]);
    assert_eq!(encode_uvarint(127), vec![0x7f]);
    assert_eq!(encode_uvarint(128), vec![0x80, 0x01]);
    assert_eq!(encode_uvarint(300), vec![0xac, 0x02]);
    assert_eq!(encode_uvarint(16384), vec![0x80, 0x80, 0x01]);
}

#[test]
fn encode_largest_value_takes_ten_bytes() {
    let bytes = encode_uvarint(u64::MAX);
    assert_eq!(bytes.len(), 10);
    assert_eq!(bytes[..9], [0xff; 9]);
    assert_eq!(bytes[9], 0x01);
}

#[test]
fn decode_roundtrip_with_trailing_bytes() {
    for &v in &[0u64, 1, 127, 128, 255, 300, 16383, 16384, 1 << 35, (1 << 63) - 1, 1 << 63, u64::MAX] {
        let mut bytes = encode_uvarint(v);
        let n = bytes.len();
        bytes.extend_from_slice(&[0xff, 0x00, 0x7f]);
        assert_eq!(decode_uvarint(&bytes), Ok((v, n)));
    }
}

#[test]
fn decode_accepts_non_minimal_encoding() {
    assert_eq!(decode_uvarint(&[0x80, 0x00]), Ok((0, 2)));
    assert_eq!(decode_uvarint(&[0x81, 0x80, 0x00]), Ok((1, 3)));
}

#[test]
fn decode_errors() {
    assert_eq!(decode_uvarint(&[]), Err(VarintError::Incomplete));
    assert_eq!(decode_uvarint(&[0x80, 0x80]), Err(VarintError::Incomplete));
    let mut too_long = vec![0x80u8; 10];
    too_long.push(0x00);
    assert_eq!(decode_uvarint(&too_long), Err(VarintError::TooLong));
    let mut overflow = vec![0xffu8; 9];
    overflow.push(0x02);
    assert_eq!(decode_uvarint(&overflow), Err(VarintError::Overflow));
    let mut max = vec![0xffu8; 9];
    max.push(0x01);
    assert_eq!(decode_uvarint(&max), Ok((u64::MAX, 10)));
}

#[test]
fn incremental_decoder_steps() {
    let mut d = UvarintDecoder::new();
    assert_eq!(d.push(0xac), DecodeStep::NeedMore);
    assert_eq!(d.push(0x02), DecodeStep::Done(300));

    let mut d = UvarintDecoder::new();
    for _ in 0..9 {
        assert_eq!(d.push(0x80), DecodeStep::NeedMore);
    }
    assert_eq!(d.push(0x80), DecodeStep::Failed(VarintError::TooLong));

    let mut d = UvarintDecoder::new();
    for _ in 0..9 {
        assert_eq!(d.push(0x80), DecodeStep::NeedMore);
    }
    assert_eq!(d.push(0x02), DecodeStep::Failed(VarintError::Overflow));
}

#[test]
fn error_messages_and_kinds() {
    let e = VarintError::TooLong.to_io_error();
    assert_eq!(e.kind, IoErrorKind::InvalidData);
    assert_eq!(e.message, "varint too long");
    let e = VarintError::Overflow.to_io_error();
    assert_eq!(e.kind, IoErrorKind::InvalidData);
    assert_eq!(e.message, "varint overflows a 64-bit integer");
    let e = VarintError::Incomplete.to_io_error();
    assert_eq!(e.kind, IoErrorKind::UnexpectedEof);
}

#[test]
fn frame_roundtrip() {
    let payload: Vec<u8> = (0..200u32).map(|i| (i % 251) as u8).collect();
    let mut frame = encode_frame(&payload);
    assert_eq!(frame[..2], [0xc8, 0x01]);
    assert_eq!(frame.len(), 202);
    frame.extend_from_slice(&[1, 2, 3]);
    let (start, end) = decode_frame(&frame).unwrap();
    assert_eq!((start, end), (2, 202));
    assert_eq!(&frame[start..end], &payload[..]);
}

#[test]
fn frame_of_empty_message() {
    let frame = encode_frame(&[]);
    assert_eq!(frame, vec![0x00]);
    assert_eq!(decode_frame(&frame), Ok((1, 1)));
}

#[test]
fn frame_errors() {
    assert_eq!(decode_frame(&[0x05, 1, 2]), Err(VarintError::Incomplete));
    assert_eq!(decode_frame(&[]), Err(VarintError::Incomplete));
    let mut too_long = vec![0x80u8; 10];
    too_long.push(0);
    assert_eq!(decode_frame(&too_long), Err(VarintError::TooLong));
}

#[test]
fn encoding_is_minimal() {
    for &(v, n) in &[(0u64, 1usize), (127, 1), (128, 2), (16383, 2), (16384, 3), ((1 << 56) - 1, 8), (1 << 56, 9), ((1 << 63) - 1, 9), (1 << 63, 10)] {
        let bytes = encode_uvarint(v);
        assert_eq!(bytes.len(), n);
        if v != 0 {
            assert_ne!(*bytes.last().unwrap(), 0);
        }
    }
}

#[test]
fn decoder_fed_an_encoding_finishes_on_its_last_byte() {
    for &v in &[0u64, 127, 128, 300, 1 << 40, u64::MAX] {
        let bytes = encode_uvarint(v);
        let mut d = UvarintDecoder::new();
        for (i, b) in bytes.iter().enumerate() {
            let step = d.push(*b);
            if i + 1 < bytes.len() {
                assert_eq!(step, DecodeStep::NeedMore);
            } else {
                assert_eq!(step, DecodeStep::Done(v));
            }
        }
    }
}

#[test]
fn frame_header_is_the_encoded_length() {
    let payload = vec![9u8; 300];
    let frame = encode_frame(&payload);
    let header = encode_uvarint(300);
    assert_eq!(&frame[..header.len()], &header[..]);
    assert_eq!(&frame[header.len()..], &payload[..]);
}
