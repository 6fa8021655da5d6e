use istok::consts;
use istok::h3_frame::{decode_frame, decode_frame_header, encode_frame_header, Error, FrameHeader};
use istok::varint::{VarIntError, VARINT_MAX};

#[test]
fn roundtrip_header() {
    let cases = [
        FrameHeader { ty: consts::FRAME_TYPE_DATA, len: 0 },
        FrameHeader { ty: consts::FRAME_TYPE_HEADERS, len: 5 },
        FrameHeader { ty: consts::FRAME_TYPE_SETTINGS, len: 16_383 },
        FrameHeader { ty: consts::FRAME_TYPE_GOAWAY, len: VARINT_MAX },
    ];

    for header in cases {
        let mut buf = vec![0u8; 16];
        let written = encode_frame_header(header, &mut buf).unwrap();
        let (decoded, consumed) = decode_frame_header(&buf[..written]).unwrap();
        assert_eq!(decoded, header);
        assert_eq!(consumed, written);
    }
}

#[test]
fn roundtrip_full_frame_with_payload() {
    let payload = [0xde, 0xad, 0xbe, 0xef, 0x01, 0x02];
    let header = FrameHeader {
        ty: consts::FRAME_TYPE_DATA,
        len: payload.len() as u64,
    };

    let mut buf = vec![0u8; 32];
    let header_len = encode_frame_header(header, &mut buf).unwrap();
    buf[header_len..header_len + payload.len()].copy_from_slice(&payload);
    let total_len = header_len + payload.len();

    let (decoded_header, decoded_payload, consumed) = decode_frame(&buf[..total_len]).unwrap();
    assert_eq!(decoded_header, header);
    assert_eq!(decoded_payload, payload);
    assert_eq!(consumed, total_len);
}

#[test]
fn malformed_truncated_varint_in_header() {
    // Type varint present, length varint indicates 8-byte encoding but bytes are missing.
    let input = [consts::FRAME_TYPE_DATA as u8, 0b11 << 6, 0x00, 0x01];
    assert_eq!(
        decode_frame_header(&input).unwrap_err(),
        Error::VarInt(VarIntError::BufferTooSmall)
    );
}

#[test]
fn malformed_length_exceeds_input() {
    let mut buf = vec![0u8; 16];
    let header = FrameHeader {
        ty: consts::FRAME_TYPE_HEADERS,
        len: 4,
    };
    let header_len = encode_frame_header(header, &mut buf).unwrap();
    // Only provide 3 payload bytes when header claims 4.
    buf[header_len..header_len + 3].copy_from_slice(&[1, 2, 3]);
    let total = header_len + 3;

    assert_eq!(
        decode_frame(&buf[..total]).unwrap_err(),
        Error::LengthExceedsInput
    );
}

#[test]
fn boundary_values_zero_payload() {
    let header = FrameHeader {
        ty: consts::FRAME_TYPE_SETTINGS,
        len: 0,
    };
    let mut buf = vec![0u8; 16];
    let header_len = encode_frame_header(header, &mut buf).unwrap();

    let (decoded_header, payload, consumed) = decode_frame(&buf[..header_len]).unwrap();
    assert_eq!(decoded_header, header);
    assert!(payload.is_empty());
    assert_eq!(consumed, header_len);
}

#[test]
fn boundary_values_large_length_header_only() {
    let header = FrameHeader {
        ty: consts::FRAME_TYPE_DATA,
        len: VARINT_MAX,
    };
    let mut buf = vec![0u8; 16];
    let written = encode_frame_header(header, &mut buf).unwrap();
    let (decoded, consumed) = decode_frame_header(&buf[..written]).unwrap();
    assert_eq!(decoded, header);
    assert_eq!(consumed, written);
}

#[test]
fn encode_header_buffer_too_small() {
    let header = FrameHeader {
        ty: consts::FRAME_TYPE_DATA,
        len: 16_384,
    };
    let mut buf = vec![0u8; 2];
    assert_eq!(
        encode_frame_header(header, &mut buf).unwrap_err(),
        Error::BufferTooSmall
    );
}

#[test]
fn encode_header_rejects_out_of_range_fields() {
    let mut buf = vec![0u8; 16];
    let header = FrameHeader { ty: VARINT_MAX + 1, len: 0 };
    assert_eq!(
        encode_frame_header(header, &mut buf).unwrap_err(),
        Error::VarInt(VarIntError::ValueTooLarge)
    );
    assert_eq!(buf, vec![0u8; 16]);

    let header = FrameHeader { ty: 0, len: VARINT_MAX + 1 };
    assert_eq!(
        encode_frame_header(header, &mut buf).unwrap_err(),
        Error::VarInt(VarIntError::ValueTooLarge)
    );
    assert_eq!(buf, vec![0u8; 16]);
}

#[test]
fn decode_frame_payload_is_view_into_input() {
    // header: ty=0 (1 byte), len=2 (1 byte), then payload [7, 9], then junk.
    let input = [0x00u8, 0x02, 7, 9, 0xEE];
    let (header, payload, consumed) = decode_frame(&input).unwrap();
    assert_eq!(header, FrameHeader { ty: 0, len: 2 });
    assert_eq!(payload, &input[2..4]);
    assert_eq!(consumed, 4);
}
