use istok::varint::{decode, encode, encoded_len, VarIntError, VARINT_MAX};

#[test]
fn encoded_len_boundaries() {
    assert_eq!(encoded_len(0).unwrap(), 1);
    assert_eq!(encoded_len(63).unwrap(), 1);
    assert_eq!(encoded_len(64).unwrap(), 2);
    assert_eq!(encoded_len(16_383).unwrap(), 2);
    assert_eq!(encoded_len(16_384).unwrap(), 4);
    assert_eq!(encoded_len(1_073_741_823).unwrap(), 4);
    assert_eq!(encoded_len(1_073_741_824).unwrap(), 8);
    assert_eq!(encoded_len(VARINT_MAX).unwrap(), 8);
    assert_eq!(
        encoded_len(VARINT_MAX + 1).unwrap_err(),
        VarIntError::ValueTooLarge
    );
}

#[test]
fn roundtrip_samples() {
    let samples = [
        0u64,
        1,
        7,
        63,
        64,
        152,
        16_383,
        16_384,
        1_000_000,
        1_073_741_823,
        1_073_741_824,
        VARINT_MAX,
    ];

    for &v in &samples {
        let mut buf = vec![0u8; 8];
        let n = encode(v, &mut buf).unwrap();
        let (decoded, used) = decode(&buf[..n]).unwrap();
        assert_eq!(decoded, v);
        assert_eq!(used, n);
    }
}

#[test]
fn decode_buffer_too_small() {
    assert_eq!(decode(&[]).unwrap_err(), VarIntError::BufferTooSmall);

    // tag=11 => len=8, but only 1 byte present
    let one = [0b11 << 6];
    assert_eq!(decode(&one).unwrap_err(), VarIntError::BufferTooSmall);
}

#[test]
fn encode_buffer_too_small() {
    let mut buf = vec![0u8; 1];
    assert_eq!(
        encode(64, &mut buf).unwrap_err(),
        VarIntError::BufferTooSmall
    );
}

#[test]
fn decode_known_vectors_basic() {
    // 0 in 1 byte => 00xxxxxx
    let (v, n) = decode(&[0b0000_0000]).unwrap();
    assert_eq!(v, 0);
    assert_eq!(n, 1);

    // 63 in 1 byte
    let (v, n) = decode(&[0b0011_1111]).unwrap();
    assert_eq!(v, 63);
    assert_eq!(n, 1);

    // 64 in 2 bytes:
    // value=0x0040 => first: 01 + top 6 bits of value>>8 (0), second: 0x40
    let (v, n) = decode(&[0b0100_0000, 0x40]).unwrap();
    assert_eq!(v, 64);
    assert_eq!(n, 2);
}

#[test]
fn decode_truncated_every_tag() {
    // For each tag (1/2/4/8 bytes), an input one byte short of the implied
    // length fails BufferTooSmall.
    assert_eq!(decode(&[]).unwrap_err(), VarIntError::BufferTooSmall);
    assert_eq!(decode(&[0x40]).unwrap_err(), VarIntError::BufferTooSmall);
    assert_eq!(
        decode(&[0x80, 0x00, 0x00]).unwrap_err(),
        VarIntError::BufferTooSmall
    );
    assert_eq!(
        decode(&[0xC0, 0x00, 0x00, 0x00, 0x00, 0x00, 0x00]).unwrap_err(),
        VarIntError::BufferTooSmall
    );
}

#[test]
fn encode_exact_bytes() {
    let mut buf = vec![0xAAu8; 8];
    assert_eq!(encode(0, &mut buf).unwrap(), 1);
    assert_eq!(&buf[..1], &[0x00]);

    let mut buf = vec![0xAAu8; 8];
    assert_eq!(encode(37, &mut buf).unwrap(), 1);
    assert_eq!(&buf[..1], &[0x25]);

    let mut buf = vec![0xAAu8; 8];
    assert_eq!(encode(64, &mut buf).unwrap(), 2);
    assert_eq!(&buf[..2], &[0x40, 0x40]);

    let mut buf = vec![0xAAu8; 8];
    assert_eq!(encode(15_293, &mut buf).unwrap(), 2);
    assert_eq!(&buf[..2], &[0x7B, 0xBD]);

    let mut buf = vec![0xAAu8; 8];
    assert_eq!(encode(16_384, &mut buf).unwrap(), 4);
    assert_eq!(&buf[..4], &[0x80, 0x00, 0x40, 0x00]);

    let mut buf = vec![0xAAu8; 8];
    assert_eq!(encode(494_878_333, &mut buf).unwrap(), 4);
    assert_eq!(&buf[..4], &[0x9D, 0x7F, 0x3E, 0x7D]);

    let mut buf = vec![0xAAu8; 8];
    assert_eq!(encode(151_288_809_941_952_652, &mut buf).unwrap(), 8);
    assert_eq!(&buf, &[0xC2, 0x19, 0x7C, 0x5E, 0xFF, 0x14, 0xE8, 0x8C]);
}

#[test]
fn decode_known_rfc_vectors() {
    let (v, n) = decode(&[0x7B, 0xBD]).unwrap();
    assert_eq!(v, 15_293);
    assert_eq!(n, 2);

    let (v, n) = decode(&[0x9D, 0x7F, 0x3E, 0x7D]).unwrap();
    assert_eq!(v, 494_878_333);
    assert_eq!(n, 4);

    let (v, n) = decode(&[0xC2, 0x19, 0x7C, 0x5E, 0xFF, 0x14, 0xE8, 0x8C]).unwrap();
    assert_eq!(v, 151_288_809_941_952_652);
    assert_eq!(n, 8);
}

#[test]
fn encode_rejects_out_of_range() {
    let mut buf = vec![0u8; 8];
    assert_eq!(
        encode(VARINT_MAX + 1, &mut buf).unwrap_err(),
        VarIntError::ValueTooLarge
    );
    assert_eq!(buf, vec![0u8; 8]);
}

#[test]
fn encode_leaves_tail_untouched() {
    let mut buf = vec![0xAAu8; 8];
    let n = encode(64, &mut buf).unwrap();
    assert_eq!(n, 2);
    assert_eq!(&buf[2..], &[0xAA; 6]);
}

#[test]
fn encoded_len_monotonic_samples() {
    let samples = [0u64, 1, 63, 64, 16_383, 16_384, 1_073_741_823, 1_073_741_824, VARINT_MAX];
    let mut prev = 0usize;
    for &v in &samples {
        let n = encoded_len(v).unwrap();
        assert!(n == 1 || n == 2 || n == 4 || n == 8);
        assert!(n >= prev);
        prev = n;
    }
}
