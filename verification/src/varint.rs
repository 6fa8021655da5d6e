//! QUIC variable-length integer codec.
//!
//! A value in `[0, 2^62 - 1]` is carried in 1, 2, 4 or 8 bytes. The top two
//! bits of the first byte are a length tag (00/01/10/11 for 1/2/4/8 bytes);
//! the remaining six bits of the first byte and all following bytes hold the
//! value in big-endian order. Encoding always picks the shortest form that
//! fits; decoding accepts any length the tag implies.

use vstd::prelude::*;

verus! {

/// Largest value a QUIC varint can carry: 2^62 - 1.
pub const VARINT_MAX: u64 = 0x3FFF_FFFF_FFFF_FFFF;

#[derive(Clone, Copy, Debug, PartialEq, Eq, Structural)]
pub enum VarIntError {
    /// Not enough bytes in the input or output buffer.
    BufferTooSmall,
    /// Value exceeds the QUIC varint maximum (2^62 - 1).
    ValueTooLarge,
    /// Reserved for a length tag outside the two-bit range. A two-bit tag
    /// cannot reach it; the branch is kept explicit rather than dropped.
    InvalidEncoding,
}

/// Number of bytes of the canonical (minimal) encoding of `v`.
pub open spec fn spec_encoded_len(v: u64) -> nat {
    if v <= 63 {
        1
    } else if v <= 16383 {
        2
    } else if v <= 0x3FFF_FFFF {
        4
    } else {
        8
    }
}

/// The canonical encoding of `v`: the length tag in the top two bits of the
/// first byte, then the value in big-endian byte order.
pub open spec fn spec_encode(v: u64) -> Seq<u8>
    recommends
        v <= VARINT_MAX,
{
    if v <= 63 {
        seq![v as u8]
    } else if v <= 16383 {
        seq![(0x40 + v / 0x100) as u8, (v % 0x100) as u8]
    } else if v <= 0x3FFF_FFFF {
        seq![
            (0x80 + v / 0x100_0000) as u8,
            ((v / 0x1_0000) % 0x100) as u8,
            ((v / 0x100) % 0x100) as u8,
            (v % 0x100) as u8,
        ]
    } else {
        seq![
            (0xC0 + (v / 0x100_0000_0000_0000) % 0x40) as u8,
            ((v / 0x1_0000_0000_0000) % 0x100) as u8,
            ((v / 0x100_0000_0000) % 0x100) as u8,
            ((v / 0x1_0000_0000) % 0x100) as u8,
            ((v / 0x100_0000) % 0x100) as u8,
            ((v / 0x1_0000) % 0x100) as u8,
            ((v / 0x100) % 0x100) as u8,
            (v % 0x100) as u8,
        ]
    }
}

/// Total encoded length implied by the two-bit tag of the first byte.
pub open spec fn spec_tag_len(first: u8) -> nat {
    if first < 0x40 {
        1
    } else if first < 0x80 {
        2
    } else if first < 0xC0 {
        4
    } else {
        8
    }
}

/// The value carried by the first `spec_tag_len(s[0])` bytes of `s`: the low
/// six bits of the first byte and the following bytes, big-endian.
pub open spec fn spec_decoded(s: Seq<u8>) -> u64
    recommends
        s.len() >= spec_tag_len(s[0]),
        s.len() > 0,
{
    if spec_tag_len(s[0]) == 1 {
        (s[0] as u64 % 0x40) as u64
    } else if spec_tag_len(s[0]) == 2 {
        ((s[0] as u64 % 0x40) * 0x100 + s[1] as u64) as u64
    } else if spec_tag_len(s[0]) == 4 {
        ((s[0] as u64 % 0x40) * 0x100_0000 + (s[1] as u64) * 0x1_0000 + (s[2] as u64) * 0x100
            + s[3] as u64) as u64
    } else {
        ((s[0] as u64 % 0x40) * 0x100_0000_0000_0000 + (s[1] as u64) * 0x1_0000_0000_0000 + (
        s[2] as u64) * 0x100_0000_0000 + (s[3] as u64) * 0x1_0000_0000 + (s[4] as u64) * 0x100_0000
            + (s[5] as u64) * 0x1_0000 + (s[6] as u64) * 0x100 + s[7] as u64) as u64
    }
}

/// A decoded value always stays within the varint range, whatever the bytes.
pub proof fn lemma_decoded_in_range(s: Seq<u8>)
    requires
        s.len() > 0,
        s.len() >= spec_tag_len(s[0]),
    ensures
        spec_decoded(s) <= VARINT_MAX,
{
    if spec_tag_len(s[0]) == 8 {
        assert((s[0] as u64 % 0x40) * 0x100_0000_0000_0000 + (s[1] as u64) * 0x1_0000_0000_0000 + (
        s[2] as u64) * 0x100_0000_0000 + (s[3] as u64) * 0x1_0000_0000 + (s[4] as u64) * 0x100_0000
            + (s[5] as u64) * 0x1_0000 + (s[6] as u64) * 0x100 + s[7] as u64 <= VARINT_MAX);
    }
}

/// Law: the canonical encoding round-trips. For every value in range, the
/// encoding is `spec_encoded_len(v)` bytes long, its first byte's tag implies
/// exactly that length, and decoding it gives the value back.
pub proof fn lemma_round_trip(v: u64)
    requires
        v <= VARINT_MAX,
    ensures
        spec_encode(v).len() == spec_encoded_len(v),
        spec_tag_len(spec_encode(v)[0]) == spec_encoded_len(v),
        spec_decoded(spec_encode(v)) == v,
{
    if v <= 63 {
        assert((v as u8) as u64 % 0x40 == v) by (bit_vector)
            requires
                v <= 63,
        ;
    } else if v <= 16383 {
        assert(0x40 <= (0x40 + v / 0x100) as u8 && ((0x40 + v / 0x100) as u8) < 0x80 && ((((0x40
            + v / 0x100) as u8) as u64 % 0x40) * 0x100 + ((v % 0x100) as u8) as u64) as u64 == v)
            by (bit_vector)
            requires
                64 <= v <= 16383,
        ;
    } else if v <= 0x3FFF_FFFF {
        assert(0x80 <= (0x80 + v / 0x100_0000) as u8 && ((0x80 + v / 0x100_0000) as u8) < 0xC0 && ((
        ((0x80 + v / 0x100_0000) as u8) as u64 % 0x40) * 0x100_0000 + (((v / 0x1_0000)
            % 0x100) as u8) as u64 * 0x1_0000 + (((v / 0x100) % 0x100) as u8) as u64 * 0x100 + ((v
            % 0x100) as u8) as u64) as u64 == v) by (bit_vector)
            requires
                16384 <= v <= 0x3FFF_FFFF,
        ;
    } else {
        assert(0xC0 <= (0xC0 + (v / 0x100_0000_0000_0000) % 0x40) as u8 && ((((0xC0 + (v
            / 0x100_0000_0000_0000) % 0x40) as u8) as u64 % 0x40) * 0x100_0000_0000_0000 + (((v
            / 0x1_0000_0000_0000) % 0x100) as u8) as u64 * 0x1_0000_0000_0000 + (((v
            / 0x100_0000_0000) % 0x100) as u8) as u64 * 0x100_0000_0000 + (((v / 0x1_0000_0000)
            % 0x100) as u8) as u64 * 0x1_0000_0000 + (((v / 0x100_0000) % 0x100) as u8) as u64
            * 0x100_0000 + (((v / 0x1_0000) % 0x100) as u8) as u64 * 0x1_0000 + (((v / 0x100)
            % 0x100) as u8) as u64 * 0x100 + ((v % 0x100) as u8) as u64) as u64 == v)
            by (bit_vector)
            requires
                0x4000_0000 <= v <= 0x3FFF_FFFF_FFFF_FFFF,
        ;
    }
}

/// Law: the canonical encoded length is non-decreasing in the value, and is
/// always one of 1, 2, 4 or 8.
pub proof fn lemma_encoded_len_monotonic(a: u64, b: u64)
    requires
        a <= b,
    ensures
        spec_encoded_len(a) <= spec_encoded_len(b),
        spec_encoded_len(a) == 1 || spec_encoded_len(a) == 2 || spec_encoded_len(a) == 4
            || spec_encoded_len(a) == 8,
{
}

/// Number of bytes needed to encode `value`, or `ValueTooLarge` past the
/// varint maximum.
pub fn encoded_len(value: u64) -> (r: Result<usize, VarIntError>)
    ensures
        value <= VARINT_MAX ==> r == Ok::<usize, VarIntError>(spec_encoded_len(value) as usize),
        value > VARINT_MAX ==> r == Err::<usize, VarIntError>(VarIntError::ValueTooLarge),
{
    if value > VARINT_MAX {
        return Err(VarIntError::ValueTooLarge);
    }
    if value <= 63 {
        Ok(1)
    } else if value <= 16_383 {
        Ok(2)
    } else if value <= 1_073_741_823 {
        Ok(4)
    } else {
        Ok(8)
    }
}

/// Decodes a QUIC varint from the start of `input`; returns the value and the
/// number of bytes consumed. Fails `BufferTooSmall` when `input` is empty or
/// shorter than the length the tag implies.
pub fn decode(input: &[u8]) -> (r: Result<(u64, usize), VarIntError>)
    ensures
        input@.len() == 0 ==> r == Err::<(u64, usize), VarIntError>(VarIntError::BufferTooSmall),
        input@.len() > 0 && input@.len() < spec_tag_len(input@[0]) ==> r == Err::<
            (u64, usize),
            VarIntError,
        >(VarIntError::BufferTooSmall),
        input@.len() > 0 && input@.len() >= spec_tag_len(input@[0]) ==> r == Ok::<
            (u64, usize),
            VarIntError,
        >((spec_decoded(input@), spec_tag_len(input@[0]) as usize)),
        r matches Ok(p) ==> p.0 <= VARINT_MAX && p.1 <= input@.len(),
{
    if input.len() == 0 {
        return Err(VarIntError::BufferTooSmall);
    }

    let first = input[0];
    let tag = first >> 6;
    proof {
        assert((first >> 6) == 0 <==> first < 0x40) by (bit_vector);
        assert((first >> 6) == 1 <==> (0x40 <= first && first < 0x80)) by (bit_vector);
        assert((first >> 6) == 2 <==> (0x80 <= first && first < 0xC0)) by (bit_vector);
        assert((first >> 6) == 3 <==> first >= 0xC0) by (bit_vector);
    }
    let len: usize = match tag {
        0 => 1,
        1 => 2,
        2 => 4,
        3 => 8,
        // A two-bit tag cannot exceed 3; kept explicit rather than dropped.
        _ => {
            return Err(VarIntError::InvalidEncoding);
        },
    };
    assert(len == spec_tag_len(first));

    if input.len() < len {
        return Err(VarIntError::BufferTooSmall);
    }

    let v: u64;
    match len {
        1 => {
            v = (first & 0x3F) as u64;
            proof {
                assert((first & 0x3F) as u64 == (first as u64 % 0x40) as u64) by (bit_vector);
            }
        },
        2 => {
            let b1 = input[1];
            v = ((first as u64 & 0x3F) << 8) | (b1 as u64);
            proof {
                assert(((first as u64 & 0x3F) << 8) | (b1 as u64) == ((first as u64 % 0x40) * 0x100
                    + b1 as u64) as u64) by (bit_vector);
            }
        },
        4 => {
            let b1 = input[1];
            let b2 = input[2];
            let b3 = input[3];
            v = ((first as u64 & 0x3F) << 24) | ((b1 as u64) << 16) | ((b2 as u64) << 8) | (
            b3 as u64);
            proof {
                assert(((first as u64 & 0x3F) << 24) | ((b1 as u64) << 16) | ((b2 as u64) << 8) | (
                b3 as u64) == ((first as u64 % 0x40) * 0x100_0000 + (b1 as u64) * 0x1_0000 + (
                b2 as u64) * 0x100 + b3 as u64) as u64) by (bit_vector);
            }
        },
        8 => {
            let b1 = input[1];
            let b2 = input[2];
            let b3 = input[3];
            let b4 = input[4];
            let b5 = input[5];
            let b6 = input[6];
            let b7 = input[7];
            v = ((first as u64 & 0x3F) << 56) | ((b1 as u64) << 48) | ((b2 as u64) << 40) | ((
            b3 as u64) << 32) | ((b4 as u64) << 24) | ((b5 as u64) << 16) | ((b6 as u64) << 8) | (
            b7 as u64);
            proof {
                assert(((first as u64 & 0x3F) << 56) | ((b1 as u64) << 48) | ((b2 as u64) << 40)
                    | ((b3 as u64) << 32) | ((b4 as u64) << 24) | ((b5 as u64) << 16) | ((
                b6 as u64) << 8) | (b7 as u64) == ((first as u64 % 0x40) * 0x100_0000_0000_0000 + (
                b1 as u64) * 0x1_0000_0000_0000 + (b2 as u64) * 0x100_0000_0000 + (b3 as u64)
                    * 0x1_0000_0000 + (b4 as u64) * 0x100_0000 + (b5 as u64) * 0x1_0000 + (
                b6 as u64) * 0x100 + b7 as u64) as u64) by (bit_vector);
            }
        },
        // Unreachable: `len` was just chosen from {1, 2, 4, 8}.
        _ => {
            return Err(VarIntError::InvalidEncoding);
        },
    }
    assert(v == spec_decoded(input@));

    proof {
        lemma_decoded_in_range(input@);
    }
    // The reconstructed value is within range by construction; the guard is
    // kept explicit as the wire format's defensive check.
    if v > VARINT_MAX {
        return Err(VarIntError::InvalidEncoding);
    }

    Ok((v, len))
}

/// Encodes `value` as a QUIC varint into `out` starting at index `at`,
/// leaving every other byte of `out` untouched; returns the number of bytes
/// written. Nothing is written unless the whole encoding fits.
pub fn encode_at(value: u64, out: &mut Vec<u8>, at: usize) -> (r: Result<usize, VarIntError>)
    ensures
        value > VARINT_MAX ==> r == Err::<usize, VarIntError>(VarIntError::ValueTooLarge)
            && final(out)@ == old(out)@,
        value <= VARINT_MAX && old(out)@.len() < at + spec_encoded_len(value) ==> r == Err::<
            usize,
            VarIntError,
        >(VarIntError::BufferTooSmall) && final(out)@ == old(out)@,
        value <= VARINT_MAX && old(out)@.len() >= at + spec_encoded_len(value) ==> r == Ok::<
            usize,
            VarIntError,
        >(spec_encoded_len(value) as usize) && final(out)@.len() == old(out)@.len()
            && final(out)@.subrange(at as int, at + spec_encoded_len(value)) == spec_encode(value)
            && final(out)@.take(at as int) == old(out)@.take(at as int) && final(out)@.skip(
            at + spec_encoded_len(value),
        ) == old(out)@.skip(at + spec_encoded_len(value)),
{
    let len = match encoded_len(value) {
        Ok(l) => l,
        Err(e) => {
            return Err(e);
        },
    };
    if out.len() < at || out.len() - at < len {
        return Err(VarIntError::BufferTooSmall);
    }

    match len {
        1 => {
            let b0 = (value as u8) & 0x3F;
            proof {
                assert((value as u8) & 0x3F == value as u8) by (bit_vector)
                    requires
                        value <= 63,
                ;
            }
            out[at] = b0;
        },
        2 => {
            let b0 = 0x40 | (((value >> 8) as u8) & 0x3F);
            let b1 = (value & 0xFF) as u8;
            proof {
                assert(0x40 | (((value >> 8) as u8) & 0x3F) == (0x40 + value / 0x100) as u8
                    && (value & 0xFF) as u8 == (value % 0x100) as u8) by (bit_vector)
                    requires
                        64 <= value <= 16383,
                ;
            }
            out[at] = b0;
            out[at + 1] = b1;
        },
        4 => {
            let b0 = 0x80 | (((value >> 24) as u8) & 0x3F);
            let b1 = ((value >> 16) & 0xFF) as u8;
            let b2 = ((value >> 8) & 0xFF) as u8;
            let b3 = (value & 0xFF) as u8;
            proof {
                assert(0x80 | (((value >> 24) as u8) & 0x3F) == (0x80 + value / 0x100_0000) as u8
                    && ((value >> 16) & 0xFF) as u8 == ((value / 0x1_0000) % 0x100) as u8 && ((
                value >> 8) & 0xFF) as u8 == ((value / 0x100) % 0x100) as u8 && (value & 0xFF) as u8
                    == (value % 0x100) as u8) by (bit_vector)
                    requires
                        16384 <= value <= 0x3FFF_FFFF,
                ;
            }
            out[at] = b0;
            out[at + 1] = b1;
            out[at + 2] = b2;
            out[at + 3] = b3;
        },
        8 => {
            let b0 = 0xC0 | (((value >> 56) as u8) & 0x3F);
            let b1 = ((value >> 48) & 0xFF) as u8;
            let b2 = ((value >> 40) & 0xFF) as u8;
            let b3 = ((value >> 32) & 0xFF) as u8;
            let b4 = ((value >> 24) & 0xFF) as u8;
            let b5 = ((value >> 16) & 0xFF) as u8;
            let b6 = ((value >> 8) & 0xFF) as u8;
            let b7 = (value & 0xFF) as u8;
            proof {
                assert(0xC0 | (((value >> 56) as u8) & 0x3F) == (0xC0 + (value
                    / 0x100_0000_0000_0000) % 0x40) as u8 && ((value >> 48) & 0xFF) as u8 == ((value
                    / 0x1_0000_0000_0000) % 0x100) as u8 && ((value >> 40) & 0xFF) as u8 == ((value
                    / 0x100_0000_0000) % 0x100) as u8 && ((value >> 32) & 0xFF) as u8 == ((value
                    / 0x1_0000_0000) % 0x100) as u8 && ((value >> 24) & 0xFF) as u8 == ((value
                    / 0x100_0000) % 0x100) as u8 && ((value >> 16) & 0xFF) as u8 == ((value
                    / 0x1_0000) % 0x100) as u8 && ((value >> 8) & 0xFF) as u8 == ((value / 0x100)
                    % 0x100) as u8 && (value & 0xFF) as u8 == (value % 0x100) as u8) by (bit_vector)
                    requires
                        0x4000_0000 <= value <= 0x3FFF_FFFF_FFFF_FFFF,
                ;
            }
            out[at] = b0;
            out[at + 1] = b1;
            out[at + 2] = b2;
            out[at + 3] = b3;
            out[at + 4] = b4;
            out[at + 5] = b5;
            out[at + 6] = b6;
            out[at + 7] = b7;
        },
        // Unreachable: `encoded_len` only returns 1, 2, 4 or 8.
        _ => {
            return Err(VarIntError::InvalidEncoding);
        },
    }
    assert(out@.subrange(at as int, at + len) =~= spec_encode(value));
    assert(out@.take(at as int) =~= old(out)@.take(at as int));
    assert(out@.skip(at + len) =~= old(out)@.skip(at + len));

    Ok(len)
}

/// Encodes `value` as a QUIC varint into the beginning of `out`, leaving the
/// rest of `out` untouched; returns the number of bytes written. Nothing is
/// written unless the whole encoding fits.
pub fn encode(value: u64, out: &mut Vec<u8>) -> (r: Result<usize, VarIntError>)
    ensures
        value > VARINT_MAX ==> r == Err::<usize, VarIntError>(VarIntError::ValueTooLarge)
            && final(out)@ == old(out)@,
        value <= VARINT_MAX && old(out)@.len() < spec_encoded_len(value) ==> r == Err::<
            usize,
            VarIntError,
        >(VarIntError::BufferTooSmall) && final(out)@ == old(out)@,
        value <= VARINT_MAX && old(out)@.len() >= spec_encoded_len(value) ==> r == Ok::<
            usize,
            VarIntError,
        >(spec_encoded_len(value) as usize) && final(out)@.len() == old(out)@.len()
            && final(out)@.subrange(0, spec_encoded_len(value) as int) == spec_encode(value)
            && final(out)@.skip(spec_encoded_len(value) as int) == old(out)@.skip(
            spec_encoded_len(value) as int,
        ),
{
    encode_at(value, out, 0)
}

} // verus!
