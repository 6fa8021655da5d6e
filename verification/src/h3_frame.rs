//! HTTP/3 frame header and frame codec.
//!
//! A frame header is `type` then `length`, each a QUIC varint; a full frame
//! is the header followed by exactly `length` payload bytes. Decoding is
//! deterministic, consumes only the bytes the frame requires, and hands the
//! payload back as a borrowed view into the input.

use vstd::prelude::*;

use crate::varint;
use crate::varint::{VarIntError, VARINT_MAX};

verus! {

#[derive(Clone, Copy, Debug, PartialEq, Eq, Structural)]
pub struct FrameHeader {
    pub ty: u64,
    pub len: u64,
}

#[derive(Clone, Copy, Debug, PartialEq, Eq, Structural)]
pub enum Error {
    /// Not enough room in the output buffer for the whole header.
    BufferTooSmall,
    /// The header's declared payload length exceeds the bytes that remain.
    LengthExceedsInput,
    /// A varint inside the header failed to decode or encode.
    VarInt(VarIntError),
}

impl core::convert::From<VarIntError> for Error {
    fn from(value: VarIntError) -> (r: Self) {
        Error::VarInt(value)
    }
}

impl vstd::std_specs::convert::FromSpecImpl<VarIntError> for Error {
    open spec fn obeys_from_spec() -> bool {
        true
    }

    open spec fn from_spec(value: VarIntError) -> Self {
        Error::VarInt(value)
    }
}

/// The wire bytes of a frame header: the type varint then the length varint.
pub open spec fn spec_header_bytes(h: FrameHeader) -> Seq<u8>
    recommends
        h.ty <= VARINT_MAX,
        h.len <= VARINT_MAX,
{
    varint::spec_encode(h.ty) + varint::spec_encode(h.len)
}

/// Whether `s` starts with a complete frame header: a whole type varint
/// followed by a whole length varint.
pub open spec fn spec_header_ok(s: Seq<u8>) -> bool {
    s.len() > 0 && s.len() >= varint::spec_tag_len(s[0]) && {
        let n1 = varint::spec_tag_len(s[0]) as int;
        s.len() > n1 && s.len() >= n1 + varint::spec_tag_len(s[n1])
    }
}

/// Byte count of the header at the start of `s`.
pub open spec fn spec_header_len(s: Seq<u8>) -> nat
    recommends
        spec_header_ok(s),
{
    varint::spec_tag_len(s[0]) + varint::spec_tag_len(s[varint::spec_tag_len(s[0]) as int])
}

/// The header decoded from the start of `s`.
pub open spec fn spec_header(s: Seq<u8>) -> FrameHeader
    recommends
        spec_header_ok(s),
{
    FrameHeader {
        ty: varint::spec_decoded(s),
        len: varint::spec_decoded(s.skip(varint::spec_tag_len(s[0]) as int)),
    }
}

/// A decoded varint depends only on the bytes the tag covers: any extension
/// of the input decodes to the same value.
pub proof fn lemma_decoded_depends_on_prefix(s: Seq<u8>, t: Seq<u8>)
    requires
        s.len() > 0,
        s.len() >= varint::spec_tag_len(s[0]),
    ensures
        varint::spec_tag_len((s + t)[0]) == varint::spec_tag_len(s[0]),
        varint::spec_decoded(s + t) == varint::spec_decoded(s),
{
    assert((s + t)[0] == s[0]);
    let n = varint::spec_tag_len(s[0]) as int;
    assert(forall|i: int| 0 <= i < n ==> (s + t)[i] == s[i]);
}

/// Law: a frame round-trips. Encoding a header and following it with exactly
/// `h.len` payload bytes yields an input that decodes back to the same
/// header, the same payload bytes, and a total consumption of header plus
/// payload length.
pub proof fn lemma_frame_round_trip(h: FrameHeader, payload: Seq<u8>)
    requires
        h.ty <= VARINT_MAX,
        h.len <= VARINT_MAX,
        h.len == payload.len(),
    ensures
        spec_header_ok(spec_header_bytes(h) + payload),
        spec_header_len(spec_header_bytes(h) + payload) == spec_header_bytes(h).len(),
        spec_header(spec_header_bytes(h) + payload) == h,
        (spec_header_bytes(h) + payload).subrange(
            spec_header_bytes(h).len() as int,
            spec_header_bytes(h).len() + h.len,
        ) == payload,
{
    let e1 = varint::spec_encode(h.ty);
    let e2 = varint::spec_encode(h.len);
    let s = spec_header_bytes(h) + payload;
    varint::lemma_round_trip(h.ty);
    varint::lemma_round_trip(h.len);
    let n1 = e1.len() as int;
    let n2 = e2.len() as int;

    assert(s =~= e1 + (e2 + payload));
    lemma_decoded_depends_on_prefix(e1, e2 + payload);
    assert(varint::spec_decoded(s) == h.ty);

    assert(s.skip(n1) =~= e2 + payload);
    lemma_decoded_depends_on_prefix(e2, payload);
    assert(varint::spec_decoded(s.skip(n1)) == h.len);
    assert(s[n1] == e2[0]);

    assert(spec_header_ok(s));
    assert(spec_header_len(s) == n1 + n2);
    assert(spec_header(s) == h);
    assert(s.subrange(n1 + n2, n1 + n2 + h.len) =~= payload);
}

/// Decode an HTTP/3 frame header from `input`; returns the header and the
/// bytes consumed, exactly the two varints' lengths. A varint failure is
/// passed on unchanged, wrapped in this codec's error kind.
pub fn decode_frame_header(input: &[u8]) -> (r: Result<(FrameHeader, usize), Error>)
    ensures
        spec_header_ok(input@) ==> r == Ok::<(FrameHeader, usize), Error>(
            (spec_header(input@), spec_header_len(input@) as usize),
        ),
        !spec_header_ok(input@) ==> r == Err::<(FrameHeader, usize), Error>(
            Error::VarInt(VarIntError::BufferTooSmall),
        ),
{
    let (ty, ty_len) = match varint::decode(input) {
        Ok(p) => p,
        Err(e) => {
            return Err(Error::VarInt(e));
        },
    };
    let rest = vstd::slice::slice_subrange(input, ty_len, input.len());
    let (len, len_len) = match varint::decode(rest) {
        Ok(p) => p,
        Err(e) => {
            return Err(Error::VarInt(e));
        },
    };
    assert(rest@ == input@.skip(ty_len as int));
    Ok((FrameHeader { ty, len }, ty_len + len_len))
}

/// Encode a frame header into the beginning of `out`; returns the bytes
/// written. The length check happens up front: on failure nothing in `out`
/// changes, no partial header is ever written.
pub fn encode_frame_header(h: FrameHeader, out: &mut Vec<u8>) -> (r: Result<usize, Error>)
    ensures
        h.ty > VARINT_MAX ==> r == Err::<usize, Error>(Error::VarInt(VarIntError::ValueTooLarge))
            && final(out)@ == old(out)@,
        h.ty <= VARINT_MAX && h.len > VARINT_MAX ==> r == Err::<usize, Error>(
            Error::VarInt(VarIntError::ValueTooLarge),
        ) && final(out)@ == old(out)@,
        h.ty <= VARINT_MAX && h.len <= VARINT_MAX && old(out)@.len() < spec_header_bytes(h).len()
            ==> r == Err::<usize, Error>(Error::BufferTooSmall) && final(out)@ == old(out)@,
        h.ty <= VARINT_MAX && h.len <= VARINT_MAX && old(out)@.len() >= spec_header_bytes(h).len()
            ==> r == Ok::<usize, Error>(spec_header_bytes(h).len() as usize) && final(out)@.len()
            == old(out)@.len() && final(out)@.subrange(0, spec_header_bytes(h).len() as int)
            == spec_header_bytes(h) && final(out)@.skip(spec_header_bytes(h).len() as int) == old(
            out,
        )@.skip(spec_header_bytes(h).len() as int),
{
    let ty_encoded_len = match varint::encoded_len(h.ty) {
        Ok(n) => n,
        Err(e) => {
            return Err(Error::VarInt(e));
        },
    };
    let len_encoded_len = match varint::encoded_len(h.len) {
        Ok(n) => n,
        Err(e) => {
            return Err(Error::VarInt(e));
        },
    };
    let total = ty_encoded_len + len_encoded_len;

    if out.len() < total {
        return Err(Error::BufferTooSmall);
    }

    let ty_written = match varint::encode_at(h.ty, out, 0) {
        Ok(n) => n,
        Err(e) => {
            return Err(Error::VarInt(e));
        },
    };
    let ghost mid = out@;
    let len_written = match varint::encode_at(h.len, out, ty_written) {
        Ok(n) => n,
        Err(e) => {
            return Err(Error::VarInt(e));
        },
    };

    proof {
        let n1 = varint::spec_encoded_len(h.ty) as int;
        let n2 = varint::spec_encoded_len(h.len) as int;
        let hb = spec_header_bytes(h);
        assert forall|i: int| 0 <= i < n1 implies out@[i] == hb[i] by {
            assert(out@.take(n1)[i] == mid.take(n1)[i]);
            assert(mid.subrange(0, n1)[i] == varint::spec_encode(h.ty)[i]);
        }
        assert forall|i: int| n1 <= i < n1 + n2 implies out@[i] == hb[i] by {
            assert(out@.subrange(n1, n1 + n2)[i - n1] == varint::spec_encode(h.len)[i - n1]);
        }
        assert(out@.subrange(0, hb.len() as int) =~= hb);
        assert forall|i: int| n1 + n2 <= i < out@.len() implies out@[i] == old(out)@[i] by {
            assert(out@.skip(n1 + n2)[i - n1 - n2] == mid.skip(n1 + n2)[i - n1 - n2]);
            assert(mid.skip(n1)[i - n1] == old(out)@.skip(n1)[i - n1]);
        }
        assert(out@.skip(hb.len() as int) =~= old(out)@.skip(hb.len() as int));
    }
    Ok(ty_written + len_written)
}

/// Decode a full HTTP/3 frame: the header, a borrowed payload view spanning
/// exactly `header.len` bytes of `input`, and the total bytes consumed.
/// Fails `LengthExceedsInput` when the declared payload length exceeds the
/// bytes remaining after the header.
pub fn decode_frame(input: &[u8]) -> (r: Result<(FrameHeader, &[u8], usize), Error>)
    ensures
        !spec_header_ok(input@) ==> (r matches Err(e) && e == Error::VarInt(
            VarIntError::BufferTooSmall,
        )),
        spec_header_ok(input@) && spec_header(input@).len > input@.len() - spec_header_len(input@)
            ==> (r matches Err(e) && e == Error::LengthExceedsInput),
        spec_header_ok(input@) && spec_header(input@).len <= input@.len() - spec_header_len(input@)
            ==> (r matches Ok(f) && f.0 == spec_header(input@) && f.1@ == input@.subrange(
            spec_header_len(input@) as int,
            spec_header_len(input@) + spec_header(input@).len,
        ) && f.2 == spec_header_len(input@) + spec_header(input@).len),
{
    let (header, header_len) = match decode_frame_header(input) {
        Ok(p) => p,
        Err(e) => {
            return Err(e);
        },
    };

    let available = input.len() - header_len;
    if header.len > available as u64 {
        return Err(Error::LengthExceedsInput);
    }
    let payload_len = header.len as usize;

    let payload_start = header_len;
    let payload_end = payload_start + payload_len;
    let payload = vstd::slice::slice_subrange(input, payload_start, payload_end);

    Ok((header, payload, payload_end))
}

} // verus!
