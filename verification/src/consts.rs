//! HTTP/3 protocol constants.
//!
//! Named wire values live here so the magic numbers are not scattered across
//! the codebase.

use vstd::prelude::*;

verus! {

/// Unidirectional stream type: control stream.
pub const STREAM_TYPE_CONTROL: u64 = 0x00;

/// Unidirectional stream type: push stream.
pub const STREAM_TYPE_PUSH: u64 = 0x01;

/// Unidirectional stream type: QPACK encoder stream.
pub const STREAM_TYPE_QPACK_ENCODER: u64 = 0x02;

/// Unidirectional stream type: QPACK decoder stream.
pub const STREAM_TYPE_QPACK_DECODER: u64 = 0x03;

/// Frame type: DATA.
pub const FRAME_TYPE_DATA: u64 = 0x00;

/// Frame type: HEADERS.
pub const FRAME_TYPE_HEADERS: u64 = 0x01;

/// Frame type: SETTINGS.
pub const FRAME_TYPE_SETTINGS: u64 = 0x04;

/// Frame type: GOAWAY.
pub const FRAME_TYPE_GOAWAY: u64 = 0x07;

/// Application error code: no error.
pub const H3_NO_ERROR: u64 = 0x0100;

/// Application error code: general protocol error.
pub const H3_GENERAL_PROTOCOL_ERROR: u64 = 0x0101;

/// Application error code: a frame arrived where it is not permitted.
pub const H3_FRAME_UNEXPECTED: u64 = 0x0103;

/// Application error code: a frame violated its layout rules.
pub const H3_FRAME_ERROR: u64 = 0x0106;

} // verus!
