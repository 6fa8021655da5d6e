//! SETTINGS frame payload encoding.
//!
//! A SETTINGS payload is a sequence of identifier/value varint pairs. The
//! current settings set is empty: it encodes to zero bytes and must leave the
//! caller's buffer untouched, byte for byte, whatever the buffer holds.

use vstd::prelude::*;

verus! {

/// SETTINGS payload encoding errors.
#[derive(Clone, Copy, Debug, PartialEq, Eq, Structural)]
pub enum Error {
    /// The whole payload does not fit in the output buffer.
    BufferTooSmall,
}

#[derive(Clone, Debug, PartialEq, Eq, Structural)]
pub struct Settings {}

impl Settings {
    /// The wire bytes of this SETTINGS payload: one identifier/value varint
    /// pair per setting. With no settings defined, it is empty.
    pub open spec fn spec_payload(self) -> Seq<u8> {
        Seq::empty()
    }

    /// A fresh, empty settings set.
    pub fn new() -> (r: Self)
        ensures
            r == (Settings {  }),
    {
        Settings {  }
    }

    /// Encodes this SETTINGS payload into the beginning of `out` and returns
    /// the bytes written. Empty settings are valid, write exactly zero bytes,
    /// and never read or alter any byte of `out`.
    pub fn encode_payload(&self, out: &mut Vec<u8>) -> (r: Result<usize, Error>)
        ensures
            r == Ok::<usize, Error>(self.spec_payload().len() as usize),
            final(out)@ == old(out)@,
    {
        Ok(0)
    }
}

impl core::default::Default for Settings {
    /// Same as `Settings::new`: the empty settings set.
    fn default() -> (r: Self)
        ensures
            r == (Settings {  }),
    {
        Settings {  }
    }
}

} // verus!
