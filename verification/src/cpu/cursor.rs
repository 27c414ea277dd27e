//! A forward-only reader over the bytes of a program image.

use byteorder::{BigEndian, ByteOrder};
use vstd::prelude::*;

use crate::cpu::error::DecodeError;

verus! {

/// The mathematical content of a [`ByteCursor`]: the whole byte buffer and how many of its
/// bytes lie before the read position.
pub struct CursorState {
    pub bytes: Seq<u8>,
    pub position: nat,
}

impl CursorState {
    /// How many bytes can still be read.
    pub open spec fn remaining(self) -> nat {
        if self.position <= self.bytes.len() {
            (self.bytes.len() - self.position) as nat
        } else {
            0
        }
    }

    /// The bytes that can still be read, the next one first.
    pub open spec fn unread(self) -> Seq<u8> {
        if self.position <= self.bytes.len() {
            self.bytes.skip(self.position as int)
        } else {
            Seq::empty()
        }
    }

    /// The state after `count` further bytes have been consumed.
    pub open spec fn advance(self, count: nat) -> CursorState {
        CursorState { bytes: self.bytes, position: self.position + count }
    }
}

/// The 16-bit value whose upper eight bits are `high` and whose lower eight bits are `low`.
pub open spec fn big_endian_word(high: u8, low: u8) -> u16 {
    (high as int * 256 + low as int) as u16
}

/// Assembles two bytes, the more significant first, into a 16-bit word.
///
/// Trusted: the body calls `<byteorder::BigEndian as byteorder::ByteOrder>::read_u16` on the
/// two-byte buffer `[high, low]`. byteorder reads the buffer as a big-endian integer, so the
/// contract claims that the result is `high * 256 + low`. The buffer always holds the two
/// bytes the call needs, so the call cannot panic.
#[verifier::external_body]
fn big_endian_u16(high: u8, low: u8) -> (word: u16)
    ensures
        word == big_endian_word(high, low),
{
    BigEndian::read_u16(&[high, low])
}

/// A sequential reader over an owned byte buffer.
///
/// Each read returns the bytes at the read position and moves the position past them. The
/// buffer itself never changes, and the position never moves backward.
pub struct ByteCursor {
    bytes: Vec<u8>,
    position: usize,
}

impl View for ByteCursor {
    type V = CursorState;

    closed spec fn view(&self) -> CursorState {
        CursorState { bytes: self.bytes@, position: self.position as nat }
    }
}

impl ByteCursor {
    /// A cursor at the first byte of `bytes`.
    pub fn new(bytes: Vec<u8>) -> (cursor: ByteCursor)
        ensures
            cursor@ == (CursorState { bytes: bytes@, position: 0 }),
    {
        ByteCursor { bytes, position: 0 }
    }

    /// A cursor over `bytes` whose next read starts at offset `position`, such as the
    /// program counter. An offset at or past the end leaves nothing to read.
    pub fn starting_at(bytes: Vec<u8>, position: usize) -> (cursor: ByteCursor)
        ensures
            cursor@ == (CursorState { bytes: bytes@, position: position as nat }),
    {
        ByteCursor { bytes, position }
    }

    /// The offset of the next byte to read, which is also the number of bytes that lie
    /// before it.
    pub fn position(&self) -> (position: usize)
        ensures
            position == self@.position,
    {
        self.position
    }

    /// Gives the byte buffer back, whatever the read position.
    pub fn into_bytes(self) -> (bytes: Vec<u8>)
        ensures
            bytes@ == self@.bytes,
    {
        self.bytes
    }

    /// Reads the byte at the read position and steps over it.
    ///
    /// Fails with [`DecodeError::TruncatedStream`], without moving, exactly when no byte
    /// remains.
    pub fn read_u8(&mut self) -> (result: Result<u8, DecodeError>)
        ensures
            final(self)@.bytes == old(self)@.bytes,
            old(self)@.remaining() >= 1 ==> result == Ok::<u8, DecodeError>(old(self)@.unread()[0])
                && final(self)@ == old(self)@.advance(1),
            old(self)@.remaining() < 1 ==> result == Err::<u8, DecodeError>(
                DecodeError::TruncatedStream,
            ) && final(self)@ == old(self)@,
    {
        if self.position < self.bytes.len() {
            let byte: u8 = self.bytes[self.position];
            self.position = self.position + 1;
            Ok(byte)
        } else {
            Err(DecodeError::TruncatedStream)
        }
    }

    /// Reads two bytes and combines them with the first as the upper half of the word.
    ///
    /// Fails with [`DecodeError::TruncatedStream`] exactly when fewer than two bytes remain.
    /// A single remaining byte is consumed before the failure is noticed, so after a failure
    /// nothing is left to read.
    pub fn read_u16_big_endian(&mut self) -> (result: Result<u16, DecodeError>)
        ensures
            final(self)@.bytes == old(self)@.bytes,
            old(self)@.remaining() >= 2 ==> result == Ok::<u16, DecodeError>(
                big_endian_word(old(self)@.unread()[0], old(self)@.unread()[1]),
            ) && final(self)@ == old(self)@.advance(2),
            old(self)@.remaining() < 2 ==> result == Err::<u16, DecodeError>(
                DecodeError::TruncatedStream,
            ) && final(self)@ == old(self)@.advance(old(self)@.remaining()),
    {
        let high: u8 = self.read_u8()?;
        let low: u8 = self.read_u8()?;
        Ok(big_endian_u16(high, low))
    }
}

} // verus!
