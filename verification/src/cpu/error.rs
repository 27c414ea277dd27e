//! The ways in which decoding one instruction can fail.

use vstd::prelude::*;

verus! {

/// Why no instruction could be decoded.
///
/// Every failure is final for the call that reports it: the decoder neither retries nor
/// rewinds, so the cursor stays where the failing read left it.
#[derive(Debug, Clone, Copy, PartialEq, Eq)]
pub enum DecodeError {
    /// The stream ended before the opcode, or before the last byte of its immediate operand.
    TruncatedStream,
    /// The opcode is the prefix of the extended table, which this decoder does not cover.
    UnsupportedExtendedOpcode,
    /// The opcode has no rule in the base table.
    UnknownOpcode {
        /// The offending opcode byte.
        opcode: u8,
    },
}

} // verus!
