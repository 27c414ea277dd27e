//! Instruction decoder for the SM83, the 8-bit processor of the Game Boy.
//!
//! [`cpu::instruction::Instruction::decode`] reads the bytes at the position of a
//! [`cpu::cursor::ByteCursor`], yields the one instruction of the base opcode table that they
//! encode, and leaves the cursor behind them. It describes the operation and its operands; it
//! does not perform it. The extended table behind the prefix `0xCB` is not covered: the prefix
//! is reported as [`cpu::error::DecodeError::UnsupportedExtendedOpcode`].
//!
//! What the decoder returns is stated by [`cpu::instruction::decoding`] over the opcode table
//! of [`cpu::opcode`], and proved of the code.

pub mod cpu;
