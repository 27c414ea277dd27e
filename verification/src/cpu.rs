//! The processor's addressable locations and condition flags, as operands of instructions.

use vstd::prelude::*;

pub mod cursor;
pub mod error;
pub mod instruction;
pub mod opcode;

verus! {

/// A location of the register file that an instruction can name.
///
/// `A` to `L` are the 8-bit registers, the others the 16-bit pairs and pointers. Whether an
/// instruction uses the value of a register or the memory cell that the value points to is
/// part of the instruction, not of the register.
#[derive(Debug, Clone, Copy, PartialEq, Eq)]
pub enum Register {
    A,
    B,
    C,
    D,
    E,
    H,
    L,
    BC,
    DE,
    HL,
    SP,
    AF,
}

/// A condition flag that a conditional jump, call or return consults.
#[derive(Debug, Clone, Copy, PartialEq, Eq)]
pub enum Flag {
    /// The zero flag.
    Z,
    /// The carry flag.
    CY,
}

} // verus!
