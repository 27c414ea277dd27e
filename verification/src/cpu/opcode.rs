//! The base opcode table: which instruction an opcode byte selects and which bytes follow it.
//!
//! The table is stated the way the instruction set is laid out. An opcode byte reads as
//! three bit fields, `xx yyy zzz`: `x` (bits 7-6) picks one of four quarters of the table,
//! and within a quarter `y` (bits 5-3) and `z` (bits 2-0) pick the operation and its operand.
//! Where an operation works on a register pair, `y` splits further into `p` (bits 5-4), the
//! pair, and `q` (bit 3).
//!
//! In terms of the two hexadecimal digits of an opcode: `p` is the upper digit modulo four,
//! `q` tells the upper half of the lower digit's range (`8` to `F`) from the lower half, and
//! `z` is the lower digit modulo eight, so that the lower digits `6` and `E` both select the
//! memory cell at HL.

use vstd::prelude::*;

use crate::cpu::cursor::big_endian_word;
use crate::cpu::instruction::{Instruction, MathOperation};
use crate::cpu::{Flag, Register};

verus! {

/// The opcode that announces an instruction of the extended table.
pub const EXTENDED_PREFIX: u8 = 0xCB;

/// Bits 7-6 of the opcode.
pub open spec fn field_x(opcode: u8) -> int {
    opcode as int / 64
}

/// Bits 5-3 of the opcode.
pub open spec fn field_y(opcode: u8) -> int {
    opcode as int / 8 % 8
}

/// Bits 2-0 of the opcode.
pub open spec fn field_z(opcode: u8) -> int {
    opcode as int % 8
}

/// Bits 5-4 of the opcode.
pub open spec fn field_p(opcode: u8) -> int {
    opcode as int / 16 % 4
}

/// Bit 3 of the opcode.
pub open spec fn field_q(opcode: u8) -> int {
    opcode as int / 8 % 2
}

/// The single-byte operand that a three-bit field selects: B, C, D, E, H, L, the memory cell
/// that HL points to, A.
pub open spec fn byte_register(slot: int) -> Register {
    if slot == 0 {
        Register::B
    } else if slot == 1 {
        Register::C
    } else if slot == 2 {
        Register::D
    } else if slot == 3 {
        Register::E
    } else if slot == 4 {
        Register::H
    } else if slot == 5 {
        Register::L
    } else if slot == 6 {
        Register::HL
    } else {
        Register::A
    }
}

/// Whether a three-bit operand field selects the memory cell that HL points to.
pub open spec fn is_memory_slot(slot: int) -> bool {
    slot == 6
}

/// The register pair that field `p` selects for loads and 16-bit arithmetic: BC, DE, HL, SP.
pub open spec fn wide_register(pair: int) -> Register {
    if pair == 0 {
        Register::BC
    } else if pair == 1 {
        Register::DE
    } else if pair == 2 {
        Register::HL
    } else {
        Register::SP
    }
}

/// The register pair that field `p` selects for push and pop: BC, DE, HL, AF.
pub open spec fn stack_register(pair: int) -> Register {
    if pair == 0 {
        Register::BC
    } else if pair == 1 {
        Register::DE
    } else if pair == 2 {
        Register::HL
    } else {
        Register::AF
    }
}

/// The pointer that field `p` selects for loads between A and memory: BC, DE, HL, HL.
pub open spec fn pointer_register(pair: int) -> Register {
    if pair == 0 {
        Register::BC
    } else if pair == 1 {
        Register::DE
    } else {
        Register::HL
    }
}

/// What a load between A and memory does to its pointer afterwards: nothing for BC and DE,
/// an increment for the first HL form, a decrement for the second.
pub open spec fn pointer_adjustment(pair: int) -> Option<MathOperation> {
    if pair == 2 {
        Some(MathOperation::Increment)
    } else if pair == 3 {
        Some(MathOperation::Decrement)
    } else {
        None
    }
}

/// The flag that a two-bit condition field consults. The four conditions are, in order,
/// "zero flag is 0", "zero flag is 1", "carry flag is 0", "carry flag is 1".
pub open spec fn condition_flag(condition: int) -> Flag {
    if condition < 2 {
        Flag::Z
    } else {
        Flag::CY
    }
}

/// Whether a two-bit condition field asks for its flag to be 1 rather than 0.
pub open spec fn condition_expects_one(condition: int) -> bool {
    condition % 2 == 1
}

/// The address in the topmost page of memory whose low byte is `low`.
pub open spec fn high_page_address(low: u8) -> u16 {
    (0xFF00 + low as int) as u16
}

/// The bytes that follow an opcode in the stream.
pub enum Immediate {
    /// No byte follows.
    Nothing,
    /// One byte follows that the processor reads and drops.
    Padding,
    /// One operand byte follows.
    Byte,
    /// Two operand bytes follow, the more significant first.
    Word,
}

impl Immediate {
    /// How many bytes follow the opcode.
    pub open spec fn length(self) -> nat {
        match self {
            Immediate::Nothing => 0,
            Immediate::Padding => 1,
            Immediate::Byte => 1,
            Immediate::Word => 2,
        }
    }
}

/// The bytes that follow `opcode`.
pub open spec fn immediate_of(opcode: u8) -> Immediate {
    let x = field_x(opcode);
    let y = field_y(opcode);
    let z = field_z(opcode);
    let p = field_p(opcode);
    let q = field_q(opcode);
    if x == 0 {
        if z == 0 {
            if y == 0 {
                Immediate::Nothing
            } else if y == 1 {
                Immediate::Word
            } else if y == 2 {
                Immediate::Padding
            } else {
                Immediate::Byte
            }
        } else if z == 1 && q == 0 {
            Immediate::Word
        } else if z == 6 {
            Immediate::Byte
        } else {
            Immediate::Nothing
        }
    } else if x == 3 {
        if z == 0 && y >= 4 {
            Immediate::Byte
        } else if z == 2 && (y < 4 || y == 5 || y == 7) {
            Immediate::Word
        } else if z == 3 && y == 0 {
            Immediate::Word
        } else if z == 4 && y < 4 {
            Immediate::Word
        } else if z == 5 && q == 1 && p == 0 {
            Immediate::Word
        } else if z == 6 {
            Immediate::Byte
        } else {
            Immediate::Nothing
        }
    } else {
        Immediate::Nothing
    }
}

/// The instruction that `opcode` selects when the bytes `trailing` follow it, or `None` when
/// the table has no rule for `opcode`.
///
/// Only as many bytes of `trailing` matter as [`immediate_of`] says: `trailing[0]` is the
/// operand byte, or the upper half of the operand word whose lower half is `trailing[1]`.
pub open spec fn instruction_of(opcode: u8, trailing: Seq<u8>) -> Option<Instruction> {
    let x = field_x(opcode);
    if x == 0 {
        Some(first_quarter(opcode, trailing))
    } else if x == 1 {
        Some(load_quarter(opcode))
    } else if x == 2 {
        Some(accumulator_quarter(opcode))
    } else {
        last_quarter(opcode, trailing)
    }
}

/// Opcodes `0x00` to `0x3F`: relative jumps, loads of immediates, loads through pointers,
/// increments and decrements, and the operations on A and the flags.
pub open spec fn first_quarter(opcode: u8, trailing: Seq<u8>) -> Instruction {
    let y = field_y(opcode);
    let z = field_z(opcode);
    let p = field_p(opcode);
    let q = field_q(opcode);
    let byte = trailing[0];
    let word = big_endian_word(trailing[0], trailing[1]);
    if z == 0 {
        if y == 0 {
            Instruction::NoOperation
        } else if y == 1 {
            Instruction::StoreStackPointerInMemory { address: word }
        } else if y == 2 {
            Instruction::Stop
        } else if y == 3 {
            Instruction::RelativeJump { steps: byte }
        } else if condition_expects_one(y - 4) {
            Instruction::RelativeJumpIfFlagIsOne { flag: condition_flag(y - 4), steps: byte }
        } else {
            Instruction::RelativeJumpIfFlagIsZero { flag: condition_flag(y - 4), steps: byte }
        }
    } else if z == 1 {
        if q == 0 {
            Instruction::LoadTwoBytesOfDataIntoRegister { data: word, register: wide_register(p) }
        } else {
            Instruction::AddValueOfSecondRegisterToFirstRegister {
                register1: Register::HL,
                register2: wide_register(p),
                treat_value_in_second_register_as_memory_address: false,
            }
        }
    } else if z == 2 {
        if q == 0 {
            Instruction::LoadValueOfFirstRegisterIntoSecondRegister {
                register1: Register::A,
                register2: pointer_register(p),
                treat_value_in_first_register_as_memory_address: false,
                treat_value_in_second_register_as_memory_address: true,
                operation_on_first_register: None,
                operation_on_second_register: pointer_adjustment(p),
            }
        } else {
            Instruction::LoadValueOfFirstRegisterIntoSecondRegister {
                register1: pointer_register(p),
                register2: Register::A,
                treat_value_in_first_register_as_memory_address: true,
                treat_value_in_second_register_as_memory_address: false,
                operation_on_first_register: pointer_adjustment(p),
                operation_on_second_register: None,
            }
        }
    } else if z == 3 {
        if q == 0 {
            Instruction::IncrementValueInRegister {
                register: wide_register(p),
                treat_value_in_register_as_memory_address: false,
            }
        } else {
            Instruction::DecrementValueInRegister {
                register: wide_register(p),
                treat_value_in_register_as_memory_address: false,
            }
        }
    } else if z == 4 {
        Instruction::IncrementValueInRegister {
            register: byte_register(y),
            treat_value_in_register_as_memory_address: is_memory_slot(y),
        }
    } else if z == 5 {
        Instruction::DecrementValueInRegister {
            register: byte_register(y),
            treat_value_in_register_as_memory_address: is_memory_slot(y),
        }
    } else if z == 6 {
        Instruction::LoadOneByteOfDataIntoRegister {
            data: byte,
            register: byte_register(y),
            treat_value_in_register_as_memory_address: is_memory_slot(y),
        }
    } else if y == 0 {
        Instruction::RotateContentOfRegisterToLeft { register: Register::A }
    } else if y == 1 {
        Instruction::RotateContentOfRegisterToRight { register: Register::A }
    } else if y == 2 {
        Instruction::RotateContentOfRegisterToLeftThroughCarryFlag { register: Register::A }
    } else if y == 3 {
        Instruction::RotateContentOfRegisterToRightThroughCarryFlag { register: Register::A }
    } else if y == 4 {
        Instruction::AdjustAccumulatorToBCDNumber
    } else if y == 5 {
        Instruction::Not { register: Register::A }
    } else if y == 6 {
        Instruction::SetCarryFlag
    } else {
        Instruction::NotCarryFlag
    }
}

/// Opcodes `0x40` to `0x7F`: the load of operand `z` into operand `y`. The one cell of the
/// block that would load the memory cell at HL into itself is the halt instruction instead.
pub open spec fn load_quarter(opcode: u8) -> Instruction {
    let y = field_y(opcode);
    let z = field_z(opcode);
    if is_memory_slot(y) && is_memory_slot(z) {
        Instruction::Halt
    } else {
        Instruction::LoadValueOfFirstRegisterIntoSecondRegister {
            register1: byte_register(z),
            register2: byte_register(y),
            treat_value_in_first_register_as_memory_address: is_memory_slot(z),
            treat_value_in_second_register_as_memory_address: is_memory_slot(y),
            operation_on_first_register: None,
            operation_on_second_register: None,
        }
    }
}

/// Opcodes `0x80` to `0xBF`: operation `y` on A and operand `z`. The eight operations are,
/// in order, add, add with carry, subtract, subtract with carry, and, exclusive or, or,
/// compare.
pub open spec fn accumulator_quarter(opcode: u8) -> Instruction {
    let y = field_y(opcode);
    let z = field_z(opcode);
    let register = byte_register(z);
    let indirect = is_memory_slot(z);
    if y == 0 {
        Instruction::AddValueOfSecondRegisterToFirstRegister {
            register1: Register::A,
            register2: register,
            treat_value_in_second_register_as_memory_address: indirect,
        }
    } else if y == 1 {
        Instruction::AddValueOfSecondRegisterAndCarryFlagToFirstRegister {
            register1: Register::A,
            register2: register,
            treat_value_in_second_register_as_memory_address: indirect,
        }
    } else if y == 2 {
        Instruction::SubtractValueOfSecondRegisterFromFirstRegister {
            register1: Register::A,
            register2: register,
            treat_value_in_second_register_as_memory_address: indirect,
        }
    } else if y == 3 {
        Instruction::SubtractValueOfSecondRegisterAndCarryFlagFromFirstRegister {
            register1: Register::A,
            register2: register,
            treat_value_in_second_register_as_memory_address: indirect,
        }
    } else if y == 4 {
        Instruction::LogicalAndOnAccumulatorAndRegister {
            register,
            treat_value_in_register_as_memory_address: indirect,
        }
    } else if y == 5 {
        Instruction::LogicalXorOnAccumulatorAndRegister {
            register,
            treat_value_in_register_as_memory_address: indirect,
        }
    } else if y == 6 {
        Instruction::LogicalOrOnAccumulatorAndRegister {
            register,
            treat_value_in_register_as_memory_address: indirect,
        }
    } else {
        Instruction::CompareAccumulatorAndRegister {
            register,
            treat_value_in_register_as_memory_address: indirect,
        }
    }
}

/// Opcodes `0xC0` to `0xFF`: returns, jumps, calls and restarts, the stack, loads between A
/// and memory, and arithmetic on A with an immediate byte. The cells that the instruction set
/// leaves empty, and the prefix of the extended table, have no rule.
///
/// A restart names its target by number, `0` to `7`. The two additions to the stack pointer
/// carry their offset byte as it stands in the stream.
pub open spec fn last_quarter(opcode: u8, trailing: Seq<u8>) -> Option<Instruction> {
    let y = field_y(opcode);
    let z = field_z(opcode);
    let p = field_p(opcode);
    let q = field_q(opcode);
    let byte = trailing[0];
    let word = big_endian_word(trailing[0], trailing[1]);
    let flag = condition_flag(y);
    if z == 0 {
        if y < 4 {
            if condition_expects_one(y) {
                Some(Instruction::ReturnIfFlagIsOne { flag })
            } else {
                Some(Instruction::ReturnIfFlagIsZero { flag })
            }
        } else if y == 4 {
            Some(Instruction::StoreAccumulatorInMemory { address: high_page_address(byte) })
        } else if y == 5 {
            Some(Instruction::AddValueToStackPointer { value: byte })
        } else if y == 6 {
            Some(Instruction::LoadAccumulatorFromMemory { address: high_page_address(byte) })
        } else {
            Some(Instruction::AddValueToStackPointerAndStoreResultInRegisterHL { value: byte })
        }
    } else if z == 1 {
        if q == 0 {
            Some(Instruction::PopValueFromStackIntoRegister { register: stack_register(p) })
        } else if p == 0 {
            Some(Instruction::Return)
        } else if p == 1 {
            Some(Instruction::ReturnAfterInterrupt)
        } else if p == 2 {
            Some(Instruction::AbsoluteJumpToAddressInRegister { register: Register::HL })
        } else {
            Some(Instruction::StoreContentOfRegisterHLInStackPointer)
        }
    } else if z == 2 {
        if y < 4 {
            if condition_expects_one(y) {
                Some(Instruction::AbsoluteJumpIfFlagIsOne { flag, address: word })
            } else {
                Some(Instruction::AbsoluteJumpIfFlagIsZero { flag, address: word })
            }
        } else if y == 4 {
            Some(Instruction::StoreAccumulatorInMemorySpecifiedByRegisterC)
        } else if y == 5 {
            Some(Instruction::StoreAccumulatorInMemory { address: word })
        } else if y == 6 {
            Some(Instruction::LoadAccumulatorFromMemorySpecifiedByRegisterC)
        } else {
            Some(Instruction::LoadAccumulatorFromMemory { address: word })
        }
    } else if z == 3 {
        if y == 0 {
            Some(Instruction::AbsoluteJump { address: word })
        } else if y == 6 {
            Some(Instruction::ResetInterruptMasterEnableFlag)
        } else if y == 7 {
            Some(Instruction::SetInterruptMasterEnableFlag)
        } else {
            None
        }
    } else if z == 4 {
        if y < 4 {
            if condition_expects_one(y) {
                Some(Instruction::CallIfFlagIsOne { flag, address: word })
            } else {
                Some(Instruction::CallIfFlagIsZero { flag, address: word })
            }
        } else {
            None
        }
    } else if z == 5 {
        if q == 0 {
            Some(Instruction::PushValueOfRegisterOntoStack { register: stack_register(p) })
        } else if p == 0 {
            Some(Instruction::Call { address: word })
        } else {
            None
        }
    } else if z == 6 {
        if y == 0 {
            Some(Instruction::AddOneByteToAccumulator { value: byte })
        } else if y == 1 {
            Some(Instruction::AddOneByteAndCarryFlagToAccumulator { value: byte })
        } else if y == 2 {
            Some(Instruction::SubtractOneByteFromAccumulator { value: byte })
        } else if y == 3 {
            Some(Instruction::SubtractOneByteAndCarryFlagFromAccumulator { value: byte })
        } else if y == 4 {
            Some(Instruction::LogicalAndOnAccumulatorAndOneByte { value: byte })
        } else if y == 5 {
            Some(Instruction::LogicalXorOnAccumulatorAndOneByte { value: byte })
        } else if y == 6 {
            Some(Instruction::LogicalOrOnAccumulatorAndOneByte { value: byte })
        } else {
            Some(Instruction::CompareAccumulatorAndOneByte { value: byte })
        }
    } else {
        Some(Instruction::Reset { location: y as u8 })
    }
}

/// The opcodes that the instruction set itself leaves without an instruction.
pub open spec fn is_unassigned(opcode: u8) -> bool {
    opcode == 0xD3 || opcode == 0xDB || opcode == 0xDD || opcode == 0xE3 || opcode == 0xE4
        || opcode == 0xEB || opcode == 0xEC || opcode == 0xED || opcode == 0xF4 || opcode == 0xFC
        || opcode == 0xFD
}

/// Whether the base table has a rule for `opcode`.
pub open spec fn has_rule(opcode: u8) -> bool {
    opcode != EXTENDED_PREFIX && !is_unassigned(opcode)
}

/// The table is exhaustive: whatever bytes follow, an opcode selects an instruction unless it
/// is the prefix of the extended table or one of the eleven opcodes that the instruction set
/// leaves unassigned. An opcode without a rule has no immediate bytes either.
pub proof fn lemma_table_is_exhaustive(opcode: u8, trailing: Seq<u8>)
    ensures
        instruction_of(opcode, trailing) is Some <==> has_rule(opcode),
        !has_rule(opcode) ==> immediate_of(opcode) == Immediate::Nothing,
{
}

/// The instruction depends on the opcode and its immediate bytes alone: two streams that
/// agree on as many bytes after the opcode as [`immediate_of`] counts select the same
/// instruction, whatever follows.
pub proof fn lemma_instruction_depends_on_immediate(opcode: u8, first: Seq<u8>, second: Seq<u8>)
    requires
        forall|i: int| 0 <= i < immediate_of(opcode).length() ==> first[i] == second[i],
    ensures
        instruction_of(opcode, first) == instruction_of(opcode, second),
{
    if immediate_of(opcode).length() >= 1 {
        assert(first[0] == second[0]);
    }
    if immediate_of(opcode).length() >= 2 {
        assert(first[1] == second[1]);
    }
}

/// Computes the address in the topmost page of memory whose low byte is `low`.
pub(crate) fn high_page(low: u8) -> (address: u16)
    ensures
        address == high_page_address(low),
{
    let address: u16 = (0xFF << 8) | (low as u16);
    assert(address == 0xFF00 + low) by (bit_vector)
        requires
            address == (0xFFu16 << 8) | (low as u16),
    ;
    address
}

/// Looks up the single-byte operand that a three-bit field selects.
pub(crate) fn byte_register_at(slot: u8) -> (register: Register)
    requires
        slot < 8,
    ensures
        register == byte_register(slot as int),
{
    match slot {
        0 => Register::B,
        1 => Register::C,
        2 => Register::D,
        3 => Register::E,
        4 => Register::H,
        5 => Register::L,
        6 => Register::HL,
        _ => Register::A,
    }
}

/// Looks up the register pair that a two-bit field selects for loads and 16-bit arithmetic.
pub(crate) fn wide_register_at(pair: u8) -> (register: Register)
    requires
        pair < 4,
    ensures
        register == wide_register(pair as int),
{
    match pair {
        0 => Register::BC,
        1 => Register::DE,
        2 => Register::HL,
        _ => Register::SP,
    }
}

/// Looks up the register pair that a two-bit field selects for push and pop.
pub(crate) fn stack_register_at(pair: u8) -> (register: Register)
    requires
        pair < 4,
    ensures
        register == stack_register(pair as int),
{
    match pair {
        0 => Register::BC,
        1 => Register::DE,
        2 => Register::HL,
        _ => Register::AF,
    }
}

} // verus!
