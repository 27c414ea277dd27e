//! The instruction set as data, and the decoder that reads one instruction from a cursor.

use vstd::prelude::*;

use crate::cpu::cursor::{ByteCursor, CursorState};
use crate::cpu::error::DecodeError;
use crate::cpu::opcode::{
    accumulator_quarter, byte_register_at, has_rule, high_page, immediate_of, instruction_of,
    is_unassigned, lemma_table_is_exhaustive, load_quarter, stack_register_at, wide_register_at,
    EXTENDED_PREFIX,
};
use crate::cpu::{Flag, Register};

verus! {

/// An adjustment by one that a load applies to a pointer register as a side effect.
#[derive(Debug, Clone, Copy, PartialEq, Eq)]
pub enum MathOperation {
    Increment,
    Decrement,
}

/// One instruction of the base table, with every operand it needs and nothing else.
///
/// A register operand that is flagged "as memory address" stands for the memory cell that the
/// register points to, not for the register's own value.
#[allow(inconsistent_fields)]
#[derive(Debug, Clone, Copy, PartialEq, Eq)]
pub enum Instruction {
    NoOperation,
    Stop,
    Halt,
    Reset {
        /// The number of the restart target, `0` to `7`.
        location: u8,
    },
    LoadOneByteOfDataIntoRegister {
        data: u8,
        register: Register,
        treat_value_in_register_as_memory_address: bool,
    },
    LoadTwoBytesOfDataIntoRegister {
        data: u16,
        register: Register,
    },
    LoadValueOfFirstRegisterIntoSecondRegister {
        register1: Register,
        register2: Register,
        treat_value_in_first_register_as_memory_address: bool,
        treat_value_in_second_register_as_memory_address: bool,
        operation_on_first_register: Option<MathOperation>,
        operation_on_second_register: Option<MathOperation>,
    },
    IncrementValueInRegister {
        register: Register,
        treat_value_in_register_as_memory_address: bool,
    },
    DecrementValueInRegister {
        register: Register,
        treat_value_in_register_as_memory_address: bool,
    },
    AbsoluteJump {
        address: u16,
    },
    AbsoluteJumpIfFlagIsZero {
        flag: Flag,
        address: u16,
    },
    AbsoluteJumpIfFlagIsOne {
        flag: Flag,
        address: u16,
    },
    AbsoluteJumpToAddressInRegister {
        register: Register,
    },
    RelativeJump {
        /// The offset byte as it stands in the stream.
        steps: u8,
    },
    RelativeJumpIfFlagIsZero {
        flag: Flag,
        steps: u8,
    },
    RelativeJumpIfFlagIsOne {
        flag: Flag,
        steps: u8,
    },
    Return,
    ReturnIfFlagIsZero {
        flag: Flag,
    },
    ReturnIfFlagIsOne {
        flag: Flag,
    },
    ReturnAfterInterrupt,
    Call {
        address: u16,
    },
    CallIfFlagIsZero {
        flag: Flag,
        address: u16,
    },
    CallIfFlagIsOne {
        flag: Flag,
        address: u16,
    },
    RotateContentOfRegisterToLeft {
        register: Register,
    },
    RotateContentOfRegisterToLeftThroughCarryFlag {
        register: Register,
    },
    RotateContentOfRegisterToRight {
        register: Register,
    },
    RotateContentOfRegisterToRightThroughCarryFlag {
        register: Register,
    },
    Not {
        register: Register,
    },
    SetCarryFlag,
    NotCarryFlag,
    AdjustAccumulatorToBCDNumber,
    AddValueOfSecondRegisterToFirstRegister {
        register1: Register,
        register2: Register,
        treat_value_in_second_register_as_memory_address: bool,
    },
    AddValueOfSecondRegisterAndCarryFlagToFirstRegister {
        register1: Register,
        register2: Register,
        treat_value_in_second_register_as_memory_address: bool,
    },
    AddOneByteToAccumulator {
        value: u8,
    },
    AddOneByteAndCarryFlagToAccumulator {
        value: u8,
    },
    SubtractValueOfSecondRegisterFromFirstRegister {
        register1: Register,
        register2: Register,
        treat_value_in_second_register_as_memory_address: bool,
    },
    SubtractValueOfSecondRegisterAndCarryFlagFromFirstRegister {
        register1: Register,
        register2: Register,
        treat_value_in_second_register_as_memory_address: bool,
    },
    SubtractOneByteFromAccumulator {
        value: u8,
    },
    SubtractOneByteAndCarryFlagFromAccumulator {
        value: u8,
    },
    LogicalAndOnAccumulatorAndRegister {
        register: Register,
        treat_value_in_register_as_memory_address: bool,
    },
    LogicalAndOnAccumulatorAndOneByte {
        value: u8,
    },
    LogicalOrOnAccumulatorAndRegister {
        register: Register,
        treat_value_in_register_as_memory_address: bool,
    },
    LogicalOrOnAccumulatorAndOneByte {
        value: u8,
    },
    LogicalXorOnAccumulatorAndRegister {
        register: Register,
        treat_value_in_register_as_memory_address: bool,
    },
    LogicalXorOnAccumulatorAndOneByte {
        value: u8,
    },
    CompareAccumulatorAndRegister {
        register: Register,
        treat_value_in_register_as_memory_address: bool,
    },
    CompareAccumulatorAndOneByte {
        value: u8,
    },
    PushValueOfRegisterOntoStack {
        register: Register,
    },
    PopValueFromStackIntoRegister {
        register: Register,
    },
    ResetInterruptMasterEnableFlag,
    SetInterruptMasterEnableFlag,
    StoreAccumulatorInMemory {
        address: u16,
    },
    LoadAccumulatorFromMemory {
        address: u16,
    },
    StoreAccumulatorInMemorySpecifiedByRegisterC,
    LoadAccumulatorFromMemorySpecifiedByRegisterC,
    StoreStackPointerInMemory {
        address: u16,
    },
    StoreContentOfRegisterHLInStackPointer,
    AddValueToStackPointer {
        /// The offset byte as it stands in the stream.
        value: u8,
    },
    AddValueToStackPointerAndStoreResultInRegisterHL {
        /// The offset byte as it stands in the stream.
        value: u8,
    },
}

/// The outcome of decoding one instruction: the instruction or the failure, and the state in
/// which the cursor is left.
pub struct Decoded {
    pub result: Result<Instruction, DecodeError>,
    pub rest: CursorState,
}

/// What decoding yields on a cursor in state `stream`.
///
/// The byte at the read position is the opcode; without it the stream is truncated and
/// nothing is consumed. With it, the outcome is that of [`decoding_after_opcode`].
pub open spec fn decoding(stream: CursorState) -> Decoded {
    if stream.remaining() == 0 {
        Decoded { result: Err(DecodeError::TruncatedStream), rest: stream }
    } else {
        decoding_after_opcode(stream.unread()[0], stream.advance(1))
    }
}

/// What decoding yields once `opcode` has been consumed and the cursor is in state `rest`.
///
/// The prefix of the extended table and an opcode without a rule fail at once. Any other
/// opcode consumes its immediate bytes and yields its instruction; if the stream ends before
/// the last of them, decoding fails and every byte up to the end counts as consumed.
pub open spec fn decoding_after_opcode(opcode: u8, rest: CursorState) -> Decoded {
    if opcode == EXTENDED_PREFIX {
        Decoded { result: Err(DecodeError::UnsupportedExtendedOpcode), rest }
    } else {
        match instruction_of(opcode, rest.unread()) {
            None => Decoded { result: Err(DecodeError::UnknownOpcode { opcode }), rest },
            Some(instruction) => {
                let needed = immediate_of(opcode).length();
                if rest.remaining() < needed {
                    Decoded {
                        result: Err(DecodeError::TruncatedStream),
                        rest: rest.advance(rest.remaining()),
                    }
                } else {
                    Decoded { result: Ok(instruction), rest: rest.advance(needed) }
                }
            },
        }
    }
}

/// Whether a whole instruction lies at the read position: an opcode with a rule, followed by
/// all of its immediate bytes.
pub open spec fn holds_instruction(stream: CursorState) -> bool {
    stream.remaining() >= 1 && has_rule(stream.unread()[0]) && stream.remaining() >= 1
        + immediate_of(stream.unread()[0]).length()
}

/// Decoding succeeds exactly when a whole instruction lies at the read position. It then
/// yields the instruction that the table assigns to the opcode and the bytes after it, and
/// consumes the opcode and its immediate bytes, no more.
pub proof fn lemma_decoding_succeeds(stream: CursorState)
    ensures
        decoding(stream).result is Ok <==> holds_instruction(stream),
        decoding(stream).result is Ok ==> Some(decoding(stream).result->Ok_0) == instruction_of(
            stream.unread()[0],
            stream.advance(1).unread(),
        ) && decoding(stream).rest == stream.advance(
            1 + immediate_of(stream.unread()[0]).length(),
        ),
{
    if stream.remaining() >= 1 {
        lemma_table_is_exhaustive(stream.unread()[0], stream.advance(1).unread());
    }
}

/// With three bytes or more ahead, no instruction is cut short: decoding succeeds unless
/// the opcode is the prefix of the extended table or one that the instruction set leaves
/// unassigned, and only the latter is reported as unknown.
pub proof fn lemma_decoding_with_three_bytes_ahead(stream: CursorState)
    requires
        stream.remaining() >= 3,
    ensures
        decoding(stream).result is Ok <==> stream.unread()[0] != EXTENDED_PREFIX && !is_unassigned(
            stream.unread()[0],
        ),
        decoding(stream).result == Err::<Instruction, DecodeError>(
            DecodeError::UnknownOpcode { opcode: stream.unread()[0] },
        ) <==> is_unassigned(stream.unread()[0]),
{
    lemma_table_is_exhaustive(stream.unread()[0], stream.advance(1).unread());
}

/// Each failure has its own cause, and each leaves the cursor behind the bytes that were
/// read before the failure showed.
///
/// The stream is truncated when it ends before the opcode or, for an opcode with a rule,
/// before the last immediate byte; every byte up to the end is then consumed. The extended
/// prefix and an opcode without a rule fail whatever follows them, with only the opcode
/// consumed.
pub proof fn lemma_decoding_fails(stream: CursorState)
    ensures
        decoding(stream).result == Err::<Instruction, DecodeError>(DecodeError::TruncatedStream)
            <==> stream.remaining() == 0 || (has_rule(stream.unread()[0])
            && !holds_instruction(stream)),
        decoding(stream).result == Err::<Instruction, DecodeError>(
            DecodeError::UnsupportedExtendedOpcode,
        ) <==> stream.remaining() >= 1 && stream.unread()[0] == EXTENDED_PREFIX,
        forall|opcode: u8|
            decoding(stream).result == Err::<Instruction, DecodeError>(
                DecodeError::UnknownOpcode { opcode },
            ) <==> stream.remaining() >= 1 && stream.unread()[0] == opcode && is_unassigned(opcode),
        decoding(stream).result == Err::<Instruction, DecodeError>(DecodeError::TruncatedStream)
            ==> decoding(stream).rest == stream.advance(stream.remaining()),
        decoding(stream).result is Err && decoding(stream).result != Err::<
            Instruction,
            DecodeError,
        >(DecodeError::TruncatedStream) ==> decoding(stream).rest == stream.advance(1),
{
    if stream.remaining() >= 1 {
        lemma_table_is_exhaustive(stream.unread()[0], stream.advance(1).unread());
    }
}

/// Decoding never changes the bytes, never moves backward, never reads past the end, and
/// consumes at most three bytes.
pub proof fn lemma_decoding_advances(stream: CursorState)
    ensures
        decoding(stream).rest.bytes == stream.bytes,
        stream.position <= decoding(stream).rest.position <= stream.position + 3,
        decoding(stream).rest.position - stream.position <= stream.remaining(),
{
}

/// The outcome depends on the unread bytes alone: two cursors with the same bytes ahead of
/// them decode to the same result and consume equally many bytes, whatever lies behind their
/// positions. In particular, decoding the same bytes from a fresh cursor gives the same
/// outcome every time.
pub proof fn lemma_decoding_depends_on_unread_bytes(first: CursorState, second: CursorState)
    requires
        first.unread() == second.unread(),
    ensures
        decoding(first).result == decoding(second).result,
        decoding(first).rest.position - first.position == decoding(second).rest.position
            - second.position,
        decoding(first).rest.unread() == decoding(second).rest.unread(),
{
    assert(first.remaining() == first.unread().len());
    assert(second.remaining() == second.unread().len());
    lemma_unread_after_advance(first, first.remaining());
    lemma_unread_after_advance(second, second.remaining());
    if first.remaining() >= 1 {
        let needed = immediate_of(first.unread()[0]).length();
        lemma_unread_after_advance(first, 1);
        lemma_unread_after_advance(second, 1);
        if first.remaining() >= 1 + needed {
            lemma_unread_after_advance(first, 1 + needed);
            lemma_unread_after_advance(second, 1 + needed);
        }
    }
}

/// Consuming `count` of the remaining bytes drops them from the front of the unread bytes.
pub proof fn lemma_unread_after_advance(stream: CursorState, count: nat)
    requires
        count <= stream.remaining(),
    ensures
        stream.advance(count).unread() == stream.unread().skip(count as int),
        stream.advance(count).remaining() == stream.remaining() - count,
{
    assert(stream.advance(count).unread() =~= stream.unread().skip(count as int));
}

impl Instruction {
    /// Decodes the instruction at the cursor's position and moves the cursor past it.
    ///
    /// The result and the cursor's final state are exactly those of [`decoding`]. The call
    /// succeeds if and only if the opcode has a rule in the base table and all of its
    /// immediate bytes are present; each failure leaves the cursor behind the last byte that
    /// was read.
    pub fn decode(memory: &mut ByteCursor) -> (result: Result<Instruction, DecodeError>)
        ensures
            result == decoding(old(memory)@).result,
            final(memory)@ == decoding(old(memory)@).rest,
            result is Ok <==> holds_instruction(old(memory)@),
    {
        proof {
            lemma_decoding_succeeds(memory@);
        }
        let opcode: u8 = memory.read_u8()?;
        match opcode {
            0x00..=0x3F => decode_first_quarter(opcode, memory),
            0x40..=0x7F => Ok(decode_load_quarter(opcode)),
            0x80..=0xBF => Ok(decode_accumulator_quarter(opcode)),
            0xC0..=0xFF => decode_last_quarter(opcode, memory),
        }
    }
}

/// Decodes the opcodes `0x00` to `0x3F`, whose upper digit selects the register among the
/// opcodes that share a lower digit.
#[verifier::spinoff_prover]
fn decode_first_quarter(opcode: u8, memory: &mut ByteCursor) -> (result: Result<
    Instruction,
    DecodeError,
>)
    requires
        opcode <= 0x3F,
    ensures
        result == decoding_after_opcode(opcode, old(memory)@).result,
        final(memory)@ == decoding_after_opcode(opcode, old(memory)@).rest,
{
    let row: u8 = opcode >> 4;
    let target: u8 = (opcode >> 3) & 0x07;
    proof {
        assert(row == opcode / 16 && target == opcode / 8 % 8) by (bit_vector)
            requires
                row == opcode >> 4,
                target == (opcode >> 3) & 0x07,
        ;
    }

    match opcode {
        0x00 => Ok(Instruction::NoOperation),

        0x10 => {
            let _padding: u8 = memory.read_u8()?;
            Ok(Instruction::Stop)
        },

        0x07 => Ok(Instruction::RotateContentOfRegisterToLeft { register: Register::A }),

        0x17 => Ok(
            Instruction::RotateContentOfRegisterToLeftThroughCarryFlag { register: Register::A },
        ),

        0x0F => Ok(Instruction::RotateContentOfRegisterToRight { register: Register::A }),

        0x1F => Ok(
            Instruction::RotateContentOfRegisterToRightThroughCarryFlag {
                register: Register::A,
            },
        ),

        0x27 => Ok(Instruction::AdjustAccumulatorToBCDNumber),

        0x02 | 0x12 => Ok(
            Instruction::LoadValueOfFirstRegisterIntoSecondRegister {
                register1: Register::A,
                register2: if row == 0x0 {
                    Register::BC
                } else {
                    Register::DE
                },
                treat_value_in_first_register_as_memory_address: false,
                treat_value_in_second_register_as_memory_address: true,
                operation_on_first_register: None,
                operation_on_second_register: None,
            },
        ),

        0x22 | 0x32 => Ok(
            Instruction::LoadValueOfFirstRegisterIntoSecondRegister {
                register1: Register::A,
                register2: Register::HL,
                treat_value_in_first_register_as_memory_address: false,
                treat_value_in_second_register_as_memory_address: true,
                operation_on_first_register: None,
                operation_on_second_register: if row == 0x2 {
                    Some(MathOperation::Increment)
                } else {
                    Some(MathOperation::Decrement)
                },
            },
        ),

        0x18 => {
            let steps: u8 = memory.read_u8()?;
            Ok(Instruction::RelativeJump { steps })
        },

        0x20 => {
            let steps: u8 = memory.read_u8()?;
            Ok(Instruction::RelativeJumpIfFlagIsZero { flag: Flag::Z, steps })
        },

        0x30 => {
            let steps: u8 = memory.read_u8()?;
            Ok(Instruction::RelativeJumpIfFlagIsZero { flag: Flag::CY, steps })
        },

        0x28 => {
            let steps: u8 = memory.read_u8()?;
            Ok(Instruction::RelativeJumpIfFlagIsOne { flag: Flag::Z, steps })
        },

        0x38 => {
            let steps: u8 = memory.read_u8()?;
            Ok(Instruction::RelativeJumpIfFlagIsOne { flag: Flag::CY, steps })
        },

        0x2F => Ok(Instruction::Not { register: Register::A }),

        0x37 => Ok(Instruction::SetCarryFlag),

        0x3F => Ok(Instruction::NotCarryFlag),

        0x03 | 0x13 | 0x23 | 0x33 => Ok(
            Instruction::IncrementValueInRegister {
                register: wide_register_at(row),
                treat_value_in_register_as_memory_address: false,
            },
        ),

        0x04 | 0x14 | 0x24 | 0x34 | 0x0C | 0x1C | 0x2C | 0x3C => Ok(
            Instruction::IncrementValueInRegister {
                register: byte_register_at(target),
                treat_value_in_register_as_memory_address: opcode == 0x34,
            },
        ),

        0x05 | 0x15 | 0x25 | 0x35 | 0x0D | 0x1D | 0x2D | 0x3D => Ok(
            Instruction::DecrementValueInRegister {
                register: byte_register_at(target),
                treat_value_in_register_as_memory_address: opcode == 0x35,
            },
        ),

        0x0B | 0x1B | 0x2B | 0x3B => Ok(
            Instruction::DecrementValueInRegister {
                register: wide_register_at(row),
                treat_value_in_register_as_memory_address: false,
            },
        ),

        0x06 | 0x16 | 0x26 | 0x36 | 0x0E | 0x1E | 0x2E | 0x3E => {
            let data: u8 = memory.read_u8()?;
            Ok(
                Instruction::LoadOneByteOfDataIntoRegister {
                    data,
                    register: byte_register_at(target),
                    treat_value_in_register_as_memory_address: opcode == 0x36,
                },
            )
        },

        0x01 | 0x11 | 0x21 | 0x31 => {
            let data: u16 = memory.read_u16_big_endian()?;
            let register = wide_register_at(row);
            Ok(Instruction::LoadTwoBytesOfDataIntoRegister { data, register })
        },

        0x0A | 0x1A | 0x2A | 0x3A => Ok(
            Instruction::LoadValueOfFirstRegisterIntoSecondRegister {
                register1: match row {
                    0x0 => Register::BC,
                    0x1 => Register::DE,
                    _ => Register::HL,
                },
                register2: Register::A,
                treat_value_in_first_register_as_memory_address: true,
                treat_value_in_second_register_as_memory_address: false,
                operation_on_first_register: match row {
                    0x2 => Some(MathOperation::Increment),
                    0x3 => Some(MathOperation::Decrement),
                    _ => None,
                },
                operation_on_second_register: None,
            },
        ),

        0x09 | 0x19 | 0x29 | 0x39 => Ok(
            Instruction::AddValueOfSecondRegisterToFirstRegister {
                register1: Register::HL,
                register2: wide_register_at(row),
                treat_value_in_second_register_as_memory_address: false,
            },
        ),

        0x08 => {
            let address: u16 = memory.read_u16_big_endian()?;
            Ok(Instruction::StoreStackPointerInMemory { address })
        },

        // Every opcode of this quarter has an arm above.
        _ => Err(DecodeError::UnknownOpcode { opcode }),
    }
}

/// Decodes the opcodes `0x40` to `0x7F`, which load the operand that the lower three bits
/// select into the operand that the next three bits select.
fn decode_load_quarter(opcode: u8) -> (instruction: Instruction)
    requires
        0x40 <= opcode <= 0x7F,
    ensures
        instruction == load_quarter(opcode),
{
    let slot: u8 = opcode & 0x07;
    let target: u8 = (opcode >> 3) & 0x07;
    proof {
        assert(slot == opcode % 8 && target == opcode / 8 % 8) by (bit_vector)
            requires
                slot == opcode & 0x07,
                target == (opcode >> 3) & 0x07,
        ;
    }

    match opcode {
        0x76 => Instruction::Halt,
        _ => Instruction::LoadValueOfFirstRegisterIntoSecondRegister {
            register1: byte_register_at(slot),
            register2: byte_register_at(target),
            treat_value_in_first_register_as_memory_address: slot == 0x6,
            treat_value_in_second_register_as_memory_address: target == 0x6,
            operation_on_first_register: None,
            operation_on_second_register: None,
        },
    }
}

/// Decodes the opcodes `0x80` to `0xBF`, which combine A with the operand that the lower
/// three bits select.
fn decode_accumulator_quarter(opcode: u8) -> (instruction: Instruction)
    requires
        0x80 <= opcode <= 0xBF,
    ensures
        instruction == accumulator_quarter(opcode),
{
    let slot: u8 = opcode & 0x07;
    proof {
        assert(slot == opcode % 8) by (bit_vector)
            requires
                slot == opcode & 0x07,
        ;
    }
    let register = byte_register_at(slot);
    let indirect = slot == 0x6;

    match opcode {
        0x80..=0x87 => Instruction::AddValueOfSecondRegisterToFirstRegister {
            register1: Register::A,
            register2: register,
            treat_value_in_second_register_as_memory_address: indirect,
        },

        0x88..=0x8F => Instruction::AddValueOfSecondRegisterAndCarryFlagToFirstRegister {
            register1: Register::A,
            register2: register,
            treat_value_in_second_register_as_memory_address: indirect,
        },

        0x90..=0x97 => Instruction::SubtractValueOfSecondRegisterFromFirstRegister {
            register1: Register::A,
            register2: register,
            treat_value_in_second_register_as_memory_address: indirect,
        },

        0x98..=0x9F => Instruction::SubtractValueOfSecondRegisterAndCarryFlagFromFirstRegister {
            register1: Register::A,
            register2: register,
            treat_value_in_second_register_as_memory_address: indirect,
        },

        0xA0..=0xA7 => Instruction::LogicalAndOnAccumulatorAndRegister {
            register,
            treat_value_in_register_as_memory_address: indirect,
        },

        0xA8..=0xAF => Instruction::LogicalXorOnAccumulatorAndRegister {
            register,
            treat_value_in_register_as_memory_address: indirect,
        },

        0xB0..=0xB7 => Instruction::LogicalOrOnAccumulatorAndRegister {
            register,
            treat_value_in_register_as_memory_address: indirect,
        },

        _ => Instruction::CompareAccumulatorAndRegister {
            register,
            treat_value_in_register_as_memory_address: indirect,
        },
    }
}

/// Decodes the opcodes `0xC0` to `0xFF`.
#[verifier::spinoff_prover]
fn decode_last_quarter(opcode: u8, memory: &mut ByteCursor) -> (result: Result<
    Instruction,
    DecodeError,
>)
    requires
        0xC0 <= opcode,
    ensures
        result == decoding_after_opcode(opcode, old(memory)@).result,
        final(memory)@ == decoding_after_opcode(opcode, old(memory)@).rest,
{
    let row: u8 = opcode >> 4;
    proof {
        assert(row == opcode / 16) by (bit_vector)
            requires
                row == opcode >> 4,
        ;
    }

    match opcode {
        0xC7 | 0xD7 | 0xE7 | 0xF7 => Ok(Instruction::Reset { location: (row - 0xC) * 2 }),

        0xCF | 0xDF | 0xEF | 0xFF => Ok(Instruction::Reset { location: (row - 0xC) * 2 + 1 }),

        0xF3 => Ok(Instruction::ResetInterruptMasterEnableFlag),

        0xFB => Ok(Instruction::SetInterruptMasterEnableFlag),

        0xC3 => {
            let address: u16 = memory.read_u16_big_endian()?;
            Ok(Instruction::AbsoluteJump { address })
        },

        0xC2 => {
            let address: u16 = memory.read_u16_big_endian()?;
            Ok(Instruction::AbsoluteJumpIfFlagIsZero { flag: Flag::Z, address })
        },

        0xD2 => {
            let address: u16 = memory.read_u16_big_endian()?;
            Ok(Instruction::AbsoluteJumpIfFlagIsZero { flag: Flag::CY, address })
        },

        0xCA => {
            let address: u16 = memory.read_u16_big_endian()?;
            Ok(Instruction::AbsoluteJumpIfFlagIsOne { flag: Flag::Z, address })
        },

        0xDA => {
            let address: u16 = memory.read_u16_big_endian()?;
            Ok(Instruction::AbsoluteJumpIfFlagIsOne { flag: Flag::CY, address })
        },

        0xE9 => Ok(Instruction::AbsoluteJumpToAddressInRegister { register: Register::HL }),

        0xC9 => Ok(Instruction::Return),

        0xC0 => Ok(Instruction::ReturnIfFlagIsZero { flag: Flag::Z }),

        0xD0 => Ok(Instruction::ReturnIfFlagIsZero { flag: Flag::CY }),

        0xD9 => Ok(Instruction::ReturnAfterInterrupt),

        0xC8 => Ok(Instruction::ReturnIfFlagIsOne { flag: Flag::Z }),

        0xD8 => Ok(Instruction::ReturnIfFlagIsOne { flag: Flag::CY }),

        0xCD => {
            let address: u16 = memory.read_u16_big_endian()?;
            Ok(Instruction::Call { address })
        },

        0xC4 => {
            let address: u16 = memory.read_u16_big_endian()?;
            Ok(Instruction::CallIfFlagIsZero { flag: Flag::Z, address })
        },

        0xD4 => {
            let address: u16 = memory.read_u16_big_endian()?;
            Ok(Instruction::CallIfFlagIsZero { flag: Flag::CY, address })
        },

        0xCC => {
            let address: u16 = memory.read_u16_big_endian()?;
            Ok(Instruction::CallIfFlagIsOne { flag: Flag::Z, address })
        },

        0xDC => {
            let address: u16 = memory.read_u16_big_endian()?;
            Ok(Instruction::CallIfFlagIsOne { flag: Flag::CY, address })
        },

        0xC6 => {
            let value: u8 = memory.read_u8()?;
            Ok(Instruction::AddOneByteToAccumulator { value })
        },

        0xCE => {
            let value: u8 = memory.read_u8()?;
            Ok(Instruction::AddOneByteAndCarryFlagToAccumulator { value })
        },

        0xD6 => {
            let value: u8 = memory.read_u8()?;
            Ok(Instruction::SubtractOneByteFromAccumulator { value })
        },

        0xDE => {
            let value: u8 = memory.read_u8()?;
            Ok(Instruction::SubtractOneByteAndCarryFlagFromAccumulator { value })
        },

        0xE6 => {
            let value: u8 = memory.read_u8()?;
            Ok(Instruction::LogicalAndOnAccumulatorAndOneByte { value })
        },

        0xEE => {
            let value: u8 = memory.read_u8()?;
            Ok(Instruction::LogicalXorOnAccumulatorAndOneByte { value })
        },

        0xF6 => {
            let value: u8 = memory.read_u8()?;
            Ok(Instruction::LogicalOrOnAccumulatorAndOneByte { value })
        },

        0xFE => {
            let value: u8 = memory.read_u8()?;
            Ok(Instruction::CompareAccumulatorAndOneByte { value })
        },

        0xC1 | 0xD1 | 0xE1 | 0xF1 => Ok(
            Instruction::PopValueFromStackIntoRegister { register: stack_register_at(row - 0xC) },
        ),

        0xC5 | 0xD5 | 0xE5 | 0xF5 => Ok(
            Instruction::PushValueOfRegisterOntoStack { register: stack_register_at(row - 0xC) },
        ),

        0xE0 => {
            let low: u8 = memory.read_u8()?;
            Ok(Instruction::StoreAccumulatorInMemory { address: high_page(low) })
        },

        0xEA => {
            let address: u16 = memory.read_u16_big_endian()?;
            Ok(Instruction::StoreAccumulatorInMemory { address })
        },

        0xF0 => {
            let low: u8 = memory.read_u8()?;
            Ok(Instruction::LoadAccumulatorFromMemory { address: high_page(low) })
        },

        0xFA => {
            let address: u16 = memory.read_u16_big_endian()?;
            Ok(Instruction::LoadAccumulatorFromMemory { address })
        },

        0xE2 => Ok(Instruction::StoreAccumulatorInMemorySpecifiedByRegisterC),

        0xF2 => Ok(Instruction::LoadAccumulatorFromMemorySpecifiedByRegisterC),

        0xF9 => Ok(Instruction::StoreContentOfRegisterHLInStackPointer),

        0xE8 => {
            let value: u8 = memory.read_u8()?;
            Ok(Instruction::AddValueToStackPointer { value })
        },

        0xF8 => {
            let value: u8 = memory.read_u8()?;
            Ok(Instruction::AddValueToStackPointerAndStoreResultInRegisterHL { value })
        },

        0xCB => Err(DecodeError::UnsupportedExtendedOpcode),
        _ => Err(DecodeError::UnknownOpcode { opcode }),
    }
}

} // verus!
