use sm83_decoder::cpu::cursor::ByteCursor;
use sm83_decoder::cpu::error::DecodeError;
use sm83_decoder::cpu::instruction::{Instruction, MathOperation};
use sm83_decoder::cpu::{Flag, Register};

fn decode_all(bytes: &[u8]) -> (Result<Instruction, DecodeError>, usize) {
    let mut cursor = ByteCursor::new(bytes.to_vec());
    let result = Instruction::decode(&mut cursor);
    (result, cursor.position())
}

#[test]
fn no_operation_consumes_one_byte() {
    assert_eq!(decode_all(&[0x00]), (Ok(Instruction::NoOperation), 1));
    assert_eq!(decode_all(&[0x00, 0x12, 0x34]), (Ok(Instruction::NoOperation), 1));
}

#[test]
fn load_immediate_byte_into_b() {
    assert_eq!(
        decode_all(&[0x06, 0x42]),
        (
            Ok(Instruction::LoadOneByteOfDataIntoRegister {
                data: 0x42,
                register: Register::B,
                treat_value_in_register_as_memory_address: false,
            }),
            2
        )
    );
}

#[test]
fn increment_through_pointer() {
    assert_eq!(
        decode_all(&[0x34]),
        (
            Ok(Instruction::IncrementValueInRegister {
                register: Register::HL,
                treat_value_in_register_as_memory_address: true,
            }),
            1
        )
    );
}

#[test]
fn increment_of_the_pair_is_not_through_the_pointer() {
    assert_eq!(
        decode_all(&[0x23]),
        (
            Ok(Instruction::IncrementValueInRegister {
                register: Register::HL,
                treat_value_in_register_as_memory_address: false,
            }),
            1
        )
    );
}

#[test]
fn halt_is_not_a_load() {
    assert_eq!(decode_all(&[0x76]), (Ok(Instruction::Halt), 1));
}

#[test]
fn store_accumulator_in_high_page() {
    assert_eq!(
        decode_all(&[0xE0, 0x80]),
        (Ok(Instruction::StoreAccumulatorInMemory { address: 0xFF80 }), 2)
    );
    assert_eq!(
        decode_all(&[0xE0, 0x00]),
        (Ok(Instruction::StoreAccumulatorInMemory { address: 0xFF00 }), 2)
    );
    assert_eq!(
        decode_all(&[0xE0, 0xFF]),
        (Ok(Instruction::StoreAccumulatorInMemory { address: 0xFFFF }), 2)
    );
}

#[test]
fn load_accumulator_from_high_page() {
    assert_eq!(
        decode_all(&[0xF0, 0x44]),
        (Ok(Instruction::LoadAccumulatorFromMemory { address: 0xFF44 }), 2)
    );
}

#[test]
fn store_and_load_accumulator_at_absolute_address() {
    assert_eq!(
        decode_all(&[0xEA, 0xC0, 0x01]),
        (Ok(Instruction::StoreAccumulatorInMemory { address: 0xC001 }), 3)
    );
    assert_eq!(
        decode_all(&[0xFA, 0x80, 0x10]),
        (Ok(Instruction::LoadAccumulatorFromMemory { address: 0x8010 }), 3)
    );
}

#[test]
fn call_assembles_address_high_byte_first() {
    assert_eq!(decode_all(&[0xCD, 0x12, 0x34]), (Ok(Instruction::Call { address: 0x1234 }), 3));
}

#[test]
fn extended_prefix_is_refused() {
    assert_eq!(decode_all(&[0xCB]), (Err(DecodeError::UnsupportedExtendedOpcode), 1));
    for following in 0..=255u8 {
        assert_eq!(
            decode_all(&[0xCB, following, 0x00]),
            (Err(DecodeError::UnsupportedExtendedOpcode), 1)
        );
    }
}

#[test]
fn truncated_word_consumes_the_available_byte() {
    assert_eq!(decode_all(&[0xCD, 0x12]), (Err(DecodeError::TruncatedStream), 2));
    assert_eq!(decode_all(&[0xC3, 0x12]), (Err(DecodeError::TruncatedStream), 2));
    assert_eq!(decode_all(&[0x01, 0x12]), (Err(DecodeError::TruncatedStream), 2));
}

#[test]
fn truncated_word_without_any_byte_consumes_only_the_opcode() {
    assert_eq!(decode_all(&[0xCD]), (Err(DecodeError::TruncatedStream), 1));
}

#[test]
fn truncated_byte_consumes_only_the_opcode() {
    assert_eq!(decode_all(&[0x06]), (Err(DecodeError::TruncatedStream), 1));
    assert_eq!(decode_all(&[0xE0]), (Err(DecodeError::TruncatedStream), 1));
    assert_eq!(decode_all(&[0x18]), (Err(DecodeError::TruncatedStream), 1));
}

#[test]
fn empty_stream_is_truncated() {
    assert_eq!(decode_all(&[]), (Err(DecodeError::TruncatedStream), 0));
}

#[test]
fn stop_consumes_its_padding_byte() {
    assert_eq!(decode_all(&[0x10, 0x00]), (Ok(Instruction::Stop), 2));
    assert_eq!(decode_all(&[0x10, 0xAB, 0x00]), (Ok(Instruction::Stop), 2));
    assert_eq!(decode_all(&[0x10]), (Err(DecodeError::TruncatedStream), 1));
}

#[test]
fn unknown_opcode_carries_the_byte() {
    assert_eq!(decode_all(&[0xD3]), (Err(DecodeError::UnknownOpcode { opcode: 0xD3 }), 1));
    assert_eq!(
        decode_all(&[0xFD, 0x01, 0x02]),
        (Err(DecodeError::UnknownOpcode { opcode: 0xFD }), 1)
    );
}

#[test]
fn decode_starts_at_the_cursor_position() {
    let mut cursor = ByteCursor::starting_at(vec![0xFF, 0xFF, 0xCD, 0x12, 0x34, 0x00], 2);
    assert_eq!(Instruction::decode(&mut cursor), Ok(Instruction::Call { address: 0x1234 }));
    assert_eq!(cursor.position(), 5);
    assert_eq!(Instruction::decode(&mut cursor), Ok(Instruction::NoOperation));
    assert_eq!(cursor.position(), 6);
    assert_eq!(Instruction::decode(&mut cursor), Err(DecodeError::TruncatedStream));
    assert_eq!(cursor.position(), 6);
}

#[test]
fn decode_walks_a_program() {
    let program = vec![
        0x31, 0xFF, 0xFE, // load SP
        0xAF, // xor A
        0x21, 0x9F, 0xFF, // load HL
        0x32, // store A at HL, then decrement HL
        0x20, 0xFB, // jump back while the zero flag is 0
        0x76, // halt
    ];
    let mut cursor = ByteCursor::new(program);
    assert_eq!(
        Instruction::decode(&mut cursor),
        Ok(Instruction::LoadTwoBytesOfDataIntoRegister { data: 0xFFFE, register: Register::SP })
    );
    assert_eq!(
        Instruction::decode(&mut cursor),
        Ok(Instruction::LogicalXorOnAccumulatorAndRegister {
            register: Register::A,
            treat_value_in_register_as_memory_address: false,
        })
    );
    assert_eq!(
        Instruction::decode(&mut cursor),
        Ok(Instruction::LoadTwoBytesOfDataIntoRegister { data: 0x9FFF, register: Register::HL })
    );
    assert_eq!(
        Instruction::decode(&mut cursor),
        Ok(Instruction::LoadValueOfFirstRegisterIntoSecondRegister {
            register1: Register::A,
            register2: Register::HL,
            treat_value_in_first_register_as_memory_address: false,
            treat_value_in_second_register_as_memory_address: true,
            operation_on_first_register: None,
            operation_on_second_register: Some(MathOperation::Decrement),
        })
    );
    assert_eq!(
        Instruction::decode(&mut cursor),
        Ok(Instruction::RelativeJumpIfFlagIsZero { flag: Flag::Z, steps: 0xFB })
    );
    assert_eq!(Instruction::decode(&mut cursor), Ok(Instruction::Halt));
    assert_eq!(cursor.position(), 11);
    assert_eq!(Instruction::decode(&mut cursor), Err(DecodeError::TruncatedStream));
    assert_eq!(cursor.position(), 11);
}

#[test]
fn decoding_the_same_bytes_again_gives_the_same_outcome() {
    for opcode in 0..=255u8 {
        let bytes = [opcode, 0x12, 0x34];
        assert_eq!(decode_all(&bytes), decode_all(&bytes));
    }
}

#[test]
fn outcome_does_not_depend_on_consumed_bytes() {
    for opcode in 0..=255u8 {
        let fresh = decode_all(&[opcode, 0xA5, 0x5A, 0x00]);
        let behind = vec![0xCB, 0x10, 0xFF, opcode, 0xA5, 0x5A, 0x00];
        let mut cursor = ByteCursor::starting_at(behind, 3);
        let result = Instruction::decode(&mut cursor);
        assert_eq!(result, fresh.0);
        assert_eq!(cursor.position() - 3, fresh.1);
    }
}

#[test]
fn outcome_does_not_depend_on_earlier_calls() {
    let mut cursor = ByteCursor::new(vec![0xD3, 0xCB, 0xCD, 0x12, 0x34, 0xCD, 0x12, 0x34]);
    assert_eq!(Instruction::decode(&mut cursor), Err(DecodeError::UnknownOpcode { opcode: 0xD3 }));
    assert_eq!(Instruction::decode(&mut cursor), Err(DecodeError::UnsupportedExtendedOpcode));
    assert_eq!(Instruction::decode(&mut cursor), Ok(Instruction::Call { address: 0x1234 }));
    assert_eq!(Instruction::decode(&mut cursor), Ok(Instruction::Call { address: 0x1234 }));
    assert_eq!(cursor.position(), 8);
}
