use std::io::Cursor;

use byteorder::{BigEndian, ReadBytesExt};
use sm83_decoder::cpu::cursor::ByteCursor;

/// Every buffer of up to three bytes drawn from a few telling values.
fn small_buffers() -> Vec<Vec<u8>> {
    let values = [0x00u8, 0x01, 0x7F, 0x80, 0xFF];
    let mut buffers = vec![Vec::new()];
    for first in values {
        buffers.push(vec![first]);
        for second in values {
            buffers.push(vec![first, second]);
            for third in values {
                buffers.push(vec![first, second, third]);
            }
        }
    }
    buffers
}

#[test]
fn read_u8_agrees_with_byteorder_over_a_std_cursor() {
    for buffer in small_buffers() {
        for start in 0..=buffer.len() {
            let mut ours = ByteCursor::starting_at(buffer.clone(), start);
            let mut theirs = Cursor::new(buffer.clone());
            theirs.set_position(start as u64);
            assert_eq!(ours.read_u8().ok(), theirs.read_u8().ok());
            assert_eq!(ours.position() as u64, theirs.position());
        }
    }
}

#[test]
fn read_u16_agrees_with_byteorder_over_a_std_cursor() {
    for buffer in small_buffers() {
        for start in 0..=buffer.len() {
            let mut ours = ByteCursor::starting_at(buffer.clone(), start);
            let mut theirs = Cursor::new(buffer.clone());
            theirs.set_position(start as u64);
            assert_eq!(ours.read_u16_big_endian().ok(), theirs.read_u16::<BigEndian>().ok());
            assert_eq!(ours.position() as u64, theirs.position());
        }
    }
}
