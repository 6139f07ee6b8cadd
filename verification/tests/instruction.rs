use greet_calc::error::Error;
use greet_calc::instruction::Instruction;

fn instruction_bytes(tag: u8, a: u64, b: u64) -> Vec<u8> {
    let mut bytes = vec![tag];
    bytes.extend_from_slice(&a.to_le_bytes());
    bytes.extend_from_slice(&b.to_le_bytes());
    bytes
}

#[test]
fn tag_zero_decodes_to_add() {
    let r = Instruction::unpack(&instruction_bytes(0, 5, 7));
    assert_eq!(r, Ok(Instruction::Add { a: 5, b: 7 }));
}

#[test]
fn tag_one_decodes_to_sub() {
    let r = Instruction::unpack(&instruction_bytes(1, 10, 3));
    assert_eq!(r, Ok(Instruction::Sub { a: 10, b: 3 }));
}

#[test]
fn every_other_tag_is_rejected() {
    for tag in 2..=255u8 {
        let r = Instruction::unpack(&instruction_bytes(tag, 1, 1));
        assert_eq!(r, Err(Error::InvalidInstruction), "tag {} must be rejected", tag);
    }
}

#[test]
fn empty_input_is_rejected() {
    assert_eq!(Instruction::unpack(&[]), Err(Error::InvalidInstruction));
}

#[test]
fn every_short_input_is_rejected() {
    let full = instruction_bytes(0, u64::MAX, u64::MAX);
    for len in 0..17 {
        let r = Instruction::unpack(&full[..len]);
        assert_eq!(r, Err(Error::InvalidInstruction), "length {} must be rejected", len);
    }
}

#[test]
fn operands_decode_little_endian() {
    let mut bytes = vec![0u8; 17];
    bytes[0] = 0;
    bytes[1] = 0x01; // least significant byte of a
    bytes[16] = 0x80; // most significant byte of b
    let r = Instruction::unpack(&bytes);
    assert_eq!(r, Ok(Instruction::Add { a: 1, b: 0x8000_0000_0000_0000 }));
}

#[test]
fn bytes_past_the_instruction_are_ignored() {
    let mut bytes = instruction_bytes(1, 2, 9);
    bytes.push(0xff);
    bytes.push(0xff);
    assert_eq!(Instruction::unpack(&bytes), Ok(Instruction::Sub { a: 2, b: 9 }));
}

#[test]
fn unpack_amount_reads_first_eight_bytes() {
    let bytes = [1u8, 0, 0, 0, 0, 0, 0, 0, 0xff];
    assert_eq!(Instruction::unpack_amount(&bytes), Ok(1));
    assert_eq!(Instruction::unpack_amount(&bytes[..7]), Err(Error::InvalidInstruction));
}
