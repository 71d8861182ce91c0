use test_generator::cpu_common::{AddressOffset16, AddressingMode, AddressingMode16, AddressingMode32,
    AddressOffset32, Register16, Register32};
use test_generator::effective_address::{mode_segment, SegmentRegister};
use test_generator::instruction::{decoded_opcode, decoded_opcode_matches};

#[test]
fn decoded_opcodes_carry_the_two_byte_table() {
    assert_eq!(decoded_opcode(0x01, true), 0x0F01);
    assert_eq!(decoded_opcode(0x8B, false), 0x8B);
}

#[test]
fn stored_and_decoded_opcodes_agree() {
    // Same opcode.
    assert!(decoded_opcode_matches(0x8B, 0x8B, false));
    // INC r16 (40+r): the register lives in the low three bits.
    assert!(decoded_opcode_matches(0x40, 0x43, true));
    assert!(!decoded_opcode_matches(0x40, 0x43, false));
    assert!(!decoded_opcode_matches(0x40, 0x48, true));
    // Only a decoded opcode above 0x0FFF is matched against a stored one-byte opcode.
    assert!(!decoded_opcode_matches(0x0F01, 0x0F, false));
    assert!(decoded_opcode_matches(0x1001, 0x10, false));
    assert!(!decoded_opcode_matches(0x1001, 0x0F02, false));
    assert!(!decoded_opcode_matches(0x8B, 0x89, false));
}

#[test]
fn addressing_modes_name_their_segment() {
    let m16 = AddressingMode::Sixteen(AddressingMode16::Address { base: Register16::SS, offset: AddressOffset16::Si });
    assert_eq!(mode_segment(&m16), Some(SegmentRegister::SS));
    let m32 = AddressingMode::ThirtyTwo(AddressingMode32::Address { base: Register32::FS, offset: AddressOffset32::Eax });
    assert_eq!(mode_segment(&m32), Some(SegmentRegister::FS));
    let not_segment =
        AddressingMode::Sixteen(AddressingMode16::Address { base: Register16::AX, offset: AddressOffset16::Si });
    assert_eq!(mode_segment(&not_segment), None);
}
