use test_generator::cpu_common::{
    AddressOffset16, AddressOffset32, AddressingMode, AddressingMode16, AddressingMode32,
    BaseRegister, Displacement, Register16, Register32, ScaledIndex, SibScale,
};
use test_generator::disassembly::DecodedInstruction;
use test_generator::enums::{AddressSize, InstructionSize, TerminationCondition};
use test_generator::instruction::{
    apply_extension, assemble_instruction, calculate_addressing_mode, check_opcode, count_prefixes,
    has_modrm, has_sib, insert_prefix, mask_value32, reencoded_modrm_offset, test_seed,
    DisassemblyProvider, InstructionError, OpcodeError, TestInstruction,
};
use test_generator::instruction_name::InstructionName;

fn decoded() -> DecodedInstruction {
    DecodedInstruction {
        len: 3,
        code: 100,
        mnemonic: 414,
        op0_kind: 0,
        op1_kind: 0,
        memory_segment: 0,
        memory_size: 0,
        memory_displ_size: 0,
        memory_displacement32: 0,
        immediate8: 0,
        immediate16: 0,
        immediate32: 0,
        near_branch16: 0,
        near_branch32: 0,
        far_branch32: 0,
    }
}

fn instruction(bytes: Vec<u8>, d: DecodedInstruction) -> TestInstruction {
    let len = bytes.len();
    TestInstruction {
        opcode: 0x8B,
        name: InstructionName::from_iced("mov ax,[bx+si]"),
        mnemonic: String::from("mov"),
        test_seed: 0,
        address_size: AddressSize::Sixteen,
        operand_size: InstructionSize::Sixteen,
        bytes,
        modrm_offset: 1,
        instr_end: 2,
        sequence_end: 2,
        prefix_end: 0,
        addressing_mode: None,
        disassembly_provider: DisassemblyProvider::default(),
        is_valid: true,
        decoded: DecodedInstruction { len, ..d },
    }
}

#[test]
fn prefix_counting() {
    assert_eq!(count_prefixes(&[0x66, 0x2E, 0xF0, 0x90]), 3);
    assert_eq!(count_prefixes(&[0x90, 0x66]), 0);
    assert_eq!(count_prefixes(&[0x67, 0x67]), 2);
    assert_eq!(count_prefixes(&[]), 0);
}

#[test]
fn extension_and_sib() {
    assert_eq!(apply_extension(0b11_000_101, Some(5)), 0b11_101_101);
    assert_eq!(apply_extension(0xFF, Some(0)), 0xC7);
    assert_eq!(apply_extension(0x12, None), 0x12);
    assert!(has_sib(0b00_000_100));
    assert!(!has_sib(0b11_000_100));
    assert!(!has_sib(0b01_000_101));
}

#[test]
fn masking_sign_extends_negative_values() {
    assert_eq!(mask_value32(0x1234_5678, 0x0000_FFFF, true), 0x0000_5678);
    assert_eq!(mask_value32(0x8000_1234, 0x0000_FFFF, true), 0xFFFF_1234);
    assert_eq!(mask_value32(0x8000_1234, 0x0000_FFFF, false), 0x0000_1234);
    // Masking twice changes nothing more.
    for v in [0u32, 0x8000_0000, 0xFFFF_FFFF, 0x7FFF_0001, 0x1234_8765] {
        for (m, s) in [(0x0000_FFFFu32, true), (0x0FFF_FFFF, false), (0xF0F0_F0F0, true)] {
            let once = mask_value32(v, m, s);
            assert_eq!(mask_value32(once, m, s), once);
        }
    }
}

#[test]
fn seeds_place_generation_count_at_bit_24() {
    assert_eq!(test_seed(0, 5, 0), 5);
    assert_eq!(test_seed(0, 5, 2), 5 | (2 << 24));
    assert_eq!(test_seed(0xFFFF_0000_0000_0000, 1, 1), 0xFFFF_0000_0100_0001);
}

#[test]
fn termination_appends_or_writes_halt() {
    let mut i = instruction(vec![0x8B, 0x00], decoded());
    assert_eq!(i.handle_termination(TerminationCondition::Halt, 2), Ok(()));
    assert_eq!(i.bytes(), &[0x8B, 0x00, 0xF4]);
    assert_eq!(i.sequence_end, 3);

    let mut j = instruction(vec![0x8B, 0x00, 0x11, 0x22], decoded());
    assert_eq!(j.handle_termination(TerminationCondition::Halt, 2), Ok(()));
    assert_eq!(j.bytes(), &[0x8B, 0x00, 0xF4, 0x22]);
    assert_eq!(j.sequence_end, 3);

    let mut k = instruction(vec![0x8B, 0x00], decoded());
    assert_eq!(k.handle_termination(TerminationCondition::Halt, 3), Err(InstructionError::InvalidLength));
    assert_eq!(k.bytes(), &[0x8B, 0x00]);

    let mut q = instruction(vec![0x8B, 0x00], decoded());
    assert_eq!(q.handle_termination(TerminationCondition::Queue, 2), Ok(()));
    assert_eq!(q.bytes(), &[0x8B, 0x00]);
    assert_eq!(q.sequence_end, 2);
}

#[test]
fn byte_ranges() {
    let mut i = instruction(vec![0x2E, 0x8B, 0x00, 0x90], decoded());
    i.prefix_end = 1;
    i.instr_end = 3;
    i.sequence_end = 4;
    assert_eq!(i.prefix_bytes(), &[0x2E]);
    assert_eq!(i.instr_bytes(), &[0x2E, 0x8B, 0x00]);
    assert_eq!(i.sequence_bytes(), &[0x2E, 0x8B, 0x00, 0x90]);
    assert_eq!(i.name(), "mov ax,[bx+si]");
    assert_eq!(i.mnemonic(), "mov");
    assert_eq!(i.opcode(), 0x8B);
    assert_eq!(i.address_size(), AddressSize::Sixteen);
    assert_eq!(i.operand_size(), InstructionSize::Sixteen);
}

#[test]
fn operand_classification() {
    let mut d = decoded();
    d.op1_kind = 11; // Immediate8to16
    assert_eq!(instruction(vec![0], d).immediate_size(), Some(1));
    d.op1_kind = 8;
    assert_eq!(instruction(vec![0], d).immediate_size(), Some(2));
    d.op1_kind = 9;
    assert_eq!(instruction(vec![0], d).immediate_size(), Some(4));
    d.op1_kind = 0;
    assert_eq!(instruction(vec![0], d).immediate_size(), None);
    d.memory_displ_size = 2;
    assert_eq!(instruction(vec![0], d).displacement_size(), Some(2));

    let mut d = decoded();
    d.op0_kind = 24; // Memory
    d.memory_size = 19; // WordOffset
    let i = instruction(vec![0], d);
    assert!(i.is_near_indirect());
    assert!(!i.is_far_indirect());
    d.memory_size = 17; // SegPtr32
    assert!(instruction(vec![0], d).is_far_indirect());

    let mut d = decoded();
    d.code = 394; // Retnw
    let i = instruction(vec![0], d);
    assert!(i.is_near_return() && i.is_return() && !i.is_far_return() && !i.is_iret());
    d.code = 415; // Retfd_imm16
    assert!(instruction(vec![0], d).is_far_return());
    d.code = 423; // Iretw
    assert!(instruction(vec![0], d).is_iret());

    let mut d = decoded();
    d.op0_kind = 1;
    d.near_branch16 = 0x1235;
    assert_eq!(instruction(vec![0], d).branch_is_odd(), Some(true));
    d.op0_kind = 2;
    d.near_branch32 = 0x1234;
    assert_eq!(instruction(vec![0], d).branch_is_odd(), Some(false));
    d.op0_kind = 0;
    assert_eq!(instruction(vec![0], d).branch_is_odd(), None);
}

#[test]
fn modrm_forms() {
    let mut i = instruction(vec![0], decoded());
    assert!(!i.has_modrm() && !i.has_sib() && !i.has_modrm_address_mode() && !i.has_modrm_register_mode());
    i.addressing_mode = Some(AddressingMode::ThirtyTwo(AddressingMode32::Address {
        base: Register32::DS,
        offset: AddressOffset32::Sib(BaseRegister::Base(Register32::EAX), ScaledIndex::NoIndex),
    }));
    assert!(i.has_modrm() && i.has_sib() && i.has_modrm_address_mode());
    i.addressing_mode = Some(AddressingMode::Sixteen(AddressingMode16::RegisterMode));
    assert!(i.has_modrm_register_mode() && !i.has_modrm_address_mode());
}

#[test]
fn addressing_mode_of_16_bit_modrm() {
    // mov ax,[bx+si+12h] : 8B 40 12, DS (iced value 74) is the segment.
    let bytes = [0x8B, 0x40, 0x12];
    let mode = calculate_addressing_mode(true, &bytes, 74, Some(Displacement::Disp8(0x12)), AddressSize::Sixteen, 1);
    assert_eq!(
        mode,
        Some(AddressingMode::Sixteen(AddressingMode16::Address {
            base: Register16::DS,
            offset: AddressOffset16::BxSiDisp8(0x12),
        }))
    );
    // A register form has no addressing mode in 16-bit addressing.
    assert_eq!(calculate_addressing_mode(true, &[0x8B, 0xC0], 74, None, AddressSize::Sixteen, 1), None);
    assert_eq!(calculate_addressing_mode(false, &bytes, 74, None, AddressSize::Sixteen, 1), None);
}

#[test]
fn addressing_mode_of_32_bit_modrm_and_sib() {
    // mov eax,[ebx+ecx*4+10h] : 8B 44 8B 10, SS (73) segment for illustration.
    let bytes = [0x8B, 0x44, 0x8B, 0x10];
    let mode = calculate_addressing_mode(true, &bytes, 73, Some(Displacement::Disp8(0x10)), AddressSize::ThirtyTwo, 1);
    assert_eq!(
        mode,
        Some(AddressingMode::ThirtyTwo(AddressingMode32::Address {
            base: Register32::SS,
            offset: AddressOffset32::SibDisp8(
                BaseRegister::Base(Register32::EBX),
                ScaledIndex::EcxScaled(SibScale::Four),
                0x10
            ),
        }))
    );
    // mov eax,[esi] : 8B 06
    let mode = calculate_addressing_mode(true, &[0x8B, 0x06], 74, None, AddressSize::ThirtyTwo, 1);
    assert_eq!(
        mode,
        Some(AddressingMode::ThirtyTwo(AddressingMode32::Address { base: Register32::DS, offset: AddressOffset32::Esi }))
    );
}

#[test]
fn modrm_from_disassembly_text() {
    assert!(has_modrm("mov ax,[bx]", 0x8B, &[0xA0]));
    assert!(!has_modrm("mov al,[1234h]", 0xA0, &[0xA0]));
    assert!(!has_modrm("inc ax", 0x40, &[]));
}

#[test]
fn prefixes_keep_the_modrm_in_place() {
    let (mut bytes, mut modrm_offset) = assemble_instruction(&[0x26, 0x2E], &[0x66, 0x67], &[0x0F, 0xAF], 0x45, &[0x11, 0x22]);
    assert_eq!(bytes, vec![0x2E, 0x26, 0x67, 0x66, 0x0F, 0xAF, 0x45, 0x11, 0x22]);
    assert_eq!(modrm_offset, 6);
    assert_eq!(bytes[modrm_offset], 0x45);
    let mut prefix_ct = 2;
    insert_prefix(&mut bytes, 0xF0, 1, &mut prefix_ct, &mut modrm_offset);
    assert_eq!(bytes, vec![0x2E, 0xF0, 0x26, 0x67, 0x66, 0x0F, 0xAF, 0x45, 0x11, 0x22]);
    assert_eq!(prefix_ct, 3);
    assert_eq!(bytes[modrm_offset], 0x45);
    let mut none_ct = 0;
    let mut off = 0;
    let mut b = vec![0x8B, 0x00];
    insert_prefix(&mut b, 0xF3, 0, &mut none_ct, &mut off);
    assert_eq!(b, vec![0xF3, 0x8B, 0x00]);
    assert_eq!((none_ct, off), (1, 1));
}

#[test]
fn reencoding_moves_modrm_back_by_dropped_prefixes() {
    assert_eq!(reencoded_modrm_offset(4, 3, 1), 2);
    assert_eq!(reencoded_modrm_offset(4, 1, 3), 4);
    assert_eq!(reencoded_modrm_offset(1, 5, 0), 0);
}

#[test]
fn excluded_and_prefix_opcodes_are_refused() {
    assert_eq!(check_opcode(0x0F, &[0x0F], &[]), Err(OpcodeError::Excluded));
    assert_eq!(check_opcode(0x26, &[], &[0x26, 0x2E]), Err(OpcodeError::Prefix));
    assert_eq!(check_opcode(0x01, &[0x0F], &[0x26]), Ok(()));
}
