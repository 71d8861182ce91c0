use iced_x86::Register;
use test_generator::disassembly::{encode_rewritten, strip_notrack, IcedDisassembly, OperandRewrite};
use test_generator::enums::{SegmentSize, TerminationCondition};
use test_generator::generation_stats::GenerationStats;
use test_generator::instruction::{check_stored_opcode, EncodeEnv, StoredOpcodeError, TestInstruction};
use test_generator::registers::{Registers, RemoteCpuRegistersV1};
use test_generator::size_prefix::TestOpcodeSizePrefix;

fn regs(ip: u16) -> Registers {
    Registers::V1(RemoteCpuRegistersV1 {
        ax: 0,
        bx: 0,
        cx: 0,
        dx: 0,
        ss: 0,
        cs: 0,
        ds: 0,
        es: 0,
        sp: 0,
        bp: 0,
        si: 0,
        di: 0,
        ip,
        flags: 2,
    })
}

fn env(size: SegmentSize, termination: TerminationCondition) -> EncodeEnv {
    EncodeEnv { code_segment_size: size, decoder_options: 0, termination, offset_opcodes: vec![0xA0, 0xA1, 0xA2, 0xA3] }
}

fn loaded(size: SegmentSize, opcode: u16, bytes: &[u8]) -> TestInstruction {
    TestInstruction::load(size, TestOpcodeSizePrefix::NoPrefix, opcode, "", bytes, &regs(0), 0).unwrap()
}

#[test]
fn stored_opcode_must_agree_with_the_bytes() {
    // mov ax,[bp+10h] is opcode 8B, not 89.
    let bytes = [0x8B, 0x46, 0x10];
    assert!(check_stored_opcode(SegmentSize::Sixteen, &bytes, &regs(0), 0, 0x8B).is_ok());
    assert_eq!(
        check_stored_opcode(SegmentSize::Sixteen, &bytes, &regs(0), 0, 0x89).err(),
        Some(StoredOpcodeError::Mismatch { decoded: 0x8B })
    );
    // inc bx (43) is reported as the base opcode 40 with a register in the low bits.
    assert!(check_stored_opcode(SegmentSize::Sixteen, &[0x43], &regs(0), 0, 0x43).is_ok());
    assert!(check_stored_opcode(SegmentSize::Sixteen, &[0x43], &regs(0), 0, 0x40).is_ok());
    assert_eq!(
        check_stored_opcode(SegmentSize::Sixteen, &[0x43], &regs(0), 0, 0x48).err(),
        Some(StoredOpcodeError::Mismatch { decoded: 0x40 })
    );
}

#[test]
fn loading_keeps_the_stored_name_and_bytes() {
    let bytes = [0x8B, 0x46, 0x10, 0x90];
    let i = TestInstruction::load(
        SegmentSize::Sixteen,
        TestOpcodeSizePrefix::NoPrefix,
        0x8B,
        "mov ax,[ss:bp+10h]",
        &bytes,
        &regs(0x100),
        0,
    )
    .unwrap();
    assert_eq!(i.name(), "mov ax,[ss:bp+10h]");
    assert_eq!(i.mnemonic(), "mov");
    assert_eq!(i.bytes(), &bytes);
    assert_eq!(i.instr_end, 3);
    assert_eq!(i.sequence_end, 4);
    assert!(i.is_valid);
    let refused = TestInstruction::load(
        SegmentSize::Sixteen,
        TestOpcodeSizePrefix::NoPrefix,
        0x89,
        "mov ax,[ss:bp+10h]",
        &bytes,
        &regs(0x100),
        0,
    );
    assert_eq!(refused.err(), Some(StoredOpcodeError::Mismatch { decoded: 0x8B }));
}

#[test]
fn nasm_text_shows_the_segment() {
    let (text, mnemonic) = IcedDisassembly::format(SegmentSize::Sixteen, &[0x8B, 0x46, 0x10], &regs(0), 0);
    assert_eq!(text, "mov ax,[ss:bp+10h]");
    assert_eq!(mnemonic, "mov");
}

#[test]
fn notrack_is_dropped_from_names() {
    assert_eq!(strip_notrack("notrack jmp eax"), "jmp eax");
    assert_eq!(strip_notrack("jmp eax"), "jmp eax");
    assert_eq!(strip_notrack(""), "");
}

#[test]
fn rewriting_an_immediate_changes_the_bytes() {
    // mov al,12h
    let nb = encode_rewritten(16, &[0xB0, 0x12], 0, 0, OperandRewrite::Immediate8(0x34)).unwrap();
    assert_eq!(nb, vec![0xB0, 0x34]);
    let mut i = loaded(SegmentSize::Sixteen, 0xB0, &[0xB0, 0x12]);
    i.re_encode(OperandRewrite::Immediate8(0x7F), &env(SegmentSize::Sixteen, TerminationCondition::Halt), &regs(0))
        .unwrap();
    assert_eq!(i.bytes(), &[0xB0, 0x7F, 0xF4]);
    assert_eq!(i.decoded.immediate8, 0x7F);
    assert_eq!(i.instr_end, 2);
    assert_eq!(i.sequence_end, 3);
    assert_eq!(i.name(), "mov al,7Fh");
}

#[test]
fn masking_a_displacement_encodes_it_again() {
    // mov eax,[ebx+80010001h]
    let e = env(SegmentSize::ThirtyTwo, TerminationCondition::Queue);
    let mut i = loaded(SegmentSize::ThirtyTwo, 0x8B, &[0x8B, 0x83, 0x01, 0x00, 0x01, 0x80]);
    i.mask_displacement32(true, 0x0000_FFFF, &e, &regs(0)).unwrap();
    assert_eq!(i.decoded.memory_displacement32, 0xFFFF_0001);
    assert_eq!(i.bytes(), &[0x8B, 0x83, 0x01, 0x00, 0xFF, 0xFF]);
    // Masking again changes nothing.
    let before = i.bytes().to_vec();
    i.mask_displacement32(true, 0x0000_FFFF, &e, &regs(0)).unwrap();
    assert_eq!(i.bytes(), before.as_slice());

    // The encoder keeps the displacement's four bytes.
    let mut i = loaded(SegmentSize::ThirtyTwo, 0x8B, &[0x8B, 0x83, 0x10, 0x00, 0x01, 0x00]);
    i.mask_displacement32(false, 0x0000_FFFF, &e, &regs(0)).unwrap();
    assert_eq!(i.decoded.memory_displacement32, 0x10);
    assert_eq!(i.bytes(), &[0x8B, 0x83, 0x10, 0x00, 0x00, 0x00]);
    assert_eq!(i.instr_end, 6);
}

#[test]
fn masking_an_immediate_and_a_branch() {
    let e = env(SegmentSize::ThirtyTwo, TerminationCondition::Queue);
    // mov eax,123456h
    let mut i = loaded(SegmentSize::ThirtyTwo, 0xB8, &[0xB8, 0x56, 0x34, 0x12, 0x00]);
    i.mask_immediate32(0x0000_FFFF, &e, &regs(0)).unwrap();
    assert_eq!(i.decoded.immediate32, 0x3456);
    assert_eq!(i.bytes(), &[0xB8, 0x56, 0x34, 0x00, 0x00]);

    // jmp 10010h from 0
    let mut i = loaded(SegmentSize::ThirtyTwo, 0xE9, &[0xE9, 0x0B, 0x00, 0x01, 0x00]);
    assert_eq!(i.decoded.near_branch32, 0x0001_0010);
    i.mask_nearbranch32(0x0000_FFFF, &e, &regs(0)).unwrap();
    assert_eq!(i.decoded.near_branch32, 0x10);

    // A target that masks to itself is left alone.
    let mut i = loaded(SegmentSize::ThirtyTwo, 0xE9, &[0xE9, 0x0B, 0x00, 0x00, 0x00]);
    let before = i.bytes().to_vec();
    i.mask_nearbranch32(0x0000_FFFF, &e, &regs(0)).unwrap();
    assert_eq!(i.bytes(), before.as_slice());
}

#[test]
fn most_frequent_mnemonic_counts_each_name_once() {
    let mut s = GenerationStats::default();
    s.add_mnemonic("mov");
    s.add_mnemonic("add");
    s.add_mnemonic("mov");
    assert_eq!(s.most_frequent_mnemonic(), Some((&"mov".to_string(), &2)));
    assert_eq!(s.mnemonic_set.len(), 2);
}

#[test]
fn memory_operands_name_their_segment_and_address_registers() {
    let i = loaded(SegmentSize::Sixteen, 0x8B, &[0x8B, 0x00]);
    assert_eq!(i.segments(SegmentSize::Sixteen, &regs(0), 0), vec![Register::DS as u8]);
    assert_eq!(i.ea_registers(SegmentSize::Sixteen, &regs(0), 0), vec![Register::BX as u8, Register::SI as u8]);

    // mov eax,[ebx+ebx]: a register used as base and index is listed once.
    let i = loaded(SegmentSize::ThirtyTwo, 0x8B, &[0x8B, 0x04, 0x1B]);
    assert_eq!(i.ea_registers(SegmentSize::ThirtyTwo, &regs(0), 0), vec![Register::EBX as u8]);

    // nop has no memory operand.
    let i = loaded(SegmentSize::Sixteen, 0x90, &[0x90]);
    assert!(i.segments(SegmentSize::Sixteen, &regs(0), 0).is_empty());
    assert!(i.ea_registers(SegmentSize::Sixteen, &regs(0), 0).is_empty());
}
