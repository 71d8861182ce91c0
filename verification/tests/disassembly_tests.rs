use test_generator::cpu_common::Displacement;
use test_generator::disassembly::{DecodedInstruction, IcedDisassembly};
use test_generator::enums::SegmentSize;
use test_generator::iced_codes::{OPKIND_MEMORY, OPKIND_REGISTER};
use test_generator::registers::{Registers, RemoteCpuRegistersV1};

fn regs(ip: u16) -> Registers {
    Registers::V1(RemoteCpuRegistersV1 {
        ax: 0,
        bx: 0,
        cx: 0,
        dx: 0,
        ss: 0,
        cs: 0,
        ds: 0,
        es: 0,
        sp: 0,
        bp: 0,
        si: 0,
        di: 0,
        ip,
        flags: 2,
    })
}

#[test]
fn disassemble_reads_an_eight_bit_displacement() {
    // mov ax, [bp+0x10]
    let bytes = [0x8B, 0x46, 0x10, 0x90];
    let d = IcedDisassembly::disassemble(SegmentSize::Sixteen, &bytes, &regs(0x100), 0).unwrap();
    assert!(d.is_valid());
    assert_eq!(d.len(), 3);
    assert_eq!(d.disp(), Some(Displacement::Disp8(0x10)));
    assert_eq!(d.disp_offset, 2);
    assert_eq!(d.decoded.op0_kind, OPKIND_REGISTER);
    assert_eq!(d.decoded.op1_kind, OPKIND_MEMORY);
    assert_eq!(d.decoded.memory_displacement32, 0x10);
}

#[test]
fn disassemble_reads_a_thirty_two_bit_displacement() {
    // mov eax, [ebx+0x12345678]
    let bytes = [0x8B, 0x83, 0x78, 0x56, 0x34, 0x12];
    let d = IcedDisassembly::disassemble(SegmentSize::ThirtyTwo, &bytes, &regs(0), 0).unwrap();
    assert_eq!(d.len(), 6);
    assert_eq!(d.disp(), Some(Displacement::Disp32(0x1234_5678)));
    assert_eq!(d.disp_offset, 2);
}

#[test]
fn disassemble_without_displacement() {
    // nop
    let d = IcedDisassembly::disassemble(SegmentSize::Sixteen, &[0x90], &regs(0), 0).unwrap();
    assert!(d.is_valid());
    assert_eq!(d.len(), 1);
    assert_eq!(d.disp(), None);
    assert_eq!(d.disp_offset, 0);
}

#[test]
fn from_decoded_refuses_a_displacement_past_the_bytes() {
    let decoded = DecodedInstruction {
        len: 3,
        code: 1,
        mnemonic: 1,
        op0_kind: 0,
        op1_kind: 0,
        memory_segment: 0,
        memory_size: 0,
        memory_displ_size: 2,
        memory_displacement32: 0,
        immediate8: 0,
        immediate16: 0,
        immediate32: 0,
        near_branch16: 0,
        near_branch32: 0,
        far_branch32: 0,
    };
    assert!(IcedDisassembly::from_decoded(decoded, 2, 2, &[0x8B, 0x86, 0x34]).is_none());
    let ok = IcedDisassembly::from_decoded(decoded, 2, 2, &[0x8B, 0x86, 0x34, 0x12]).unwrap();
    assert_eq!(ok.disp(), Some(Displacement::Disp16(0x1234)));
}
