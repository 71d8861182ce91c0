use test_generator::cpu_common::{
    AddressOffset16, AddressOffset32, AddressingMode, AddressingMode16, AddressingMode32,
    BaseRegister, Displacement, Register16, Register32, ScaledIndex, SibScale,
};
use test_generator::disassembly::{DecodedInstruction, IcedDisassembly};
use test_generator::effective_address::{calculate_ea, EffectiveAddress, SegmentRegister};
use test_generator::enums::{CpuMode, SegmentSize};
use test_generator::registers::{Registers, RemoteCpuRegisters32, SegmentDescriptor};

fn desc(base: u32, limit: u32) -> SegmentDescriptor {
    SegmentDescriptor { base, limit, size: SegmentSize::Sixteen }
}

fn regs() -> RemoteCpuRegisters32 {
    RemoteCpuRegisters32 {
        cr0: 0,
        cr3: 0,
        eax: 0x0000_0010,
        ebx: 0x0001_1000,
        ecx: 0x0000_0003,
        edx: 0,
        esi: 0x0002_0200,
        edi: 0x0000_0300,
        ebp: 0x0000_FFF0,
        esp: 0x0000_1000,
        cs: 0xF000,
        ds: 0x1000,
        es: 0x2000,
        fs: 0,
        gs: 0,
        ss: 0x3000,
        eip: 0,
        eflags: 2,
        dr6: 0,
        dr7: 0,
        cs_desc: desc(0xF0000, 0xFFFF),
        ds_desc: desc(0x10000, 0xFFFF),
        es_desc: desc(0x20000, 0xFFFF),
        fs_desc: desc(0, 0xFFFF),
        gs_desc: desc(0, 0xFFFF),
        ss_desc: desc(0x30000, 0xFFFF),
    }
}

#[test]
fn displacement_is_read_little_endian() {
    let bytes = [0x8B, 0x80, 0x34, 0x12, 0x90];
    assert_eq!(IcedDisassembly::get_displacement(2, 2, &bytes), (Some(Displacement::Disp16(0x1234)), 2));
    assert_eq!(IcedDisassembly::get_displacement(2, 1, &bytes), (Some(Displacement::Disp8(0x34)), 2));
    let bytes = [0x8B, 0x80, 0xFE, 0xFF, 0xFF, 0xFF];
    assert_eq!(IcedDisassembly::get_displacement(2, 4, &bytes), (Some(Displacement::Disp32(-2)), 2));
    assert_eq!(IcedDisassembly::get_displacement(2, 0, &bytes), (None, 0));
    assert_eq!(IcedDisassembly::get_displacement(9, 2, &bytes), (None, 0));
}

#[test]
fn disassembly_accessors() {
    let d = DecodedInstruction {
        len: 3,
        code: 0,
        mnemonic: 0,
        op0_kind: 0,
        op1_kind: 0,
        memory_segment: 0,
        memory_size: 0,
        memory_displ_size: 0,
        memory_displacement32: 0,
        immediate8: 0,
        immediate16: 0,
        immediate32: 0,
        near_branch16: 0,
        near_branch32: 0,
        far_branch32: 0,
    };
    let dis = IcedDisassembly { decoded: d, disp: Some(Displacement::Disp8(1)), disp_offset: 2 };
    assert!(!dis.is_valid());
    assert_eq!(dis.len(), 3);
    assert_eq!(dis.disp(), Some(Displacement::Disp8(1)));
    let valid = IcedDisassembly { decoded: DecodedInstruction { code: 5, ..d }, disp: None, disp_offset: 0 };
    assert!(valid.is_valid());
}

#[test]
fn sixteen_bit_offsets_wrap() {
    let r = regs();
    assert_eq!(AddressOffset16::BxSi.calculate(&r), 0x1200);
    assert_eq!(AddressOffset16::BpDisp8(0x20).calculate(&r), 0x0010);
    assert_eq!(AddressOffset16::SiDisp8(-1).calculate(&r), 0x01FF);
    assert_eq!(AddressOffset16::Disp16(-2).calculate(&r), 0xFFFE);
    assert_eq!(AddressOffset16::NoOffset.calculate(&r), 0);
    assert_eq!(AddressOffset16::BxDi.calculate_effective_address(Register16::DS, &r), 0x11300);
}

#[test]
fn thirty_two_bit_offsets() {
    let r = regs();
    assert_eq!(AddressOffset32::Eax.calculate(&r), 0x10);
    assert_eq!(AddressOffset32::EsiDisp8(-0x10).calculate(&r), 0x0002_01F0);
    assert_eq!(AddressOffset32::Disp32(0x1234).calculate(&r), 0x1234);
    assert_eq!(
        AddressOffset32::SibDisp32(BaseRegister::Base(Register32::EBX), ScaledIndex::EcxScaled(SibScale::Eight), 4)
            .calculate(&r),
        0x0001_1000 + 24 + 4
    );
    assert_eq!(
        AddressOffset32::Sib(BaseRegister::NoBase, ScaledIndex::EaxScaled(SibScale::Two)).calculate(&r),
        0x20
    );
}

#[test]
fn effective_address_of_a_memory_operand() {
    let mode = AddressingMode::Sixteen(AddressingMode16::Address { base: Register16::ES, offset: AddressOffset16::Di });
    let ea = calculate_ea(CpuMode::Real, Some(mode), &Registers::V3A(regs())).unwrap();
    assert_eq!(
        ea,
        EffectiveAddress {
            base_segment: SegmentRegister::ES,
            base_segment_selector: 0x2000,
            base_segment_address: 0x20000,
            base_segment_limit: 0xFFFF,
            offset: 0x300,
            linear_address: 0x20300,
            physical_address: 0x20300,
        }
    );
    let mode = AddressingMode::ThirtyTwo(AddressingMode32::Address { base: Register32::SS, offset: AddressOffset32::EbpDisp8(0x10) });
    let ea = calculate_ea(CpuMode::Protected, Some(mode), &Registers::V3A(regs())).unwrap();
    assert_eq!(ea.offset, 0x1_0000);
    assert_eq!(ea.linear_address, 0x4_0000);
    assert_eq!(ea.physical_address, 0);
    assert_eq!(calculate_ea(CpuMode::Real, None, &Registers::V3A(regs())), None);
    let reg_form = AddressingMode::Sixteen(AddressingMode16::RegisterMode);
    assert_eq!(calculate_ea(CpuMode::Real, Some(reg_form), &Registers::V3A(regs())), None);
}
