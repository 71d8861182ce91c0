use test_generator::config::{get_group_extension_range, get_test_count, CountOverride, GroupExtensionOverride};
use test_generator::cpu_common::{
    register16_lut, register32_lut, register8_lut, sregister16_lut, AddressOffset16, AddressOffset32,
    BaseRegister, Displacement, Register16, Register32, Register8, ScaledIndex, SibScale,
};
use test_generator::enums::{AddressSize, CpuMode, CpuType, ExecMode, InstructionSize, SegmentSize};
use test_generator::generation_stats::{ExceptionSeenEntry, GenerationStats};
use test_generator::instruction_name::InstructionName;
use test_generator::modrm::{ModRmByte16, ModRmByte32, SibByte};
use test_generator::size_prefix::TestOpcodeSizePrefix;

#[test]
fn modrm16_fields_and_offsets() {
    let m = ModRmByte16::read(0b01_011_010); // mod 1, reg 3, rm 2: [bp+si+disp8]
    assert_eq!(m.mod_value(), 1);
    assert_eq!(m.op_extension(), 3);
    assert_eq!(m.op2_reg16(), Register16::BX);
    assert_eq!(m.op2_reg8(), Register8::BL);
    assert!(m.is_addressing_mode());
    assert_eq!(m.address_offset(Displacement::Disp8(-3)), AddressOffset16::BpSiDisp8(-3));
    let d = ModRmByte16::read(0b00_000_110); // [disp16]
    assert_eq!(d.address_offset(Displacement::Disp16(0x1234)), AddressOffset16::Disp16(0x1234));
    let r = ModRmByte16::read(0b11_010_001);
    assert!(!r.is_addressing_mode());
    assert_eq!(r.op1_reg16(), Register16::CX);
    assert_eq!(r.op1_reg8(), Register8::CL);
    assert_eq!(ModRmByte16::read(0b00_011_000).op2_segmentreg16(), Register16::DS);
    assert_eq!(ModRmByte16::default_ref().mod_value(), 0);
}

#[test]
fn modrm32_fields_and_sib() {
    let m = ModRmByte32::read(0b10_000_100);
    assert!(m.has_sib());
    assert_eq!(m.op2_reg32(), Register32::EAX);
    let plain = ModRmByte32::read(0b10_001_011);
    assert!(!plain.has_sib());
    assert_eq!(plain.address_offset(Displacement::Disp32(-8)), AddressOffset32::EbxDisp32(-8));
    assert_eq!(ModRmByte32::read(0b00_000_101).address_offset(Displacement::Disp32(0x40)), AddressOffset32::Disp32(0x40));
    assert_eq!(ModRmByte32::read(0b11_000_111).op1_reg32(), Register32::EDI);
    let sib = SibByte::read(0b10_001_011, 1); // ebx + ecx*4
    assert_eq!(sib.byte(), 0b10_001_011);
    assert!(sib.is_addressing_mode());
    assert_eq!(
        sib.address_offset(Displacement::Disp8(4)),
        AddressOffset32::SibDisp8(BaseRegister::Base(Register32::EBX), ScaledIndex::EcxScaled(SibScale::Four), 4)
    );
    // Base 101 under MOD 00 means no base and a 32-bit displacement.
    let nb = SibByte::read(0b00_100_101, 0);
    assert_eq!(nb.address_offset(Displacement::Disp32(0x10)), AddressOffset32::SibDisp32(BaseRegister::NoBase, ScaledIndex::NoIndex, 0x10));
    assert!(!BaseRegister::NoBase.is_some());
    assert!(ScaledIndex::EaxScaled(SibScale::One).is_some());
}

#[test]
fn register_tables() {
    assert_eq!(register8_lut(4), Register8::AH);
    assert_eq!(register16_lut(7), Register16::DI);
    assert_eq!(sregister16_lut(1), Register16::CS);
    assert_eq!(register32_lut(5), Register32::EBP);
}

#[test]
fn displacement_conversions() {
    assert_eq!(i8::from(Displacement::Disp8(-5)), -5);
    assert_eq!(i16::from(Displacement::Disp16(300)), 300);
    assert_eq!(i32::from(Displacement::Disp32(-70000)), -70000);
    assert_eq!(i16::from(Displacement::NoDisp), 0);
}

#[test]
fn size_prefix_sets() {
    type P = TestOpcodeSizePrefix;
    assert_eq!(TestOpcodeSizePrefix::iter(CpuType::Intel80386Ex, 0x01, true, true, &[], &[0x01]), vec![P::NoPrefix, P::OperandSize]);
    assert_eq!(TestOpcodeSizePrefix::iter(CpuType::Intel80286, 0x01, true, true, &[], &[]), vec![]);
    assert_eq!(P::OperandAndAddressSize.to_filename_prefix(), "6766");
    assert_eq!(P::NoPrefix.to_filename_prefix(), "");
    assert_eq!(P::OperandSize.relative_opcode_size(SegmentSize::Sixteen), InstructionSize::ThirtyTwo);
    assert_eq!(P::OperandSize.relative_opcode_size(SegmentSize::ThirtyTwo), InstructionSize::Sixteen);
    assert_eq!(P::AddressSize.relative_address_size(SegmentSize::Sixteen), AddressSize::ThirtyTwo);
    assert_eq!(P::OperandSize.relative_address_size(SegmentSize::ThirtyTwo), AddressSize::ThirtyTwo);
    assert_eq!(P::OperandAndAddressSize.to_bytes(), vec![0x66, 0x67]);
    assert_eq!(Vec::<u8>::from(P::AddressSize), vec![0x67]);
}

#[test]
fn configuration_lookups() {
    let counts = [
        CountOverride { count: 100, opcode_range: [0x40, 0x4F] },
        CountOverride { count: 5000, opcode_range: [0x48, 0x48] },
    ];
    assert_eq!(get_test_count(1000, &counts, 0x48), 100);
    assert_eq!(get_test_count(1000, &counts, 0x50), 1000);
    assert_eq!(get_test_count(50, &counts, 0x41), 50);
    let exts = [GroupExtensionOverride { opcode: 0xF6, group_extension_range: [0, 3] }];
    assert_eq!(get_group_extension_range([0, 7], &exts, 0xF6), (0, 3));
    assert_eq!(get_group_extension_range([0, 7], &exts, 0xF7), (0, 7));
}

#[test]
fn names_and_enums() {
    let mut n = InstructionName::from_marty("add al,1");
    assert_eq!(n.resolved(), "add al,1");
    assert_eq!(n.iced(), "");
    n.set_iced("add al,01h");
    assert_eq!(n.iced(), "add al,01h");
    assert_eq!(n.resolved(), "add al,1");
    assert_eq!(InstructionName::from_resolved("nop").resolved(), "nop");
    assert_eq!(ExecMode::Validate.gerund(), "Validating");
    assert_eq!(CpuMode::Unreal.to_path_suffix(), "unreal");
    assert_eq!(u32::from(InstructionSize::ThirtyTwo), 32);
    assert_eq!(AddressSize::default(), AddressSize::Sixteen);
}

#[test]
fn generation_statistics() {
    let mut s = GenerationStats::default();
    s.record_consistent_test("add", true, true, false, true, Some(6));
    s.record_consistent_test("add", false, true, true, false, None);
    s.record_consistent_test("adc", false, false, false, false, Some(6));
    assert_eq!(s.total, 3);
    assert_eq!(s.sib_ct, 1);
    assert_eq!(s.modrm_ct, 1);
    assert_eq!(s.register_mode_ct, 1);
    assert_eq!(s.address_mode_ct, 1);
    assert_eq!(s.sib_exception_ct, 1);
    assert_eq!(s.modrm_no_exception_ct, 1);
    assert_eq!(s.modrm_exception_ct, 0);
    assert_eq!(s.exception_ct(), 2);
    let (m, c) = s.most_frequent_mnemonic().unwrap();
    assert_eq!((m.as_str(), *c), ("add", 2));
    s.add_exception(6, true);
    assert_eq!(s.exception_ct(), 2);
    assert!(s.exceptions.iter().any(|(e, c)| *e == ExceptionSeenEntry { exception_number: 6, sib: true } && *c == 2));
    assert!(GenerationStats::default().most_frequent_mnemonic().is_none());
    // On a tie, the mnemonic counted first loses to the later one.
    let mut t = GenerationStats::default();
    t.add_mnemonic("sub");
    t.add_mnemonic("sbb");
    let (m, c) = t.most_frequent_mnemonic().unwrap();
    assert_eq!((m.as_str(), *c), ("sbb", 1));
}
