use test_generator::cpu_common::{
    AddressOffset16, AddressOffset32, AddressingMode, AddressingMode16, AddressingMode32,
    BaseRegister, Displacement, Register16, Register32, ScaledIndex, SibScale,
};
use test_generator::text::{hex_upper, signed_hex, validate_disassembly, DisassemblyError};

#[test]
fn hexadecimal_without_leading_zeros() {
    assert_eq!(hex_upper(0), "0");
    assert_eq!(hex_upper(0xA), "A");
    assert_eq!(hex_upper(0x10), "10");
    assert_eq!(hex_upper(0xBEEF), "BEEF");
    assert_eq!(hex_upper(0xFFFF_FFFF), "FFFFFFFF");
    assert_eq!(hex_upper(0x0100_0000), "1000000");
}

#[test]
fn signed_displacements() {
    assert_eq!(signed_hex(0), "");
    assert_eq!(signed_hex(5), "+5");
    assert_eq!(signed_hex(-9), "-9");
    assert_eq!(signed_hex(10), "+Ah");
    assert_eq!(signed_hex(-0x80), "-80h");
    assert_eq!(signed_hex(i32::MIN), "-80000000h");
}

#[test]
fn register_and_scale_names() {
    assert_eq!(Register16::BP.to_string(), "bp");
    assert_eq!(Register16::PC.to_string(), "ip");
    assert_eq!(Register32::ESI.to_string(), "esi");
    assert_eq!(Register32::InvalidRegister.to_string(), "invalid");
    assert_eq!(SibScale::Four.to_string(), "*4");
    assert_eq!(BaseRegister::NoBase.to_string(), "");
    assert_eq!(ScaledIndex::EdiScaled(SibScale::Two).to_string(), "edi*2");
}

#[test]
fn displacement_text() {
    assert_eq!(Displacement::NoDisp.to_string(), "[None]");
    assert_eq!(Displacement::Pending16.to_string(), "PENDING16");
    assert_eq!(Displacement::Disp8(-1).to_string(), "-1h");
    assert_eq!(Displacement::Disp16(0x1234).to_string(), "+1234h");
    assert_eq!(Displacement::Disp32(0).to_string(), "+0h");
}

#[test]
fn offset_text() {
    assert_eq!(AddressOffset16::BxSi.to_string(), "bx+si");
    assert_eq!(AddressOffset16::BpDisp8(-4).to_string(), "bp-4");
    assert_eq!(AddressOffset16::SiDisp16(0x100).to_string(), "si+100h");
    assert_eq!(AddressOffset16::Disp16(-1).to_string(), "FFFFh");
    assert_eq!(AddressOffset32::Disp32(0x10).to_string(), "10h");
    assert_eq!(AddressOffset32::EaxDisp8(0).to_string(), "eax");
    assert_eq!(
        AddressOffset32::SibDisp8(BaseRegister::Base(Register32::EBX), ScaledIndex::EcxScaled(SibScale::Four), 0x10)
            .to_string(),
        "ebx+ecx*4+10h"
    );
    assert_eq!(
        AddressOffset32::Sib(BaseRegister::NoBase, ScaledIndex::EaxScaled(SibScale::One)).to_string(),
        "eax*1"
    );
    assert_eq!(AddressOffset32::SibPending.to_string(), "**INVALID**");
}

#[test]
fn addressing_mode_text() {
    let m16 = AddressingMode::Sixteen(AddressingMode16::Address { base: Register16::DS, offset: AddressOffset16::BxDisp8(3) });
    assert_eq!(m16.to_string(), "[ds:bx+3]");
    let m32 = AddressingMode::ThirtyTwo(AddressingMode32::Address { base: Register32::SS, offset: AddressOffset32::Ebp });
    assert_eq!(m32.to_string(), "[ss:ebp]");
    assert_eq!(AddressingMode::Sixteen(AddressingMode16::RegisterMode).to_string(), "[Reg]");
}

#[test]
fn disassembly_checks() {
    let m16 = AddressingMode::Sixteen(AddressingMode16::Address { base: Register16::DS, offset: AddressOffset16::BxDisp8(3) });
    assert_eq!(validate_disassembly("mov ax,[ds:bx+3]", 0x8B, &[], Some(m16)), Ok(true));
    assert_eq!(validate_disassembly("(bad)", 0x8B, &[], Some(m16)), Ok(false));
    assert_eq!(validate_disassembly("mov ax,[ds:bx+4]", 0x8B, &[], Some(m16)), Err(DisassemblyError::Mismatch));
    assert_eq!(validate_disassembly("mov ax,[ds:bx+3]", 0x8B, &[], None), Err(DisassemblyError::MissingAddressingMode));
    assert_eq!(validate_disassembly("mov al,[ds:1234h]", 0xA0, &[0xA0], None), Ok(true));
    assert_eq!(validate_disassembly("inc ax", 0x40, &[], None), Ok(true));
    assert_eq!(validate_disassembly("odd ]x[", 0x40, &[], None), Ok(true));
}
