//! Numeric codes of the iced-x86 `Mnemonic`, `OpKind`, `Code`, `MemorySize`
//! and `Register` values that the generator's rules refer to (iced-x86 gives
//! these enums explicit discriminants).

use crate::cpu_common::{Register16, Register32};
use vstd::prelude::*;

verus! {

pub const MNEMONIC_MOVSB: u16 = 443;
pub const MNEMONIC_MOVSW: u16 = 449;
pub const MNEMONIC_MOVSD: u16 = 444;
pub const MNEMONIC_CMPSB: u16 = 96;
pub const MNEMONIC_CMPSW: u16 = 100;
pub const MNEMONIC_CMPSD: u16 = 97;
pub const MNEMONIC_SCASB: u16 = 682;
pub const MNEMONIC_SCASW: u16 = 685;
pub const MNEMONIC_SCASD: u16 = 683;
pub const MNEMONIC_LODSB: u16 = 386;
pub const MNEMONIC_LODSW: u16 = 389;
pub const MNEMONIC_LODSD: u16 = 387;
pub const MNEMONIC_STOSB: u16 = 735;
pub const MNEMONIC_STOSW: u16 = 738;
pub const MNEMONIC_STOSD: u16 = 736;
pub const MNEMONIC_INSB: u16 = 282;
pub const MNEMONIC_INSW: u16 = 286;
pub const MNEMONIC_INSD: u16 = 283;
pub const MNEMONIC_OUTSB: u16 = 471;
pub const MNEMONIC_OUTSW: u16 = 473;
pub const MNEMONIC_OUTSD: u16 = 472;
pub const MNEMONIC_ENTER: u16 = 155;
pub const MNEMONIC_PUSHA: u16 = 641;
pub const MNEMONIC_PUSHAD: u16 = 1612;
pub const MNEMONIC_POPA: u16 = 591;
pub const MNEMONIC_POPAD: u16 = 1613;
pub const MNEMONIC_IN: u16 = 278;
pub const MNEMONIC_OUT: u16 = 470;
pub const MNEMONIC_MOV: u16 = 414;
pub const MNEMONIC_SETO: u16 = 699;
pub const MNEMONIC_SETNO: u16 = 696;
pub const MNEMONIC_SETB: u16 = 688;
pub const MNEMONIC_SETAE: u16 = 687;
pub const MNEMONIC_SETE: u16 = 690;
pub const MNEMONIC_SETNE: u16 = 695;
pub const MNEMONIC_SETBE: u16 = 689;
pub const MNEMONIC_SETA: u16 = 686;
pub const MNEMONIC_SETS: u16 = 701;
pub const MNEMONIC_SETNS: u16 = 698;
pub const MNEMONIC_SETP: u16 = 700;
pub const MNEMONIC_SETNP: u16 = 697;
pub const MNEMONIC_SETL: u16 = 693;
pub const MNEMONIC_SETGE: u16 = 692;
pub const MNEMONIC_SETLE: u16 = 694;
pub const MNEMONIC_SETG: u16 = 691;
pub const MNEMONIC_JMP: u16 = 308;
pub const MNEMONIC_TEST: u16 = 751;
pub const MNEMONIC_CMP: u16 = 93;
pub const MNEMONIC_XLATB: u16 = 1517;
pub const MNEMONIC_MUL: u16 = 456;
pub const MNEMONIC_IMUL: u16 = 277;
pub const MNEMONIC_DIV: u16 = 138;
pub const MNEMONIC_IDIV: u16 = 276;
pub const MNEMONIC_BT: u16 = 54;
pub const MNEMONIC_BTS: u16 = 57;
pub const MNEMONIC_BTR: u16 = 56;
pub const MNEMONIC_BTC: u16 = 55;
pub const MNEMONIC_RCL: u16 = 644;
pub const MNEMONIC_RCR: u16 = 647;
pub const MNEMONIC_SHL: u16 = 712;
pub const MNEMONIC_SHR: u16 = 715;
pub const MNEMONIC_SAL: u16 = 676;
pub const MNEMONIC_SAR: u16 = 678;
pub const MNEMONIC_ROL: u16 = 664;
pub const MNEMONIC_ROR: u16 = 665;
pub const MNEMONIC_CALL: u16 = 59;
pub const MNEMONIC_LEA: u16 = 374;
pub const MNEMONIC_XCHG: u16 = 1509;
pub const MNEMONIC_POP: u16 = 590;
pub const MNEMONIC_PUSH: u16 = 640;

pub const OPKIND_REGISTER: u8 = 0;
pub const OPKIND_NEAR_BRANCH16: u8 = 1;
pub const OPKIND_NEAR_BRANCH32: u8 = 2;
pub const OPKIND_IMMEDIATE8: u8 = 6;
pub const OPKIND_FAR_BRANCH32: u8 = 5;
pub const OPKIND_IMMEDIATE16: u8 = 8;
pub const OPKIND_IMMEDIATE32: u8 = 9;
pub const OPKIND_IMMEDIATE64: u8 = 10;
pub const OPKIND_IMMEDIATE8TO16: u8 = 11;
pub const OPKIND_IMMEDIATE8TO32: u8 = 12;
pub const OPKIND_IMMEDIATE8TO64: u8 = 13;
pub const OPKIND_IMMEDIATE32TO64: u8 = 14;
pub const OPKIND_MEMORY: u8 = 24;

pub const CODE_INVALID: u16 = 0;
/// `Register::None`.
pub const REGISTER_NONE: u8 = 0;
pub const CODE_RETNW_IMM16: u16 = 391;
pub const CODE_RETND_IMM16: u16 = 392;
pub const CODE_RETNW: u16 = 394;
pub const CODE_RETND: u16 = 395;
pub const CODE_RETFW_IMM16: u16 = 414;
pub const CODE_RETFD_IMM16: u16 = 415;
pub const CODE_RETFW: u16 = 417;
pub const CODE_RETFD: u16 = 418;
pub const CODE_IRETW: u16 = 423;
pub const CODE_IRETD: u16 = 424;

/// iced-x86 `OpCodeTableKind::T0F`: the two-byte (0F xx) opcode table.
pub const OPCODE_TABLE_T0F: u8 = 1;
/// iced-x86 `OpCodeOperandKind` values of a register encoded in the low
/// three bits of the opcode (8-, 16- and 32-bit).
pub const OPCODE_OPERAND_R8_OPCODE: u8 = 26;
pub const OPCODE_OPERAND_R16_OPCODE: u8 = 30;
pub const OPCODE_OPERAND_R32_OPCODE: u8 = 34;

pub const MEMORY_SIZE_SEG_PTR16: u8 = 16;
pub const MEMORY_SIZE_SEG_PTR32: u8 = 17;
pub const MEMORY_SIZE_WORD_OFFSET: u8 = 19;
pub const MEMORY_SIZE_DWORD_OFFSET: u8 = 20;

pub const REGISTER_AX: u8 = 21;
pub const REGISTER_CX: u8 = 22;
pub const REGISTER_DX: u8 = 23;
pub const REGISTER_BX: u8 = 24;
pub const REGISTER_SP: u8 = 25;
pub const REGISTER_BP: u8 = 26;
pub const REGISTER_SI: u8 = 27;
pub const REGISTER_DI: u8 = 28;
pub const REGISTER_EAX: u8 = 37;
pub const REGISTER_ECX: u8 = 38;
pub const REGISTER_EDX: u8 = 39;
pub const REGISTER_EBX: u8 = 40;
pub const REGISTER_ESP: u8 = 41;
pub const REGISTER_EBP: u8 = 42;
pub const REGISTER_ESI: u8 = 43;
pub const REGISTER_EDI: u8 = 44;
pub const REGISTER_ES: u8 = 71;
pub const REGISTER_CS: u8 = 72;
pub const REGISTER_SS: u8 = 73;
pub const REGISTER_DS: u8 = 74;
pub const REGISTER_FS: u8 = 75;
pub const REGISTER_GS: u8 = 76;

/// The 16-bit register named by an iced-x86 register value; any other
/// register is invalid here.
pub open spec fn spec_register16_of(code: u8) -> Register16 {
    if code == REGISTER_AX { Register16::AX }
    else if code == REGISTER_CX { Register16::CX }
    else if code == REGISTER_DX { Register16::DX }
    else if code == REGISTER_BX { Register16::BX }
    else if code == REGISTER_SP { Register16::SP }
    else if code == REGISTER_BP { Register16::BP }
    else if code == REGISTER_SI { Register16::SI }
    else if code == REGISTER_DI { Register16::DI }
    else if code == REGISTER_ES { Register16::ES }
    else if code == REGISTER_CS { Register16::CS }
    else if code == REGISTER_SS { Register16::SS }
    else if code == REGISTER_DS { Register16::DS }
    else if code == REGISTER_FS { Register16::FS }
    else if code == REGISTER_GS { Register16::GS }
    else { Register16::InvalidRegister }
}

/// The 32-bit register named by an iced-x86 register value; any other
/// register is invalid here.
pub open spec fn spec_register32_of(code: u8) -> Register32 {
    if code == REGISTER_EAX { Register32::EAX }
    else if code == REGISTER_ECX { Register32::ECX }
    else if code == REGISTER_EDX { Register32::EDX }
    else if code == REGISTER_EBX { Register32::EBX }
    else if code == REGISTER_ESP { Register32::ESP }
    else if code == REGISTER_EBP { Register32::EBP }
    else if code == REGISTER_ESI { Register32::ESI }
    else if code == REGISTER_EDI { Register32::EDI }
    else if code == REGISTER_ES { Register32::ES }
    else if code == REGISTER_CS { Register32::CS }
    else if code == REGISTER_SS { Register32::SS }
    else if code == REGISTER_DS { Register32::DS }
    else if code == REGISTER_FS { Register32::FS }
    else if code == REGISTER_GS { Register32::GS }
    else { Register32::InvalidRegister }
}

/// The 16-bit register named by an iced-x86 register value.
pub fn register16_of(code: u8) -> (r: Register16)
    ensures
        r == spec_register16_of(code),
{
    match code {
        REGISTER_AX => Register16::AX,
        REGISTER_CX => Register16::CX,
        REGISTER_DX => Register16::DX,
        REGISTER_BX => Register16::BX,
        REGISTER_SP => Register16::SP,
        REGISTER_BP => Register16::BP,
        REGISTER_SI => Register16::SI,
        REGISTER_DI => Register16::DI,
        REGISTER_ES => Register16::ES,
        REGISTER_CS => Register16::CS,
        REGISTER_SS => Register16::SS,
        REGISTER_DS => Register16::DS,
        REGISTER_FS => Register16::FS,
        REGISTER_GS => Register16::GS,
        _ => Register16::InvalidRegister,
    }
}

/// The 32-bit register named by an iced-x86 register value.
pub fn register32_of(code: u8) -> (r: Register32)
    ensures
        r == spec_register32_of(code),
{
    match code {
        REGISTER_EAX => Register32::EAX,
        REGISTER_ECX => Register32::ECX,
        REGISTER_EDX => Register32::EDX,
        REGISTER_EBX => Register32::EBX,
        REGISTER_ESP => Register32::ESP,
        REGISTER_EBP => Register32::EBP,
        REGISTER_ESI => Register32::ESI,
        REGISTER_EDI => Register32::EDI,
        REGISTER_ES => Register32::ES,
        REGISTER_CS => Register32::CS,
        REGISTER_SS => Register32::SS,
        REGISTER_DS => Register32::DS,
        REGISTER_FS => Register32::FS,
        REGISTER_GS => Register32::GS,
        _ => Register32::InvalidRegister,
    }
}

/// String instructions (MOVS, CMPS, SCAS, LODS, STOS).
pub open spec fn is_string_mnemonic(m: u16) -> bool {
    m == MNEMONIC_MOVSB || m == MNEMONIC_MOVSW || m == MNEMONIC_MOVSD || m == MNEMONIC_CMPSB
        || m == MNEMONIC_CMPSW || m == MNEMONIC_CMPSD || m == MNEMONIC_SCASB || m
        == MNEMONIC_SCASW || m == MNEMONIC_SCASD || m == MNEMONIC_LODSB || m == MNEMONIC_LODSW
        || m == MNEMONIC_LODSD || m == MNEMONIC_STOSB || m == MNEMONIC_STOSW || m
        == MNEMONIC_STOSD
}

/// I/O string instructions (INS, OUTS).
pub open spec fn is_io_string_mnemonic(m: u16) -> bool {
    m == MNEMONIC_INSB || m == MNEMONIC_INSW || m == MNEMONIC_INSD || m == MNEMONIC_OUTSB || m
        == MNEMONIC_OUTSW || m == MNEMONIC_OUTSD
}

/// I/O instructions that read a port (IN, INS).
pub open spec fn is_io_read_mnemonic(m: u16) -> bool {
    m == MNEMONIC_IN || m == MNEMONIC_INSB || m == MNEMONIC_INSD || m == MNEMONIC_INSW
}

/// I/O instructions that write a port (OUT, OUTS).
pub open spec fn is_io_write_mnemonic(m: u16) -> bool {
    m == MNEMONIC_OUT || m == MNEMONIC_OUTSB || m == MNEMONIC_OUTSW || m == MNEMONIC_OUTSD
}

/// MOV and the SETcc instructions, which overwrite a memory operand without reading it.
pub open spec fn is_overwrite_mnemonic(m: u16) -> bool {
    m == MNEMONIC_MOV || m == MNEMONIC_SETO || m == MNEMONIC_SETNO || m == MNEMONIC_SETB || m
        == MNEMONIC_SETAE || m == MNEMONIC_SETE || m == MNEMONIC_SETNE || m == MNEMONIC_SETBE
        || m == MNEMONIC_SETA || m == MNEMONIC_SETS || m == MNEMONIC_SETNS || m == MNEMONIC_SETP
        || m == MNEMONIC_SETNP || m == MNEMONIC_SETL || m == MNEMONIC_SETGE || m
        == MNEMONIC_SETLE || m == MNEMONIC_SETG
}

/// Instructions with a memory first operand that they do not write.
pub open spec fn is_read_only_mnemonic(m: u16) -> bool {
    m == MNEMONIC_JMP || m == MNEMONIC_TEST || m == MNEMONIC_CMP || m == MNEMONIC_XLATB || m
        == MNEMONIC_MUL || m == MNEMONIC_IMUL || m == MNEMONIC_DIV || m == MNEMONIC_IDIV || m
        == MNEMONIC_BT || m == MNEMONIC_BTS || m == MNEMONIC_BTR || m == MNEMONIC_BTC
}

/// Shifts and rotates.
pub open spec fn is_shift_mnemonic(m: u16) -> bool {
    m == MNEMONIC_RCL || m == MNEMONIC_RCR || m == MNEMONIC_SHL || m == MNEMONIC_SHR || m
        == MNEMONIC_SAL || m == MNEMONIC_SAR || m == MNEMONIC_ROL || m == MNEMONIC_ROR
}

/// Whether a mnemonic is a string instruction.
pub fn string_mnemonic(m: u16) -> (r: bool)
    ensures
        r == is_string_mnemonic(m),
{
    m == MNEMONIC_MOVSB || m == MNEMONIC_MOVSW || m == MNEMONIC_MOVSD || m == MNEMONIC_CMPSB
        || m == MNEMONIC_CMPSW || m == MNEMONIC_CMPSD || m == MNEMONIC_SCASB || m
        == MNEMONIC_SCASW || m == MNEMONIC_SCASD || m == MNEMONIC_LODSB || m == MNEMONIC_LODSW
        || m == MNEMONIC_LODSD || m == MNEMONIC_STOSB || m == MNEMONIC_STOSW || m
        == MNEMONIC_STOSD
}

/// Whether a mnemonic is an I/O string instruction.
pub fn io_string_mnemonic(m: u16) -> (r: bool)
    ensures
        r == is_io_string_mnemonic(m),
{
    m == MNEMONIC_INSB || m == MNEMONIC_INSW || m == MNEMONIC_INSD || m == MNEMONIC_OUTSB || m
        == MNEMONIC_OUTSW || m == MNEMONIC_OUTSD
}

/// Whether a mnemonic reads an I/O port.
pub fn io_read_mnemonic(m: u16) -> (r: bool)
    ensures
        r == is_io_read_mnemonic(m),
{
    m == MNEMONIC_IN || m == MNEMONIC_INSB || m == MNEMONIC_INSD || m == MNEMONIC_INSW
}

/// Whether a mnemonic writes an I/O port.
pub fn io_write_mnemonic(m: u16) -> (r: bool)
    ensures
        r == is_io_write_mnemonic(m),
{
    m == MNEMONIC_OUT || m == MNEMONIC_OUTSB || m == MNEMONIC_OUTSW || m == MNEMONIC_OUTSD
}

/// Whether a mnemonic overwrites its memory operand without reading it.
pub fn overwrite_mnemonic(m: u16) -> (r: bool)
    ensures
        r == is_overwrite_mnemonic(m),
{
    m == MNEMONIC_MOV || m == MNEMONIC_SETO || m == MNEMONIC_SETNO || m == MNEMONIC_SETB || m
        == MNEMONIC_SETAE || m == MNEMONIC_SETE || m == MNEMONIC_SETNE || m == MNEMONIC_SETBE
        || m == MNEMONIC_SETA || m == MNEMONIC_SETS || m == MNEMONIC_SETNS || m == MNEMONIC_SETP
        || m == MNEMONIC_SETNP || m == MNEMONIC_SETL || m == MNEMONIC_SETGE || m
        == MNEMONIC_SETLE || m == MNEMONIC_SETG
}

/// Whether a mnemonic leaves its memory first operand unwritten.
pub fn read_only_mnemonic(m: u16) -> (r: bool)
    ensures
        r == is_read_only_mnemonic(m),
{
    m == MNEMONIC_JMP || m == MNEMONIC_TEST || m == MNEMONIC_CMP || m == MNEMONIC_XLATB || m
        == MNEMONIC_MUL || m == MNEMONIC_IMUL || m == MNEMONIC_DIV || m == MNEMONIC_IDIV || m
        == MNEMONIC_BT || m == MNEMONIC_BTS || m == MNEMONIC_BTR || m == MNEMONIC_BTC
}

/// Whether a mnemonic is a shift or rotate.
pub fn shift_mnemonic(m: u16) -> (r: bool)
    ensures
        r == is_shift_mnemonic(m),
{
    m == MNEMONIC_RCL || m == MNEMONIC_RCR || m == MNEMONIC_SHL || m == MNEMONIC_SHR || m
        == MNEMONIC_SAL || m == MNEMONIC_SAR || m == MNEMONIC_ROL || m == MNEMONIC_ROR
}

} // verus!
