//! Operand, addressing-mode, register and bus-operation types shared by the
//! decoder and the bus analysis.

use vstd::prelude::*;
use vstd::std_specs::convert::FromSpecImpl;
use vstd::std_specs::convert::TryFromSpecImpl;

verus! {

/// An instruction displacement: either still to be read (`Pending*`) or read.
#[derive(Copy, Clone, Debug, PartialEq, Eq, Structural)]
pub enum Displacement {
    NoDisp,
    Pending8,
    Pending16,
    Pending32,
    Disp8(i8),
    Disp16(i16),
    Disp32(i32),
}

impl From<Displacement> for i8 {
    /// The 8-bit displacement value, or 0 if the displacement is not 8-bit.
    fn from(value: Displacement) -> (r: i8) {
        match value {
            Displacement::Disp8(v) => v,
            _ => 0,
        }
    }
}

impl FromSpecImpl<Displacement> for i8 {
    open spec fn obeys_from_spec() -> bool {
        true
    }

    open spec fn from_spec(value: Displacement) -> i8 {
        match value {
            Displacement::Disp8(v) => v,
            _ => 0,
        }
    }
}

impl From<Displacement> for i16 {
    /// The 16-bit displacement value, or 0 if the displacement is not 16-bit.
    fn from(value: Displacement) -> (r: i16) {
        match value {
            Displacement::Disp16(v) => v,
            _ => 0,
        }
    }
}

impl FromSpecImpl<Displacement> for i16 {
    open spec fn obeys_from_spec() -> bool {
        true
    }

    open spec fn from_spec(value: Displacement) -> i16 {
        match value {
            Displacement::Disp16(v) => v,
            _ => 0,
        }
    }
}

impl From<Displacement> for i32 {
    /// The 32-bit displacement value, or 0 if the displacement is not 32-bit.
    fn from(value: Displacement) -> (r: i32) {
        match value {
            Displacement::Disp32(v) => v,
            _ => 0,
        }
    }
}

impl FromSpecImpl<Displacement> for i32 {
    open spec fn obeys_from_spec() -> bool {
        true
    }

    open spec fn from_spec(value: Displacement) -> i32 {
        match value {
            Displacement::Disp32(v) => v,
            _ => 0,
        }
    }
}

/// The 8-bit value carried by a displacement (0 unless it is `Disp8`).
pub open spec fn disp8_of(d: Displacement) -> i8 {
    match d {
        Displacement::Disp8(v) => v,
        _ => 0,
    }
}

/// The 16-bit value carried by a displacement (0 unless it is `Disp16`).
pub open spec fn disp16_of(d: Displacement) -> i16 {
    match d {
        Displacement::Disp16(v) => v,
        _ => 0,
    }
}

/// The 32-bit value carried by a displacement (0 unless it is `Disp32`).
pub open spec fn disp32_of(d: Displacement) -> i32 {
    match d {
        Displacement::Disp32(v) => v,
        _ => 0,
    }
}

/// SIB scale factor.
#[derive(Copy, Clone, Debug, PartialEq, Eq, Structural)]
pub enum SibScale {
    One,
    Two,
    Four,
    Eight,
}

/// Addressing mode of a decoded instruction in either address size.
#[derive(Copy, Clone, Debug, PartialEq, Eq, Structural)]
pub enum AddressingMode {
    Sixteen(AddressingMode16),
    ThirtyTwo(AddressingMode32),
}

/// 16-bit addressing mode: register form, or a memory operand with its default segment.
#[derive(Copy, Clone, Debug, PartialEq, Eq, Structural)]
pub enum AddressingMode16 {
    RegisterMode,
    Address { base: Register16, offset: AddressOffset16 },
}

/// 32-bit addressing mode: register form, or a memory operand with its default segment.
#[derive(Copy, Clone, Debug, PartialEq, Eq, Structural)]
pub enum AddressingMode32 {
    RegisterMode,
    Address { base: Register32, offset: AddressOffset32 },
}

/// A memory offset expression in either address size.
#[derive(Copy, Clone, Debug, PartialEq, Eq, Structural)]
pub enum AddressOffset {
    Sixteen(AddressOffset16),
    ThirtyTwo(AddressOffset32),
}

/// 16-bit memory offset expressions.
#[derive(Copy, Clone, Debug, PartialEq, Eq, Structural)]
pub enum AddressOffset16 {
    NoOffset,
    BxSi,
    BxDi,
    BpSi,
    BpDi,
    Si,
    Di,
    Disp16(i16),
    Bx,
    BxSiDisp8(i8),
    BxDiDisp8(i8),
    BpSiDisp8(i8),
    BpDiDisp8(i8),
    SiDisp8(i8),
    DiDisp8(i8),
    BpDisp8(i8),
    BxDisp8(i8),
    BxSiDisp16(i16),
    BxDiDisp16(i16),
    BpSiDisp16(i16),
    BpDiDisp16(i16),
    SiDisp16(i16),
    DiDisp16(i16),
    BpDisp16(i16),
    BxDisp16(i16),
}

/// The base register a 16-bit addressing mode names (BX or BP), if any.
pub open spec fn offset16_base(o: AddressOffset16) -> Option<Register16> {
    match o {
        AddressOffset16::BxSi | AddressOffset16::BxDi | AddressOffset16::Bx | AddressOffset16::BxSiDisp8(_)
        | AddressOffset16::BxDiDisp8(_) | AddressOffset16::BxDisp8(_) | AddressOffset16::BxSiDisp16(_)
        | AddressOffset16::BxDiDisp16(_) | AddressOffset16::BxDisp16(_) => Some(Register16::BX),
        AddressOffset16::BpSi | AddressOffset16::BpDi | AddressOffset16::BpSiDisp8(_)
        | AddressOffset16::BpDiDisp8(_) | AddressOffset16::BpDisp8(_) | AddressOffset16::BpSiDisp16(_)
        | AddressOffset16::BpDiDisp16(_) | AddressOffset16::BpDisp16(_) => Some(Register16::BP),
        _ => None,
    }
}

/// The index register a 16-bit addressing mode names (SI or DI), if any.
pub open spec fn offset16_index(o: AddressOffset16) -> Option<Register16> {
    match o {
        AddressOffset16::BxSi | AddressOffset16::BpSi | AddressOffset16::Si | AddressOffset16::BxSiDisp8(_)
        | AddressOffset16::BpSiDisp8(_) | AddressOffset16::SiDisp8(_) | AddressOffset16::BxSiDisp16(_)
        | AddressOffset16::BpSiDisp16(_) | AddressOffset16::SiDisp16(_) => Some(Register16::SI),
        AddressOffset16::BxDi | AddressOffset16::BpDi | AddressOffset16::Di | AddressOffset16::BxDiDisp8(_)
        | AddressOffset16::BpDiDisp8(_) | AddressOffset16::DiDisp8(_) | AddressOffset16::BxDiDisp16(_)
        | AddressOffset16::BpDiDisp16(_) | AddressOffset16::DiDisp16(_) => Some(Register16::DI),
        _ => None,
    }
}

/// The size in bytes of the displacement a 16-bit addressing mode carries.
pub open spec fn offset16_disp_size(o: AddressOffset16) -> nat {
    match o {
        AddressOffset16::BxSiDisp8(_) | AddressOffset16::BxDiDisp8(_) | AddressOffset16::BpSiDisp8(_)
        | AddressOffset16::BpDiDisp8(_) | AddressOffset16::SiDisp8(_) | AddressOffset16::DiDisp8(_)
        | AddressOffset16::BpDisp8(_) | AddressOffset16::BxDisp8(_) => 1,
        AddressOffset16::Disp16(_) | AddressOffset16::BxSiDisp16(_) | AddressOffset16::BxDiDisp16(_)
        | AddressOffset16::BpSiDisp16(_) | AddressOffset16::BpDiDisp16(_) | AddressOffset16::SiDisp16(_)
        | AddressOffset16::DiDisp16(_) | AddressOffset16::BpDisp16(_) | AddressOffset16::BxDisp16(_) => 2,
        _ => 0,
    }
}

/// The displacement a 16-bit addressing mode carries, as a signed number
/// (0 where it has none).
pub open spec fn offset16_disp(o: AddressOffset16) -> int {
    match o {
        AddressOffset16::BxSiDisp8(d) => d as int,
        AddressOffset16::BxDiDisp8(d) => d as int,
        AddressOffset16::BpSiDisp8(d) => d as int,
        AddressOffset16::BpDiDisp8(d) => d as int,
        AddressOffset16::SiDisp8(d) => d as int,
        AddressOffset16::DiDisp8(d) => d as int,
        AddressOffset16::BpDisp8(d) => d as int,
        AddressOffset16::BxDisp8(d) => d as int,
        AddressOffset16::Disp16(d) => d as int,
        AddressOffset16::BxSiDisp16(d) => d as int,
        AddressOffset16::BxDiDisp16(d) => d as int,
        AddressOffset16::BpSiDisp16(d) => d as int,
        AddressOffset16::BpDiDisp16(d) => d as int,
        AddressOffset16::SiDisp16(d) => d as int,
        AddressOffset16::DiDisp16(d) => d as int,
        AddressOffset16::BpDisp16(d) => d as int,
        AddressOffset16::BxDisp16(d) => d as int,
        _ => 0,
    }
}

/// The register a 32-bit addressing mode without a SIB byte names, if any.
pub open spec fn offset32_register(o: AddressOffset32) -> Option<Register32> {
    match o {
        AddressOffset32::Eax | AddressOffset32::EaxDisp8(_) | AddressOffset32::EaxDisp32(_) => Some(Register32::EAX),
        AddressOffset32::Ecx | AddressOffset32::EcxDisp8(_) | AddressOffset32::EcxDisp32(_) => Some(Register32::ECX),
        AddressOffset32::Edx | AddressOffset32::EdxDisp8(_) | AddressOffset32::EdxDisp32(_) => Some(Register32::EDX),
        AddressOffset32::Ebx | AddressOffset32::EbxDisp8(_) | AddressOffset32::EbxDisp32(_) => Some(Register32::EBX),
        AddressOffset32::EspDisp8(_) | AddressOffset32::EspDisp32(_) => Some(Register32::ESP),
        AddressOffset32::Ebp | AddressOffset32::EbpDisp8(_) | AddressOffset32::EbpDisp32(_) => Some(Register32::EBP),
        AddressOffset32::Esi | AddressOffset32::EsiDisp8(_) | AddressOffset32::EsiDisp32(_) => Some(Register32::ESI),
        AddressOffset32::Edi | AddressOffset32::EdiDisp8(_) | AddressOffset32::EdiDisp32(_) => Some(Register32::EDI),
        _ => None,
    }
}

/// The size in bytes of the displacement a 32-bit addressing mode without a
/// SIB byte carries.
pub open spec fn offset32_disp_size(o: AddressOffset32) -> nat {
    match o {
        AddressOffset32::EaxDisp8(_) | AddressOffset32::EcxDisp8(_) | AddressOffset32::EdxDisp8(_) | AddressOffset32::EbxDisp8(_) | AddressOffset32::EspDisp8(_) | AddressOffset32::EbpDisp8(_) | AddressOffset32::EsiDisp8(_) | AddressOffset32::EdiDisp8(_) => 1,
        AddressOffset32::Disp32(_) | AddressOffset32::EaxDisp32(_) | AddressOffset32::EcxDisp32(_) | AddressOffset32::EdxDisp32(_) | AddressOffset32::EbxDisp32(_) | AddressOffset32::EspDisp32(_) | AddressOffset32::EbpDisp32(_) | AddressOffset32::EsiDisp32(_) | AddressOffset32::EdiDisp32(_) => 4,
        _ => 0,
    }
}

/// The displacement a 32-bit addressing mode without a SIB byte carries, as a
/// signed number (0 where it has none).
pub open spec fn offset32_disp(o: AddressOffset32) -> int {
    match o {
        AddressOffset32::Disp32(d) => d as int,
        AddressOffset32::EaxDisp8(d) => d as int,
        AddressOffset32::EcxDisp8(d) => d as int,
        AddressOffset32::EdxDisp8(d) => d as int,
        AddressOffset32::EbxDisp8(d) => d as int,
        AddressOffset32::EspDisp8(d) => d as int,
        AddressOffset32::EbpDisp8(d) => d as int,
        AddressOffset32::EsiDisp8(d) => d as int,
        AddressOffset32::EdiDisp8(d) => d as int,
        AddressOffset32::EaxDisp32(d) => d as int,
        AddressOffset32::EcxDisp32(d) => d as int,
        AddressOffset32::EdxDisp32(d) => d as int,
        AddressOffset32::EbxDisp32(d) => d as int,
        AddressOffset32::EspDisp32(d) => d as int,
        AddressOffset32::EbpDisp32(d) => d as int,
        AddressOffset32::EsiDisp32(d) => d as int,
        AddressOffset32::EdiDisp32(d) => d as int,
        _ => 0,
    }
}

/// Base register of a SIB address.
#[derive(Copy, Clone, Debug, PartialEq, Eq, Structural)]
pub enum BaseRegister {
    NoBase,
    Base(Register32),
}

impl BaseRegister {
    /// Whether a base register is present.
    pub fn is_some(&self) -> (r: bool)
        ensures
            r == !(*self is NoBase),
    {
        !matches!(self, BaseRegister::NoBase)
    }
}

/// Scaled index register of a SIB address.
#[derive(Copy, Clone, Debug, PartialEq, Eq, Structural)]
pub enum ScaledIndex {
    NoIndex,
    EaxScaled(SibScale),
    EcxScaled(SibScale),
    EdxScaled(SibScale),
    EbxScaled(SibScale),
    EbpScaled(SibScale),
    EsiScaled(SibScale),
    EdiScaled(SibScale),
}

impl ScaledIndex {
    /// Whether an index register is present.
    pub fn is_some(&self) -> (r: bool)
        ensures
            r == !(*self is NoIndex),
    {
        !matches!(self, ScaledIndex::NoIndex)
    }
}

/// 32-bit memory offset expressions.
#[derive(Copy, Clone, Debug, PartialEq, Eq, Structural)]
pub enum AddressOffset32 {
    NoOffset,
    Eax,
    Ecx,
    Edx,
    Ebx,
    Disp32(i32),
    Ebp,
    Esi,
    Edi,
    EaxDisp8(i8),
    EcxDisp8(i8),
    EdxDisp8(i8),
    EbxDisp8(i8),
    EspDisp8(i8),
    EbpDisp8(i8),
    EsiDisp8(i8),
    EdiDisp8(i8),
    EaxDisp32(i32),
    EcxDisp32(i32),
    EdxDisp32(i32),
    EbxDisp32(i32),
    EspDisp32(i32),
    EbpDisp32(i32),
    EsiDisp32(i32),
    EdiDisp32(i32),
    SibPending,
    Sib(BaseRegister, ScaledIndex),
    SibDisp8(BaseRegister, ScaledIndex, i8),
    SibDisp32(BaseRegister, ScaledIndex, i32),
    SibDisp8Ebp(BaseRegister, ScaledIndex, i8),
    SibDisp32Ebp(BaseRegister, ScaledIndex, i32),
}

/// 16-bit general, segment and instruction pointer registers.
#[derive(Copy, Clone, Debug, PartialEq, Eq, Structural)]
pub enum Register16 {
    AX,
    CX,
    DX,
    BX,
    SP,
    BP,
    SI,
    DI,
    ES,
    CS,
    SS,
    DS,
    FS,
    GS,
    PC,
    InvalidRegister,
}

/// 32-bit general, segment and instruction pointer registers.
#[derive(Copy, Clone, Debug, PartialEq, Eq, Structural)]
pub enum Register32 {
    EAX,
    ECX,
    EDX,
    EBX,
    ESP,
    EBP,
    ESI,
    EDI,
    ES,
    CS,
    SS,
    DS,
    FS,
    GS,
    PC,
    InvalidRegister,
}

/// 8-bit general registers.
#[derive(Copy, Clone, Debug, PartialEq, Eq, Structural)]
pub enum Register8 {
    AL,
    CL,
    DL,
    BL,
    AH,
    CH,
    DH,
    BH,
}

/// The 8-bit register that a 3-bit register field selects.
pub open spec fn spec_register8(i: u8) -> Register8 {
    if i == 0 {
        Register8::AL
    } else if i == 1 {
        Register8::CL
    } else if i == 2 {
        Register8::DL
    } else if i == 3 {
        Register8::BL
    } else if i == 4 {
        Register8::AH
    } else if i == 5 {
        Register8::CH
    } else if i == 6 {
        Register8::DH
    } else {
        Register8::BH
    }
}

/// The 16-bit general register that a 3-bit register field selects.
pub open spec fn spec_register16(i: u8) -> Register16 {
    if i == 0 {
        Register16::AX
    } else if i == 1 {
        Register16::CX
    } else if i == 2 {
        Register16::DX
    } else if i == 3 {
        Register16::BX
    } else if i == 4 {
        Register16::SP
    } else if i == 5 {
        Register16::BP
    } else if i == 6 {
        Register16::SI
    } else {
        Register16::DI
    }
}

/// The segment register that a 3-bit field selects in 16-bit code (ES, CS, SS, DS, repeated).
pub open spec fn spec_sregister16(i: u8) -> Register16 {
    if i % 4 == 0 {
        Register16::ES
    } else if i % 4 == 1 {
        Register16::CS
    } else if i % 4 == 2 {
        Register16::SS
    } else {
        Register16::DS
    }
}

/// The segment register that a 3-bit field selects in 32-bit code.
pub open spec fn spec_sregister32(i: u8) -> Register32 {
    if i == 0 {
        Register32::ES
    } else if i == 1 {
        Register32::CS
    } else if i == 2 {
        Register32::SS
    } else if i == 3 {
        Register32::DS
    } else if i == 4 {
        Register32::FS
    } else if i == 5 {
        Register32::GS
    } else if i == 6 {
        Register32::SS
    } else {
        Register32::DS
    }
}

/// The 32-bit general register that a 3-bit register field selects.
pub open spec fn spec_register32(i: u8) -> Register32 {
    if i == 0 {
        Register32::EAX
    } else if i == 1 {
        Register32::ECX
    } else if i == 2 {
        Register32::EDX
    } else if i == 3 {
        Register32::EBX
    } else if i == 4 {
        Register32::ESP
    } else if i == 5 {
        Register32::EBP
    } else if i == 6 {
        Register32::ESI
    } else {
        Register32::EDI
    }
}

/// Look up the 8-bit register for a 3-bit register field.
pub fn register8_lut(i: u8) -> (r: Register8)
    requires
        i < 8,
    ensures
        r == spec_register8(i),
{
    match i {
        0 => Register8::AL,
        1 => Register8::CL,
        2 => Register8::DL,
        3 => Register8::BL,
        4 => Register8::AH,
        5 => Register8::CH,
        6 => Register8::DH,
        _ => Register8::BH,
    }
}

/// Look up the 16-bit general register for a 3-bit register field.
pub fn register16_lut(i: u8) -> (r: Register16)
    requires
        i < 8,
    ensures
        r == spec_register16(i),
{
    match i {
        0 => Register16::AX,
        1 => Register16::CX,
        2 => Register16::DX,
        3 => Register16::BX,
        4 => Register16::SP,
        5 => Register16::BP,
        6 => Register16::SI,
        _ => Register16::DI,
    }
}

/// Look up the 16-bit segment register for a 3-bit register field.
pub fn sregister16_lut(i: u8) -> (r: Register16)
    requires
        i < 8,
    ensures
        r == spec_sregister16(i),
{
    match i {
        0 | 4 => Register16::ES,
        1 | 5 => Register16::CS,
        2 | 6 => Register16::SS,
        _ => Register16::DS,
    }
}

/// Look up the 32-bit segment register for a 3-bit register field.
pub fn sregister32_lut(i: u8) -> (r: Register32)
    requires
        i < 8,
    ensures
        r == spec_sregister32(i),
{
    match i {
        0 => Register32::ES,
        1 => Register32::CS,
        2 => Register32::SS,
        3 => Register32::DS,
        4 => Register32::FS,
        5 => Register32::GS,
        6 => Register32::SS,
        _ => Register32::DS,
    }
}

/// Look up the 32-bit general register for a 3-bit register field.
pub fn register32_lut(i: u8) -> (r: Register32)
    requires
        i < 8,
    ensures
        r == spec_register32(i),
{
    match i {
        0 => Register32::EAX,
        1 => Register32::ECX,
        2 => Register32::EDX,
        3 => Register32::EBX,
        4 => Register32::ESP,
        5 => Register32::EBP,
        6 => Register32::ESI,
        _ => Register32::EDI,
    }
}

/// A raw bus status value, tagged with the status encoding of the CPU family.
#[derive(Debug)]
pub enum BusStatusByte {
    V1(u8),
    V2(u8),
    V3(u8),
}

/// The kind of a bus cycle.
#[derive(Copy, Clone, Debug, PartialEq, Eq, Structural)]
pub enum BusOpType {
    CodeRead,
    MemRead,
    MemWrite,
    IoRead,
    IoWrite,
    Halt,
}

/// The bus cycle type that a status value encodes, if it encodes one.
pub open spec fn spec_bus_op_type(value: BusStatusByte) -> Result<BusOpType, ()> {
    match value {
        BusStatusByte::V1(v) => {
            let s = v % 8;
            if s == 0 {
                Ok(BusOpType::CodeRead)
            } else if s == 1 {
                Ok(BusOpType::IoRead)
            } else if s == 2 {
                Ok(BusOpType::IoWrite)
            } else if s == 5 {
                Ok(BusOpType::MemRead)
            } else if s == 6 {
                Ok(BusOpType::MemWrite)
            } else {
                Err(())
            }
        },
        BusStatusByte::V2(v) => {
            let s = v % 16;
            if s == 5 {
                Ok(BusOpType::MemRead)
            } else if s == 6 {
                Ok(BusOpType::MemWrite)
            } else if s == 9 {
                Ok(BusOpType::IoRead)
            } else if s == 10 {
                Ok(BusOpType::IoWrite)
            } else if s == 13 {
                Ok(BusOpType::CodeRead)
            } else {
                Err(())
            }
        },
        BusStatusByte::V3(v) => {
            let s = v % 8;
            if s == 2 {
                Ok(BusOpType::IoRead)
            } else if s == 3 {
                Ok(BusOpType::IoWrite)
            } else if s == 4 {
                Ok(BusOpType::CodeRead)
            } else if s == 6 {
                Ok(BusOpType::MemRead)
            } else if s == 7 {
                Ok(BusOpType::MemWrite)
            } else {
                Err(())
            }
        },
    }
}

impl TryFrom<BusStatusByte> for BusOpType {
    type Error = ();

    /// Decode the bus cycle type from the low status bits.
    fn try_from(value: BusStatusByte) -> (r: Result<Self, Self::Error>) {
        match value {
            BusStatusByte::V1(v) => {
                let s = v & 0x7;
                assert(v & 0x7 == v % 8) by (bit_vector);
                match s {
                    0 => Ok(BusOpType::CodeRead),
                    1 => Ok(BusOpType::IoRead),
                    2 => Ok(BusOpType::IoWrite),
                    5 => Ok(BusOpType::MemRead),
                    6 => Ok(BusOpType::MemWrite),
                    _ => Err(()),
                }
            },
            BusStatusByte::V2(v) => {
                let s = v & 0xF;
                assert(v & 0xF == v % 16) by (bit_vector);
                match s {
                    5 => Ok(BusOpType::MemRead),
                    6 => Ok(BusOpType::MemWrite),
                    9 => Ok(BusOpType::IoRead),
                    10 => Ok(BusOpType::IoWrite),
                    13 => Ok(BusOpType::CodeRead),
                    _ => Err(()),
                }
            },
            BusStatusByte::V3(v) => {
                let s = v & 0x07;
                assert(v & 0x07 == v % 8) by (bit_vector);
                match s {
                    2 => Ok(BusOpType::IoRead),
                    3 => Ok(BusOpType::IoWrite),
                    4 => Ok(BusOpType::CodeRead),
                    6 => Ok(BusOpType::MemRead),
                    7 => Ok(BusOpType::MemWrite),
                    _ => Err(()),
                }
            },
        }
    }
}

impl TryFromSpecImpl<BusStatusByte> for BusOpType {
    open spec fn obeys_try_from_spec() -> bool {
        true
    }

    open spec fn try_from_spec(value: BusStatusByte) -> Result<Self, ()> {
        spec_bus_op_type(value)
    }
}

/// One bus cycle of a test: its index in the cycle list, kind, address,
/// byte-high-enable, data and analysis flags.
#[derive(Copy, Clone, Debug)]
pub struct BusOp {
    pub idx: usize,
    pub op_type: BusOpType,
    pub addr: u32,
    pub bhe: bool,
    pub data: u16,
    pub flags: u8,
}

/// The data a bus cycle carries: one byte lane or the whole word.
#[derive(Copy, Clone, Debug, PartialEq, Eq, Structural)]
pub enum BusOpPayload {
    Byte(u8),
    Word(u16),
}

/// The payload of a bus cycle: the word when both lanes are driven (even
/// address with BHE), the low byte at an even address without BHE, the high
/// byte at an odd address with BHE; an odd address without BHE drives no lane.
pub open spec fn spec_payload(op: BusOp) -> Result<BusOpPayload, ()> {
    if op.addr % 2 == 0 {
        if op.bhe {
            Ok(BusOpPayload::Word(op.data))
        } else {
            Ok(BusOpPayload::Byte((op.data % 256) as u8))
        }
    } else if op.bhe {
        Ok(BusOpPayload::Byte((op.data / 256) as u8))
    } else {
        Err(())
    }
}

impl BusOp {
    /// Flag: another memory cycle in the same test touches this address.
    pub const FLAG_PAIRED: u8 = 0x01;
    /// Flag: this write is a probable stack push.
    pub const FLAG_STACK: u8 = 0x02;

    /// The data this cycle carries on the lanes it drives.
    pub fn payload(&self) -> (r: Result<BusOpPayload, ()>)
        ensures
            r == spec_payload(*self),
    {
        let addr = self.addr;
        let data = self.data;
        assert((addr & 1 == 0) == (addr % 2 == 0)) by (bit_vector);
        assert((data & 0xFF) as u8 == (data % 256) as u8) by (bit_vector);
        assert((data >> 8) as u8 == (data / 256) as u8) by (bit_vector);
        if addr & 1 == 0 {
            if self.bhe {
                Ok(BusOpPayload::Word(data))
            } else {
                Ok(BusOpPayload::Byte((data & 0xFF) as u8))
            }
        } else if self.bhe {
            Ok(BusOpPayload::Byte((data >> 8) as u8))
        } else {
            Err(())
        }
    }
}

} // verus!
