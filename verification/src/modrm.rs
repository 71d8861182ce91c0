//! ModR/M and SIB byte decoding.
//!
//! Reading a ModR/M (or SIB) byte resolves it to a decoded entry: its bit
//! fields, the displacement it calls for, and an addressing-mode template
//! whose displacement is filled in later by `address_offset`.

use crate::cpu_common::{
    disp16_of, disp32_of, disp8_of, register16_lut, register32_lut, register8_lut,
    spec_register16, spec_register32, spec_register8, spec_sregister16, spec_sregister32,
    sregister16_lut, sregister32_lut, offset16_base, offset16_disp, offset16_disp_size, offset16_index, offset32_disp_size,
    offset32_register,
    AddressOffset16, AddressOffset32, BaseRegister, Displacement, Register16, Register32, Register8,
    ScaledIndex, SibScale,
};
use vstd::prelude::*;

verus! {

/// Mask of the REG field of a ModR/M byte.
pub const MODRM_REG_MASK: u8 = 0b00_111_000;
/// Mask of the MOD and R/M fields of a ModR/M byte.
pub const MODRM_ADDR_MASK: u8 = 0b11_000_111;
/// Mask of the scale and index fields of a SIB byte.
pub const SIB_INDEX_MASK: u8 = 0b11_111_000;
/// Mask of the base field of a SIB byte.
pub const SIB_BASE_MASK: u8 = 0b00_000_111;
/// Base field value that selects a displacement (or EBP) instead of a base register.
pub const SIB_DISPLACEMENT: u8 = 0b00_000_101;

/// MOD field (top two bits).
pub open spec fn mod_field(b: u8) -> u8 {
    b / 64
}

/// REG field (bits 5..3).
pub open spec fn reg_field(b: u8) -> u8 {
    (b / 8) % 8
}

/// R/M field (bits 2..0).
pub open spec fn rm_field(b: u8) -> u8 {
    b % 8
}

/// The displacement that a ModR/M byte calls for in 16-bit addressing.
pub open spec fn spec_disp16_kind(b: u8) -> Displacement {
    let m = mod_field(b);
    if m == 0 {
        if rm_field(b) == 6 {
            Displacement::Pending16
        } else {
            Displacement::NoDisp
        }
    } else if m == 1 {
        Displacement::Pending8
    } else if m == 2 {
        Displacement::Pending16
    } else {
        Displacement::NoDisp
    }
}

/// The 16-bit addressing-mode template of a ModR/M byte (displacements zero).
pub open spec fn spec_offset16(b: u8) -> AddressOffset16 {
    let m = mod_field(b);
    let rm = rm_field(b);
    if m == 0 {
        if rm == 0 {
            AddressOffset16::BxSi
        } else if rm == 1 {
            AddressOffset16::BxDi
        } else if rm == 2 {
            AddressOffset16::BpSi
        } else if rm == 3 {
            AddressOffset16::BpDi
        } else if rm == 4 {
            AddressOffset16::Si
        } else if rm == 5 {
            AddressOffset16::Di
        } else if rm == 6 {
            AddressOffset16::Disp16(0)
        } else {
            AddressOffset16::Bx
        }
    } else if m == 1 {
        if rm == 0 {
            AddressOffset16::BxSiDisp8(0)
        } else if rm == 1 {
            AddressOffset16::BxDiDisp8(0)
        } else if rm == 2 {
            AddressOffset16::BpSiDisp8(0)
        } else if rm == 3 {
            AddressOffset16::BpDiDisp8(0)
        } else if rm == 4 {
            AddressOffset16::SiDisp8(0)
        } else if rm == 5 {
            AddressOffset16::DiDisp8(0)
        } else if rm == 6 {
            AddressOffset16::BpDisp8(0)
        } else {
            AddressOffset16::BxDisp8(0)
        }
    } else if m == 2 {
        if rm == 0 {
            AddressOffset16::BxSiDisp16(0)
        } else if rm == 1 {
            AddressOffset16::BxDiDisp16(0)
        } else if rm == 2 {
            AddressOffset16::BpSiDisp16(0)
        } else if rm == 3 {
            AddressOffset16::BpDiDisp16(0)
        } else if rm == 4 {
            AddressOffset16::SiDisp16(0)
        } else if rm == 5 {
            AddressOffset16::DiDisp16(0)
        } else if rm == 6 {
            AddressOffset16::BpDisp16(0)
        } else {
            AddressOffset16::BxDisp16(0)
        }
    } else {
        AddressOffset16::NoOffset
    }
}

/// The 32-bit addressing-mode template of a ModR/M byte (displacements zero;
/// R/M 100 in a memory form defers to a SIB byte).
pub open spec fn spec_offset32(b: u8) -> AddressOffset32 {
    let m = mod_field(b);
    let rm = rm_field(b);
    if m == 3 {
        AddressOffset32::NoOffset
    } else if rm == 4 {
        AddressOffset32::SibPending
    } else if m == 0 {
        if rm == 0 {
            AddressOffset32::Eax
        } else if rm == 1 {
            AddressOffset32::Ecx
        } else if rm == 2 {
            AddressOffset32::Edx
        } else if rm == 3 {
            AddressOffset32::Ebx
        } else if rm == 5 {
            AddressOffset32::Disp32(0)
        } else if rm == 6 {
            AddressOffset32::Esi
        } else {
            AddressOffset32::Edi
        }
    } else if m == 1 {
        if rm == 0 {
            AddressOffset32::EaxDisp8(0)
        } else if rm == 1 {
            AddressOffset32::EcxDisp8(0)
        } else if rm == 2 {
            AddressOffset32::EdxDisp8(0)
        } else if rm == 3 {
            AddressOffset32::EbxDisp8(0)
        } else if rm == 5 {
            AddressOffset32::EbpDisp8(0)
        } else if rm == 6 {
            AddressOffset32::EsiDisp8(0)
        } else {
            AddressOffset32::EdiDisp8(0)
        }
    } else {
        if rm == 0 {
            AddressOffset32::EaxDisp32(0)
        } else if rm == 1 {
            AddressOffset32::EcxDisp32(0)
        } else if rm == 2 {
            AddressOffset32::EdxDisp32(0)
        } else if rm == 3 {
            AddressOffset32::EbxDisp32(0)
        } else if rm == 5 {
            AddressOffset32::EbpDisp32(0)
        } else if rm == 6 {
            AddressOffset32::EsiDisp32(0)
        } else {
            AddressOffset32::EdiDisp32(0)
        }
    }
}

/// A 16-bit offset template with the displacement value filled in: the
/// variants that carry an 8- (16-) bit displacement take the 8- (16-) bit value
/// of `d` (0 if `d` is of another width); the others are unchanged.
pub open spec fn spec_fill16(mode: AddressOffset16, d: Displacement) -> AddressOffset16 {
    match mode {
        AddressOffset16::Disp16(_) => AddressOffset16::Disp16(disp16_of(d)),
        AddressOffset16::BxSiDisp8(_) => AddressOffset16::BxSiDisp8(disp8_of(d)),
        AddressOffset16::BxDiDisp8(_) => AddressOffset16::BxDiDisp8(disp8_of(d)),
        AddressOffset16::BpSiDisp8(_) => AddressOffset16::BpSiDisp8(disp8_of(d)),
        AddressOffset16::BpDiDisp8(_) => AddressOffset16::BpDiDisp8(disp8_of(d)),
        AddressOffset16::SiDisp8(_) => AddressOffset16::SiDisp8(disp8_of(d)),
        AddressOffset16::DiDisp8(_) => AddressOffset16::DiDisp8(disp8_of(d)),
        AddressOffset16::BpDisp8(_) => AddressOffset16::BpDisp8(disp8_of(d)),
        AddressOffset16::BxDisp8(_) => AddressOffset16::BxDisp8(disp8_of(d)),
        AddressOffset16::BxSiDisp16(_) => AddressOffset16::BxSiDisp16(disp16_of(d)),
        AddressOffset16::BxDiDisp16(_) => AddressOffset16::BxDiDisp16(disp16_of(d)),
        AddressOffset16::BpSiDisp16(_) => AddressOffset16::BpSiDisp16(disp16_of(d)),
        AddressOffset16::BpDiDisp16(_) => AddressOffset16::BpDiDisp16(disp16_of(d)),
        AddressOffset16::SiDisp16(_) => AddressOffset16::SiDisp16(disp16_of(d)),
        AddressOffset16::DiDisp16(_) => AddressOffset16::DiDisp16(disp16_of(d)),
        AddressOffset16::BpDisp16(_) => AddressOffset16::BpDisp16(disp16_of(d)),
        AddressOffset16::BxDisp16(_) => AddressOffset16::BxDisp16(disp16_of(d)),
        _ => mode,
    }
}

/// A 32-bit offset template (without SIB) with the displacement value filled in.
pub open spec fn spec_fill32(mode: AddressOffset32, d: Displacement) -> AddressOffset32 {
    match mode {
        AddressOffset32::Disp32(_) => AddressOffset32::Disp32(disp32_of(d)),
        AddressOffset32::EaxDisp8(_) => AddressOffset32::EaxDisp8(disp8_of(d)),
        AddressOffset32::EcxDisp8(_) => AddressOffset32::EcxDisp8(disp8_of(d)),
        AddressOffset32::EdxDisp8(_) => AddressOffset32::EdxDisp8(disp8_of(d)),
        AddressOffset32::EbxDisp8(_) => AddressOffset32::EbxDisp8(disp8_of(d)),
        AddressOffset32::EbpDisp8(_) => AddressOffset32::EbpDisp8(disp8_of(d)),
        AddressOffset32::EsiDisp8(_) => AddressOffset32::EsiDisp8(disp8_of(d)),
        AddressOffset32::EdiDisp8(_) => AddressOffset32::EdiDisp8(disp8_of(d)),
        AddressOffset32::EaxDisp32(_) => AddressOffset32::EaxDisp32(disp32_of(d)),
        AddressOffset32::EcxDisp32(_) => AddressOffset32::EcxDisp32(disp32_of(d)),
        AddressOffset32::EdxDisp32(_) => AddressOffset32::EdxDisp32(disp32_of(d)),
        AddressOffset32::EbxDisp32(_) => AddressOffset32::EbxDisp32(disp32_of(d)),
        AddressOffset32::EbpDisp32(_) => AddressOffset32::EbpDisp32(disp32_of(d)),
        AddressOffset32::EsiDisp32(_) => AddressOffset32::EsiDisp32(disp32_of(d)),
        AddressOffset32::EdiDisp32(_) => AddressOffset32::EdiDisp32(disp32_of(d)),
        _ => mode,
    }
}

proof fn lemma_fields(b: u8)
    ensures
        (b >> 6) & 0x03 == mod_field(b),
        (b >> 3) & 0x07 == reg_field(b),
        b & 0x07 == rm_field(b),
        mod_field(b) < 4,
        reg_field(b) < 8,
        rm_field(b) < 8,
{
    assert((b >> 6) & 0x03 == b / 64) by (bit_vector);
    assert((b >> 3) & 0x07 == (b / 8) % 8) by (bit_vector);
    assert(b & 0x07 == b % 8) by (bit_vector);
}

/// A decoded ModR/M byte for 16-bit addressing.
#[derive(Copy, Clone)]
pub struct ModRmByte16 {
    _byte: u8,
    b_mod: u8,
    b_reg: u8,
    b_rm: u8,
    disp: Displacement,
    addressing_mode: AddressOffset16,
}

impl ModRmByte16 {
    /// Every entry is the decoding of its own byte.
    #[verifier::type_invariant]
    spec fn decodes_byte(self) -> bool {
        &&& self.b_mod == mod_field(self._byte)
        &&& self.b_reg == reg_field(self._byte)
        &&& self.b_rm == rm_field(self._byte)
        &&& self.disp == spec_disp16_kind(self._byte)
        &&& self.addressing_mode == spec_offset16(self._byte)
    }

    /// The ModR/M byte this entry decodes.
    pub closed spec fn byte(self) -> u8 {
        self._byte
    }

    /// The displacement this byte calls for.
    pub closed spec fn displacement_kind(self) -> Displacement {
        self.disp
    }

    /// The addressing-mode template of this byte.
    pub closed spec fn offset_template(self) -> AddressOffset16 {
        self.addressing_mode
    }

    /// The entry for ModR/M byte 0.
    pub fn default_ref() -> (r: ModRmByte16)
        ensures
            r.byte() == 0,
    {
        Self::read(0)
    }

    /// Decode a ModR/M byte.
    pub fn read(byte: u8) -> (r: ModRmByte16)
        ensures
            r.byte() == byte,
            r.displacement_kind() == spec_disp16_kind(byte),
            r.offset_template() == spec_offset16(byte),
    {
        proof {
            lemma_fields(byte);
        }
        let b_mod = (byte >> 6) & 0x03;
        let b_reg = (byte >> 3) & 0x07;
        let b_rm = byte & 0x07;
        let disp = match b_mod {
            0 => if b_rm == 6 {
                Displacement::Pending16
            } else {
                Displacement::NoDisp
            },
            1 => Displacement::Pending8,
            2 => Displacement::Pending16,
            _ => Displacement::NoDisp,
        };
        let addressing_mode = match b_mod {
            0 => match b_rm {
                0 => AddressOffset16::BxSi,
                1 => AddressOffset16::BxDi,
                2 => AddressOffset16::BpSi,
                3 => AddressOffset16::BpDi,
                4 => AddressOffset16::Si,
                5 => AddressOffset16::Di,
                6 => AddressOffset16::Disp16(0),
                _ => AddressOffset16::Bx,
            },
            1 => match b_rm {
                0 => AddressOffset16::BxSiDisp8(0),
                1 => AddressOffset16::BxDiDisp8(0),
                2 => AddressOffset16::BpSiDisp8(0),
                3 => AddressOffset16::BpDiDisp8(0),
                4 => AddressOffset16::SiDisp8(0),
                5 => AddressOffset16::DiDisp8(0),
                6 => AddressOffset16::BpDisp8(0),
                _ => AddressOffset16::BxDisp8(0),
            },
            2 => match b_rm {
                0 => AddressOffset16::BxSiDisp16(0),
                1 => AddressOffset16::BxDiDisp16(0),
                2 => AddressOffset16::BpSiDisp16(0),
                3 => AddressOffset16::BpDiDisp16(0),
                4 => AddressOffset16::SiDisp16(0),
                5 => AddressOffset16::DiDisp16(0),
                6 => AddressOffset16::BpDisp16(0),
                _ => AddressOffset16::BxDisp16(0),
            },
            _ => AddressOffset16::NoOffset,
        };
        ModRmByte16 { _byte: byte, b_mod, b_reg, b_rm, disp, addressing_mode }
    }

    /// The MOD field (top two bits) of the byte.
    pub fn mod_value(&self) -> (r: u8)
        ensures
            r == mod_field(self.byte()),
    {
        proof {
            use_type_invariant(self);
        }
        self.b_mod
    }

    /// The R/M field read as an 8-bit register.
    pub fn op1_reg8(&self) -> (r: Register8)
        ensures
            r == spec_register8(rm_field(self.byte())),
    {
        proof {
            use_type_invariant(self);
        }
        register8_lut(self.b_rm)
    }

    /// The R/M field read as a 16-bit register.
    pub fn op1_reg16(&self) -> (r: Register16)
        ensures
            r == spec_register16(rm_field(self.byte())),
    {
        proof {
            use_type_invariant(self);
        }
        register16_lut(self.b_rm)
    }

    /// The REG field read as an 8-bit register.
    pub fn op2_reg8(&self) -> (r: Register8)
        ensures
            r == spec_register8(reg_field(self.byte())),
    {
        proof {
            use_type_invariant(self);
        }
        register8_lut(self.b_reg)
    }

    /// The REG field read as a 16-bit register.
    pub fn op2_reg16(&self) -> (r: Register16)
        ensures
            r == spec_register16(reg_field(self.byte())),
    {
        proof {
            use_type_invariant(self);
        }
        register16_lut(self.b_reg)
    }

    /// The REG field read as a segment register.
    pub fn op2_segmentreg16(&self) -> (r: Register16)
        ensures
            r == spec_sregister16(reg_field(self.byte())),
    {
        proof {
            use_type_invariant(self);
        }
        sregister16_lut(self.b_reg)
    }

    /// The REG field read as a 3-bit opcode extension.
    pub fn op_extension(&self) -> (r: u8)
        ensures
            r == reg_field(self.byte()),
    {
        proof {
            use_type_invariant(self);
        }
        self.b_reg
    }

    /// Whether the byte selects a memory operand (MOD is not 11).
    pub fn is_addressing_mode(&self) -> (r: bool)
        ensures
            r == (mod_field(self.byte()) != 3),
    {
        proof {
            use_type_invariant(self);
        }
        self.b_mod != 0b11
    }

    /// The addressing mode of this byte with `displacement` filled in.
    pub fn address_offset(&self, displacement: Displacement) -> (r: AddressOffset16)
        ensures
            r == spec_fill16(spec_offset16(self.byte()), displacement),
    {
        proof {
            use_type_invariant(self);
        }
        match self.addressing_mode {
            AddressOffset16::Disp16(_) => AddressOffset16::Disp16(displacement.into()),
            AddressOffset16::BxSiDisp8(_) => AddressOffset16::BxSiDisp8(displacement.into()),
            AddressOffset16::BxDiDisp8(_) => AddressOffset16::BxDiDisp8(displacement.into()),
            AddressOffset16::BpSiDisp8(_) => AddressOffset16::BpSiDisp8(displacement.into()),
            AddressOffset16::BpDiDisp8(_) => AddressOffset16::BpDiDisp8(displacement.into()),
            AddressOffset16::SiDisp8(_) => AddressOffset16::SiDisp8(displacement.into()),
            AddressOffset16::DiDisp8(_) => AddressOffset16::DiDisp8(displacement.into()),
            AddressOffset16::BpDisp8(_) => AddressOffset16::BpDisp8(displacement.into()),
            AddressOffset16::BxDisp8(_) => AddressOffset16::BxDisp8(displacement.into()),
            AddressOffset16::BxSiDisp16(_) => AddressOffset16::BxSiDisp16(displacement.into()),
            AddressOffset16::BxDiDisp16(_) => AddressOffset16::BxDiDisp16(displacement.into()),
            AddressOffset16::BpSiDisp16(_) => AddressOffset16::BpSiDisp16(displacement.into()),
            AddressOffset16::BpDiDisp16(_) => AddressOffset16::BpDiDisp16(displacement.into()),
            AddressOffset16::SiDisp16(_) => AddressOffset16::SiDisp16(displacement.into()),
            AddressOffset16::DiDisp16(_) => AddressOffset16::DiDisp16(displacement.into()),
            AddressOffset16::BpDisp16(_) => AddressOffset16::BpDisp16(displacement.into()),
            AddressOffset16::BxDisp16(_) => AddressOffset16::BxDisp16(displacement.into()),
            _ => self.addressing_mode,
        }
    }
}

/// A decoded ModR/M byte for 32-bit addressing.
#[derive(Copy, Clone)]
pub struct ModRmByte32 {
    _byte: u8,
    b_mod: u8,
    b_reg: u8,
    b_rm: u8,
    addressing_mode: AddressOffset32,
}

impl ModRmByte32 {
    /// Every entry is the decoding of its own byte.
    #[verifier::type_invariant]
    spec fn decodes_byte(self) -> bool {
        &&& self.b_mod == mod_field(self._byte)
        &&& self.b_reg == reg_field(self._byte)
        &&& self.b_rm == rm_field(self._byte)
        &&& self.addressing_mode == spec_offset32(self._byte)
    }

    /// The ModR/M byte this entry decodes.
    pub closed spec fn byte(self) -> u8 {
        self._byte
    }

    /// The addressing-mode template of this byte.
    pub closed spec fn offset_template(self) -> AddressOffset32 {
        self.addressing_mode
    }

    /// The entry for ModR/M byte 0.
    pub fn default_ref() -> (r: ModRmByte32)
        ensures
            r.byte() == 0,
    {
        Self::read(0)
    }

    /// Decode a ModR/M byte.
    pub fn read(byte: u8) -> (r: ModRmByte32)
        ensures
            r.byte() == byte,
            r.offset_template() == spec_offset32(byte),
    {
        proof {
            lemma_fields(byte);
        }
        let b_mod = (byte >> 6) & 0x03;
        let b_reg = (byte >> 3) & 0x07;
        let b_rm = byte & 0x07;
        let addressing_mode = if b_mod == 3 {
            AddressOffset32::NoOffset
        } else if b_rm == 4 {
            AddressOffset32::SibPending
        } else {
            match b_mod {
                0 => match b_rm {
                    0 => AddressOffset32::Eax,
                    1 => AddressOffset32::Ecx,
                    2 => AddressOffset32::Edx,
                    3 => AddressOffset32::Ebx,
                    5 => AddressOffset32::Disp32(0),
                    6 => AddressOffset32::Esi,
                    _ => AddressOffset32::Edi,
                },
                1 => match b_rm {
                    0 => AddressOffset32::EaxDisp8(0),
                    1 => AddressOffset32::EcxDisp8(0),
                    2 => AddressOffset32::EdxDisp8(0),
                    3 => AddressOffset32::EbxDisp8(0),
                    5 => AddressOffset32::EbpDisp8(0),
                    6 => AddressOffset32::EsiDisp8(0),
                    _ => AddressOffset32::EdiDisp8(0),
                },
                _ => match b_rm {
                    0 => AddressOffset32::EaxDisp32(0),
                    1 => AddressOffset32::EcxDisp32(0),
                    2 => AddressOffset32::EdxDisp32(0),
                    3 => AddressOffset32::EbxDisp32(0),
                    5 => AddressOffset32::EbpDisp32(0),
                    6 => AddressOffset32::EsiDisp32(0),
                    _ => AddressOffset32::EdiDisp32(0),
                },
            }
        };
        ModRmByte32 { _byte: byte, b_mod, b_reg, b_rm, addressing_mode }
    }

    /// The MOD field (top two bits) of the byte.
    pub fn mod_value(&self) -> (r: u8)
        ensures
            r == mod_field(self.byte()),
    {
        proof {
            use_type_invariant(self);
        }
        self.b_mod
    }

    /// The R/M field read as an 8-bit register.
    pub fn op1_reg8(&self) -> (r: Register8)
        ensures
            r == spec_register8(rm_field(self.byte())),
    {
        proof {
            use_type_invariant(self);
        }
        register8_lut(self.b_rm)
    }

    /// The R/M field read as a 32-bit register.
    pub fn op1_reg32(&self) -> (r: Register32)
        ensures
            r == spec_register32(rm_field(self.byte())),
    {
        proof {
            use_type_invariant(self);
        }
        register32_lut(self.b_rm)
    }

    /// The REG field read as an 8-bit register.
    pub fn op2_reg8(&self) -> (r: Register8)
        ensures
            r == spec_register8(reg_field(self.byte())),
    {
        proof {
            use_type_invariant(self);
        }
        register8_lut(self.b_reg)
    }

    /// The REG field read as a 32-bit register.
    pub fn op2_reg32(&self) -> (r: Register32)
        ensures
            r == spec_register32(reg_field(self.byte())),
    {
        proof {
            use_type_invariant(self);
        }
        register32_lut(self.b_reg)
    }

    /// The REG field read as a segment register.
    pub fn op2_segmentreg32(&self) -> (r: Register32)
        ensures
            r == spec_sregister32(reg_field(self.byte())),
    {
        proof {
            use_type_invariant(self);
        }
        sregister32_lut(self.b_reg)
    }

    /// The REG field read as a 3-bit opcode extension.
    pub fn op_extension(&self) -> (r: u8)
        ensures
            r == reg_field(self.byte()),
    {
        proof {
            use_type_invariant(self);
        }
        self.b_reg
    }

    /// Whether the byte selects a memory operand (MOD is not 11).
    pub fn is_addressing_mode(&self) -> (r: bool)
        ensures
            r == (mod_field(self.byte()) != 3),
    {
        proof {
            use_type_invariant(self);
        }
        self.b_mod != 0b11
    }

    /// The addressing mode of this byte with `displacement` filled in.
    pub fn address_offset(&self, displacement: Displacement) -> (r: AddressOffset32)
        ensures
            r == spec_fill32(spec_offset32(self.byte()), displacement),
    {
        proof {
            use_type_invariant(self);
        }
        match self.addressing_mode {
            AddressOffset32::Disp32(_) => AddressOffset32::Disp32(displacement.into()),
            AddressOffset32::EaxDisp8(_) => AddressOffset32::EaxDisp8(displacement.into()),
            AddressOffset32::EcxDisp8(_) => AddressOffset32::EcxDisp8(displacement.into()),
            AddressOffset32::EdxDisp8(_) => AddressOffset32::EdxDisp8(displacement.into()),
            AddressOffset32::EbxDisp8(_) => AddressOffset32::EbxDisp8(displacement.into()),
            AddressOffset32::EbpDisp8(_) => AddressOffset32::EbpDisp8(displacement.into()),
            AddressOffset32::EsiDisp8(_) => AddressOffset32::EsiDisp8(displacement.into()),
            AddressOffset32::EdiDisp8(_) => AddressOffset32::EdiDisp8(displacement.into()),
            AddressOffset32::EaxDisp32(_) => AddressOffset32::EaxDisp32(displacement.into()),
            AddressOffset32::EcxDisp32(_) => AddressOffset32::EcxDisp32(displacement.into()),
            AddressOffset32::EdxDisp32(_) => AddressOffset32::EdxDisp32(displacement.into()),
            AddressOffset32::EbxDisp32(_) => AddressOffset32::EbxDisp32(displacement.into()),
            AddressOffset32::EbpDisp32(_) => AddressOffset32::EbpDisp32(displacement.into()),
            AddressOffset32::EsiDisp32(_) => AddressOffset32::EsiDisp32(displacement.into()),
            AddressOffset32::EdiDisp32(_) => AddressOffset32::EdiDisp32(displacement.into()),
            _ => self.addressing_mode,
        }
    }

    /// Whether a SIB byte follows (a memory form with R/M 100).
    pub fn has_sib(&self) -> (r: bool)
        ensures
            r == (mod_field(self.byte()) != 3 && rm_field(self.byte()) == 4),
    {
        proof {
            use_type_invariant(self);
        }
        matches!(self.addressing_mode, AddressOffset32::SibPending)
    }
}

/// The scale that a SIB scale field selects.
pub open spec fn spec_scale(ss: u8) -> SibScale {
    if ss == 0 {
        SibScale::One
    } else if ss == 1 {
        SibScale::Two
    } else if ss == 2 {
        SibScale::Four
    } else {
        SibScale::Eight
    }
}

/// The scaled index that a SIB byte selects (index 100 means no index).
pub open spec fn spec_scaled_index(b: u8) -> ScaledIndex {
    let s = spec_scale(mod_field(b));
    let i = reg_field(b);
    if i == 0 {
        ScaledIndex::EaxScaled(s)
    } else if i == 1 {
        ScaledIndex::EcxScaled(s)
    } else if i == 2 {
        ScaledIndex::EdxScaled(s)
    } else if i == 3 {
        ScaledIndex::EbxScaled(s)
    } else if i == 4 {
        ScaledIndex::NoIndex
    } else if i == 5 {
        ScaledIndex::EbpScaled(s)
    } else if i == 6 {
        ScaledIndex::EsiScaled(s)
    } else {
        ScaledIndex::EdiScaled(s)
    }
}

/// The addressing-mode template of a SIB byte under a ModR/M MOD value:
/// base 101 means a 32-bit displacement without base (MOD 00) or EBP plus
/// an 8- (MOD 01) or 32-bit (MOD 10) displacement; any other base is the
/// register it selects.
pub open spec fn spec_sib_offset(b: u8, modrm_mod: u8) -> AddressOffset32 {
    let si = spec_scaled_index(b);
    if rm_field(b) == 5 {
        if modrm_mod == 0 {
            AddressOffset32::SibDisp32(BaseRegister::NoBase, si, 0)
        } else if modrm_mod == 1 {
            AddressOffset32::SibDisp8Ebp(BaseRegister::Base(Register32::EBP), si, 0)
        } else {
            AddressOffset32::SibDisp32Ebp(BaseRegister::Base(Register32::EBP), si, 0)
        }
    } else {
        AddressOffset32::Sib(BaseRegister::Base(spec_register32(rm_field(b))), si)
    }
}

/// A SIB template with a displacement filled in: a plain SIB address gains
/// an 8- or 32-bit displacement if `d` is one; the displacement forms take
/// the value of the matching width.
pub open spec fn spec_fill_sib(mode: AddressOffset32, d: Displacement) -> AddressOffset32 {
    match mode {
        AddressOffset32::Sib(base, idx) => match d {
            Displacement::Disp8(v) => AddressOffset32::SibDisp8(base, idx, v),
            Displacement::Disp32(v) => AddressOffset32::SibDisp32(base, idx, v),
            _ => mode,
        },
        AddressOffset32::SibDisp8Ebp(base, idx, _) => AddressOffset32::SibDisp8Ebp(
            base,
            idx,
            disp8_of(d),
        ),
        AddressOffset32::SibDisp32Ebp(base, idx, _) => AddressOffset32::SibDisp32Ebp(
            base,
            idx,
            disp32_of(d),
        ),
        AddressOffset32::SibDisp32(base, idx, _) => AddressOffset32::SibDisp32(
            base,
            idx,
            disp32_of(d),
        ),
        _ => mode,
    }
}

/// A decoded SIB byte under a given ModR/M MOD value.
#[derive(Copy, Clone)]
pub struct SibByte {
    _byte: u8,
    modrm_mod: u8,
    b_ss: u8,
    b_base: u8,
    b_idx: u8,
    addressing_mode: AddressOffset32,
}

impl SibByte {
    /// Every entry is the decoding of its own byte under its MOD value.
    #[verifier::type_invariant]
    spec fn decodes_byte(self) -> bool {
        &&& self.modrm_mod < 3
        &&& self.b_ss == mod_field(self._byte)
        &&& self.b_idx == reg_field(self._byte)
        &&& self.b_base == rm_field(self._byte)
        &&& self.addressing_mode == spec_sib_offset(self._byte, self.modrm_mod)
    }

    /// The SIB byte this entry decodes.
    pub closed spec fn spec_byte(self) -> u8 {
        self._byte
    }

    /// The ModR/M MOD value this entry was decoded under.
    pub closed spec fn modrm_mod_value(self) -> u8 {
        self.modrm_mod
    }

    /// Decode a SIB byte under the MOD field (low two bits of `modrm_mod`) of
    /// its ModR/M byte; MOD 11 has no SIB byte and is not accepted.
    pub fn read(byte: u8, modrm_mod: u8) -> (r: SibByte)
        requires
            modrm_mod % 4 != 3,
        ensures
            r.spec_byte() == byte,
            r.modrm_mod_value() == modrm_mod % 4,
    {
        proof {
            lemma_fields(byte);
        }
        let m = modrm_mod & 0x03;
        assert(modrm_mod & 0x03 == modrm_mod % 4) by (bit_vector);
        let b_ss = (byte >> 6) & 0x03;
        let b_idx = (byte >> 3) & 0x07;
        let b_base = byte & 0x07;
        let scale = match b_ss {
            0 => SibScale::One,
            1 => SibScale::Two,
            2 => SibScale::Four,
            _ => SibScale::Eight,
        };
        let scaled_index = match b_idx {
            0 => ScaledIndex::EaxScaled(scale),
            1 => ScaledIndex::EcxScaled(scale),
            2 => ScaledIndex::EdxScaled(scale),
            3 => ScaledIndex::EbxScaled(scale),
            4 => ScaledIndex::NoIndex,
            5 => ScaledIndex::EbpScaled(scale),
            6 => ScaledIndex::EsiScaled(scale),
            _ => ScaledIndex::EdiScaled(scale),
        };
        let addressing_mode = if b_base == SIB_DISPLACEMENT {
            match m {
                0 => AddressOffset32::SibDisp32(BaseRegister::NoBase, scaled_index, 0),
                1 => AddressOffset32::SibDisp8Ebp(
                    BaseRegister::Base(Register32::EBP),
                    scaled_index,
                    0,
                ),
                _ => AddressOffset32::SibDisp32Ebp(
                    BaseRegister::Base(Register32::EBP),
                    scaled_index,
                    0,
                ),
            }
        } else {
            AddressOffset32::Sib(BaseRegister::Base(register32_lut(b_base)), scaled_index)
        };
        SibByte { _byte: byte, modrm_mod: m, b_ss, b_base, b_idx, addressing_mode }
    }

    /// The SIB byte.
    pub fn byte(&self) -> (r: u8)
        ensures
            r == self.spec_byte(),
    {
        self._byte
    }

    /// A SIB byte always describes a memory operand.
    pub fn is_addressing_mode(&self) -> (r: bool)
        ensures
            r,
    {
        true
    }

    /// The addressing mode of this SIB byte with `displacement` filled in.
    pub fn address_offset(&self, displacement: Displacement) -> (r: AddressOffset32)
        ensures
            r == spec_fill_sib(
                spec_sib_offset(self.spec_byte(), self.modrm_mod_value()),
                displacement,
            ),
    {
        proof {
            use_type_invariant(self);
        }
        match self.addressing_mode {
            AddressOffset32::Sib(base, idx) => match displacement {
                Displacement::Disp8(d) => AddressOffset32::SibDisp8(base, idx, d),
                Displacement::Disp32(d) => AddressOffset32::SibDisp32(base, idx, d),
                _ => self.addressing_mode,
            },
            AddressOffset32::SibDisp8Ebp(base, idx, _) => AddressOffset32::SibDisp8Ebp(
                base,
                idx,
                displacement.into(),
            ),
            AddressOffset32::SibDisp32Ebp(base, idx, _) => AddressOffset32::SibDisp32Ebp(
                base,
                idx,
                displacement.into(),
            ),
            AddressOffset32::SibDisp32(base, idx, _) => AddressOffset32::SibDisp32(
                base,
                idx,
                displacement.into(),
            ),
            _ => self.addressing_mode,
        }
    }
}

/// The 16-bit ModR/M addressing table: for a memory form (MOD below 3), R/M
/// 0 to 3 add BX (R/M 0, 1) or BP (R/M 2, 3) to SI (even R/M) or DI (odd
/// R/M); R/M 4 and 5 use SI and DI alone; R/M 6 uses BP, except with MOD 0
/// where it is a bare 16-bit displacement; R/M 7 uses BX. MOD 0 adds no
/// displacement, MOD 1 an 8-bit one and MOD 2 a 16-bit one. MOD 3 names a
/// register and has no memory offset.
pub proof fn law_modrm16_addressing_table(b: u8)
    ensures
        ({
            let m = mod_field(b);
            let rm = rm_field(b);
            let o = spec_offset16(b);
            let bare_disp = m == 0 && rm == 6;
            &&& m == 3 ==> o == AddressOffset16::NoOffset
            &&& m < 3 ==> offset16_base(o) == (if rm < 4 {
                if rm < 2 {
                    Some(Register16::BX)
                } else {
                    Some(Register16::BP)
                }
            } else if rm == 6 && !bare_disp {
                Some(Register16::BP)
            } else if rm == 7 {
                Some(Register16::BX)
            } else {
                None
            })
            &&& m < 3 ==> offset16_index(o) == (if rm < 6 {
                if rm % 2 == 0 {
                    Some(Register16::SI)
                } else {
                    Some(Register16::DI)
                }
            } else {
                None
            })
            &&& m < 3 ==> offset16_disp_size(o) == (if m == 1 {
                1nat
            } else if m == 2 || bare_disp {
                2nat
            } else {
                0nat
            })
        }),
{
    lemma_fields(b);
}

/// Filling in a displacement keeps the registers and the displacement size
/// of the addressing mode and sets its displacement to the value of that
/// size.
pub proof fn law_fill16_keeps_registers(mode: AddressOffset16, d: Displacement)
    ensures
        offset16_base(spec_fill16(mode, d)) == offset16_base(mode),
        offset16_index(spec_fill16(mode, d)) == offset16_index(mode),
        offset16_disp_size(spec_fill16(mode, d)) == offset16_disp_size(mode),
        offset16_disp_size(mode) == 1 ==> offset16_disp(spec_fill16(mode, d)) == disp8_of(d) as int,
        offset16_disp_size(mode) == 2 ==> offset16_disp(spec_fill16(mode, d)) == disp16_of(d) as int,
{
}

/// The 32-bit ModR/M addressing table without SIB: for a memory form (MOD
/// below 3), R/M 100 calls for a SIB byte and R/M 101 with MOD 0 is a bare
/// 32-bit displacement; any other R/M uses the register of that number in
/// the order EAX ECX EDX EBX ESP EBP ESI EDI. MOD 0 adds no displacement,
/// MOD 1 an 8-bit one and MOD 2 a 32-bit one. MOD 3 has no memory offset.
pub proof fn law_modrm32_addressing_table(b: u8)
    ensures
        ({
            let m = mod_field(b);
            let rm = rm_field(b);
            let o = spec_offset32(b);
            let order = seq![
                Register32::EAX,
                Register32::ECX,
                Register32::EDX,
                Register32::EBX,
                Register32::ESP,
                Register32::EBP,
                Register32::ESI,
                Register32::EDI,
            ];
            &&& m == 3 ==> o == AddressOffset32::NoOffset
            &&& m < 3 && rm == 4 ==> o == AddressOffset32::SibPending
            &&& m == 0 && rm == 5 ==> o == AddressOffset32::Disp32(0)
            &&& m < 3 && rm != 4 && !(m == 0 && rm == 5) ==> offset32_register(o) == Some(order[rm as int])
            &&& m < 3 && rm != 4 ==> offset32_disp_size(o) == (if m == 1 {
                1nat
            } else if m == 2 || rm == 5 {
                4nat
            } else {
                0nat
            })
        }),
{
    lemma_fields(b);
}

/// The register a SIB index names, if any.
pub open spec fn index_register(i: ScaledIndex) -> Option<Register32> {
    match i {
        ScaledIndex::NoIndex => None,
        ScaledIndex::EaxScaled(_) => Some(Register32::EAX),
        ScaledIndex::EcxScaled(_) => Some(Register32::ECX),
        ScaledIndex::EdxScaled(_) => Some(Register32::EDX),
        ScaledIndex::EbxScaled(_) => Some(Register32::EBX),
        ScaledIndex::EbpScaled(_) => Some(Register32::EBP),
        ScaledIndex::EsiScaled(_) => Some(Register32::ESI),
        ScaledIndex::EdiScaled(_) => Some(Register32::EDI),
    }
}

/// The multiplier a SIB index carries (1 without an index).
pub open spec fn index_multiplier(i: ScaledIndex) -> nat {
    let s = match i {
        ScaledIndex::NoIndex => SibScale::One,
        ScaledIndex::EaxScaled(s) => s,
        ScaledIndex::EcxScaled(s) => s,
        ScaledIndex::EdxScaled(s) => s,
        ScaledIndex::EbxScaled(s) => s,
        ScaledIndex::EbpScaled(s) => s,
        ScaledIndex::EsiScaled(s) => s,
        ScaledIndex::EdiScaled(s) => s,
    };
    match s {
        SibScale::One => 1,
        SibScale::Two => 2,
        SibScale::Four => 4,
        SibScale::Eight => 8,
    }
}

/// The base, index and displacement size of a SIB addressing template.
pub open spec fn sib_parts(o: AddressOffset32) -> Option<(BaseRegister, ScaledIndex, nat)> {
    match o {
        AddressOffset32::Sib(b, i) => Some((b, i, 0nat)),
        AddressOffset32::SibDisp8(b, i, _) => Some((b, i, 1nat)),
        AddressOffset32::SibDisp32(b, i, _) => Some((b, i, 4nat)),
        AddressOffset32::SibDisp8Ebp(b, i, _) => Some((b, i, 1nat)),
        AddressOffset32::SibDisp32Ebp(b, i, _) => Some((b, i, 4nat)),
        _ => None,
    }
}

/// The SIB addressing table: the index field (bits 5..3) names the index
/// register in the order EAX ECX EDX EBX (none) EBP ESI EDI, scaled by 2 to
/// the power of the scale field (bits 7..6); the base field (bits 2..0)
/// names the base register in the order EAX ECX EDX EBX ESP EBP ESI EDI,
/// except that base 101 means no base and a 32-bit displacement under MOD
/// 0, and EBP with an 8- (MOD 1) or 32-bit (MOD 2) displacement otherwise.
pub proof fn law_sib_addressing_table(b: u8, modrm_mod: u8)
    requires
        modrm_mod < 3,
    ensures
        ({
            let order = seq![
                Register32::EAX,
                Register32::ECX,
                Register32::EDX,
                Register32::EBX,
                Register32::ESP,
                Register32::EBP,
                Register32::ESI,
                Register32::EDI,
            ];
            let ss = mod_field(b);
            let idx = reg_field(b);
            let base = rm_field(b);
            let parts = sib_parts(spec_sib_offset(b, modrm_mod));
            &&& parts is Some
            &&& index_register(parts->Some_0.1) == (if idx == 4 {
                None
            } else {
                Some(order[idx as int])
            })
            &&& idx != 4 ==> index_multiplier(parts->Some_0.1) == vstd::arithmetic::power2::pow2(ss as nat)
            &&& base != 5 ==> parts->Some_0.0 == BaseRegister::Base(order[base as int]) && parts->Some_0.2 == 0
            &&& base == 5 && modrm_mod == 0 ==> parts->Some_0.0 == BaseRegister::NoBase && parts->Some_0.2 == 4
            &&& base == 5 && modrm_mod == 1 ==> parts->Some_0.0 == BaseRegister::Base(Register32::EBP) && parts->Some_0.2 == 1
            &&& base == 5 && modrm_mod == 2 ==> parts->Some_0.0 == BaseRegister::Base(Register32::EBP) && parts->Some_0.2 == 4
        }),
{
    lemma_fields(b);
    vstd::arithmetic::power2::lemma2_to64();
}

} // verus!
