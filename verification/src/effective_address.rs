//! Effective addresses of memory operands, computed from an addressing mode
//! and the 80386 register file that a test is loaded with.

use crate::cpu_common::{
    offset16_base, offset16_disp, offset16_index, offset32_disp, offset32_register, AddressOffset16, AddressOffset32, AddressingMode, AddressingMode16, AddressingMode32,
    BaseRegister, Register16, Register32, ScaledIndex, SibScale,
};
use crate::enums::CpuMode;
use crate::registers::{spec_descriptor, spec_selector, RemoteCpuRegisters32, Registers};
use vstd::prelude::*;

verus! {

/// A segment register.
#[derive(Copy, Clone, Debug, PartialEq, Eq, Structural)]
pub enum SegmentRegister {
    ES,
    CS,
    SS,
    DS,
    FS,
    GS,
}

/// The effective address of a memory operand: its segment (selector, base
/// and limit), its offset, its linear address, and its physical address
/// where paging is off (0 otherwise).
#[derive(Copy, Clone, Debug, PartialEq, Eq, Structural)]
pub struct EffectiveAddress {
    pub base_segment: SegmentRegister,
    pub base_segment_selector: u16,
    pub base_segment_address: u32,
    pub base_segment_limit: u32,
    pub offset: u32,
    pub linear_address: u32,
    pub physical_address: u32,
}

/// The segment register a 16-bit register names, if it names one.
pub open spec fn spec_segment_of16(r: Register16) -> Option<SegmentRegister> {
    match r {
        Register16::ES => Some(SegmentRegister::ES),
        Register16::CS => Some(SegmentRegister::CS),
        Register16::SS => Some(SegmentRegister::SS),
        Register16::DS => Some(SegmentRegister::DS),
        Register16::FS => Some(SegmentRegister::FS),
        Register16::GS => Some(SegmentRegister::GS),
        _ => None,
    }
}

/// The segment register a 32-bit register names, if it names one.
pub open spec fn spec_segment_of32(r: Register32) -> Option<SegmentRegister> {
    match r {
        Register32::ES => Some(SegmentRegister::ES),
        Register32::CS => Some(SegmentRegister::CS),
        Register32::SS => Some(SegmentRegister::SS),
        Register32::DS => Some(SegmentRegister::DS),
        Register32::FS => Some(SegmentRegister::FS),
        Register32::GS => Some(SegmentRegister::GS),
        _ => None,
    }
}

/// The 16-bit register that names a segment register.
pub open spec fn segment_as16(s: SegmentRegister) -> Register16 {
    match s {
        SegmentRegister::ES => Register16::ES,
        SegmentRegister::CS => Register16::CS,
        SegmentRegister::SS => Register16::SS,
        SegmentRegister::DS => Register16::DS,
        SegmentRegister::FS => Register16::FS,
        SegmentRegister::GS => Register16::GS,
    }
}

/// The offset a 16-bit addressing mode computes: the sum of its registers
/// and its sign-extended displacement, wrapping at 16 bits.
pub open spec fn spec_offset16_value(o: AddressOffset16, r: RemoteCpuRegisters32) -> u16 {
    let bx = r.ebx as u16;
    let bp = r.ebp as u16;
    let si = r.esi as u16;
    let di = r.edi as u16;
    match o {
        AddressOffset16::NoOffset => 0,
        AddressOffset16::BxSi => bx.wrapping_add(si),
        AddressOffset16::BxDi => bx.wrapping_add(di),
        AddressOffset16::BpSi => bp.wrapping_add(si),
        AddressOffset16::BpDi => bp.wrapping_add(di),
        AddressOffset16::Si => si,
        AddressOffset16::Di => di,
        AddressOffset16::Disp16(d) => d as u16,
        AddressOffset16::Bx => bx,
        AddressOffset16::BxSiDisp8(d) => bx.wrapping_add(si).wrapping_add(d as u16),
        AddressOffset16::BxDiDisp8(d) => bx.wrapping_add(di).wrapping_add(d as u16),
        AddressOffset16::BpSiDisp8(d) => bp.wrapping_add(si).wrapping_add(d as u16),
        AddressOffset16::BpDiDisp8(d) => bp.wrapping_add(di).wrapping_add(d as u16),
        AddressOffset16::SiDisp8(d) => si.wrapping_add(d as u16),
        AddressOffset16::DiDisp8(d) => di.wrapping_add(d as u16),
        AddressOffset16::BpDisp8(d) => bp.wrapping_add(d as u16),
        AddressOffset16::BxDisp8(d) => bx.wrapping_add(d as u16),
        AddressOffset16::BxSiDisp16(d) => bx.wrapping_add(si).wrapping_add(d as u16),
        AddressOffset16::BxDiDisp16(d) => bx.wrapping_add(di).wrapping_add(d as u16),
        AddressOffset16::BpSiDisp16(d) => bp.wrapping_add(si).wrapping_add(d as u16),
        AddressOffset16::BpDiDisp16(d) => bp.wrapping_add(di).wrapping_add(d as u16),
        AddressOffset16::SiDisp16(d) => si.wrapping_add(d as u16),
        AddressOffset16::DiDisp16(d) => di.wrapping_add(d as u16),
        AddressOffset16::BpDisp16(d) => bp.wrapping_add(d as u16),
        AddressOffset16::BxDisp16(d) => bx.wrapping_add(d as u16),
    }
}

/// The value of a 32-bit general register; 0 for other registers.
pub open spec fn reg32_value(r: RemoteCpuRegisters32, which: Register32) -> u32 {
    match which {
        Register32::EAX => r.eax,
        Register32::ECX => r.ecx,
        Register32::EDX => r.edx,
        Register32::EBX => r.ebx,
        Register32::ESP => r.esp,
        Register32::EBP => r.ebp,
        Register32::ESI => r.esi,
        Register32::EDI => r.edi,
        _ => 0,
    }
}

/// The factor of a SIB scale.
pub open spec fn scale_factor(s: SibScale) -> u32 {
    match s {
        SibScale::One => 1,
        SibScale::Two => 2,
        SibScale::Four => 4,
        SibScale::Eight => 8,
    }
}

/// The value of a SIB index term: the index register times the scale,
/// wrapping at 32 bits; 0 without an index.
pub open spec fn spec_index_value(idx: ScaledIndex, r: RemoteCpuRegisters32) -> u32 {
    match idx {
        ScaledIndex::NoIndex => 0,
        ScaledIndex::EaxScaled(s) => r.eax.wrapping_mul(scale_factor(s)),
        ScaledIndex::EcxScaled(s) => r.ecx.wrapping_mul(scale_factor(s)),
        ScaledIndex::EdxScaled(s) => r.edx.wrapping_mul(scale_factor(s)),
        ScaledIndex::EbxScaled(s) => r.ebx.wrapping_mul(scale_factor(s)),
        ScaledIndex::EbpScaled(s) => r.ebp.wrapping_mul(scale_factor(s)),
        ScaledIndex::EsiScaled(s) => r.esi.wrapping_mul(scale_factor(s)),
        ScaledIndex::EdiScaled(s) => r.edi.wrapping_mul(scale_factor(s)),
    }
}

/// The value of a SIB base term; 0 without a base.
pub open spec fn spec_base_value(b: BaseRegister, r: RemoteCpuRegisters32) -> u32 {
    match b {
        BaseRegister::NoBase => 0,
        BaseRegister::Base(reg) => reg32_value(r, reg),
    }
}

/// The offset a 32-bit addressing mode computes: base, scaled index and
/// sign-extended displacement, wrapping at 32 bits.
pub open spec fn spec_offset32_value(o: AddressOffset32, r: RemoteCpuRegisters32) -> u32 {
    match o {
        AddressOffset32::NoOffset | AddressOffset32::SibPending => 0,
        AddressOffset32::Eax => r.eax,
        AddressOffset32::Ecx => r.ecx,
        AddressOffset32::Edx => r.edx,
        AddressOffset32::Ebx => r.ebx,
        AddressOffset32::Disp32(d) => d as u32,
        AddressOffset32::Ebp => r.ebp,
        AddressOffset32::Esi => r.esi,
        AddressOffset32::Edi => r.edi,
        AddressOffset32::EaxDisp8(d) => r.eax.wrapping_add(d as u32),
        AddressOffset32::EcxDisp8(d) => r.ecx.wrapping_add(d as u32),
        AddressOffset32::EdxDisp8(d) => r.edx.wrapping_add(d as u32),
        AddressOffset32::EbxDisp8(d) => r.ebx.wrapping_add(d as u32),
        AddressOffset32::EspDisp8(d) => r.esp.wrapping_add(d as u32),
        AddressOffset32::EbpDisp8(d) => r.ebp.wrapping_add(d as u32),
        AddressOffset32::EsiDisp8(d) => r.esi.wrapping_add(d as u32),
        AddressOffset32::EdiDisp8(d) => r.edi.wrapping_add(d as u32),
        AddressOffset32::EaxDisp32(d) => r.eax.wrapping_add(d as u32),
        AddressOffset32::EcxDisp32(d) => r.ecx.wrapping_add(d as u32),
        AddressOffset32::EdxDisp32(d) => r.edx.wrapping_add(d as u32),
        AddressOffset32::EbxDisp32(d) => r.ebx.wrapping_add(d as u32),
        AddressOffset32::EspDisp32(d) => r.esp.wrapping_add(d as u32),
        AddressOffset32::EbpDisp32(d) => r.ebp.wrapping_add(d as u32),
        AddressOffset32::EsiDisp32(d) => r.esi.wrapping_add(d as u32),
        AddressOffset32::EdiDisp32(d) => r.edi.wrapping_add(d as u32),
        AddressOffset32::Sib(b, i) => spec_base_value(b, r).wrapping_add(spec_index_value(i, r)),
        AddressOffset32::SibDisp8(b, i, d) | AddressOffset32::SibDisp8Ebp(b, i, d) => spec_base_value(
            b,
            r,
        ).wrapping_add(spec_index_value(i, r)).wrapping_add(d as u32),
        AddressOffset32::SibDisp32(b, i, d) | AddressOffset32::SibDisp32Ebp(b, i, d) =>
            spec_base_value(b, r).wrapping_add(spec_index_value(i, r)).wrapping_add(d as u32),
    }
}

/// The value of a 32-bit general register.
fn reg32_of(r: &RemoteCpuRegisters32, which: Register32) -> (v: u32)
    ensures
        v == reg32_value(*r, which),
{
    match which {
        Register32::EAX => r.eax,
        Register32::ECX => r.ecx,
        Register32::EDX => r.edx,
        Register32::EBX => r.ebx,
        Register32::ESP => r.esp,
        Register32::EBP => r.ebp,
        Register32::ESI => r.esi,
        Register32::EDI => r.edi,
        _ => 0,
    }
}

/// The value of a SIB index term.
fn index_value(idx: ScaledIndex, r: &RemoteCpuRegisters32) -> (v: u32)
    ensures
        v == spec_index_value(idx, *r),
{
    let (reg, s) = match idx {
        ScaledIndex::NoIndex => {
            return 0;
        },
        ScaledIndex::EaxScaled(s) => (r.eax, s),
        ScaledIndex::EcxScaled(s) => (r.ecx, s),
        ScaledIndex::EdxScaled(s) => (r.edx, s),
        ScaledIndex::EbxScaled(s) => (r.ebx, s),
        ScaledIndex::EbpScaled(s) => (r.ebp, s),
        ScaledIndex::EsiScaled(s) => (r.esi, s),
        ScaledIndex::EdiScaled(s) => (r.edi, s),
    };
    let f: u32 = match s {
        SibScale::One => 1,
        SibScale::Two => 2,
        SibScale::Four => 4,
        SibScale::Eight => 8,
    };
    reg.wrapping_mul(f)
}

/// The value of a SIB base term.
fn base_value(b: BaseRegister, r: &RemoteCpuRegisters32) -> (v: u32)
    ensures
        v == spec_base_value(b, *r),
{
    match b {
        BaseRegister::NoBase => 0,
        BaseRegister::Base(reg) => reg32_of(r, reg),
    }
}

impl AddressOffset16 {
    /// The offset this addressing mode computes from the registers.
    pub fn calculate(&self, r: &RemoteCpuRegisters32) -> (v: u16)
        ensures
            v == spec_offset16_value(*self, *r),
    {
        let bx = r.ebx as u16;
        let bp = r.ebp as u16;
        let si = r.esi as u16;
        let di = r.edi as u16;
        match *self {
            AddressOffset16::NoOffset => 0,
            AddressOffset16::BxSi => bx.wrapping_add(si),
            AddressOffset16::BxDi => bx.wrapping_add(di),
            AddressOffset16::BpSi => bp.wrapping_add(si),
            AddressOffset16::BpDi => bp.wrapping_add(di),
            AddressOffset16::Si => si,
            AddressOffset16::Di => di,
            AddressOffset16::Disp16(d) => d as u16,
            AddressOffset16::Bx => bx,
            AddressOffset16::BxSiDisp8(d) => bx.wrapping_add(si).wrapping_add(d as u16),
            AddressOffset16::BxDiDisp8(d) => bx.wrapping_add(di).wrapping_add(d as u16),
            AddressOffset16::BpSiDisp8(d) => bp.wrapping_add(si).wrapping_add(d as u16),
            AddressOffset16::BpDiDisp8(d) => bp.wrapping_add(di).wrapping_add(d as u16),
            AddressOffset16::SiDisp8(d) => si.wrapping_add(d as u16),
            AddressOffset16::DiDisp8(d) => di.wrapping_add(d as u16),
            AddressOffset16::BpDisp8(d) => bp.wrapping_add(d as u16),
            AddressOffset16::BxDisp8(d) => bx.wrapping_add(d as u16),
            AddressOffset16::BxSiDisp16(d) => bx.wrapping_add(si).wrapping_add(d as u16),
            AddressOffset16::BxDiDisp16(d) => bx.wrapping_add(di).wrapping_add(d as u16),
            AddressOffset16::BpSiDisp16(d) => bp.wrapping_add(si).wrapping_add(d as u16),
            AddressOffset16::BpDiDisp16(d) => bp.wrapping_add(di).wrapping_add(d as u16),
            AddressOffset16::SiDisp16(d) => si.wrapping_add(d as u16),
            AddressOffset16::DiDisp16(d) => di.wrapping_add(d as u16),
            AddressOffset16::BpDisp16(d) => bp.wrapping_add(d as u16),
            AddressOffset16::BxDisp16(d) => bx.wrapping_add(d as u16),
        }
    }

    /// The linear address of this operand in the given segment: the
    /// segment's descriptor base plus the offset, wrapping at 32 bits.
    pub fn calculate_effective_address(&self, base: Register16, r: &RemoteCpuRegisters32) -> (v: u32)
        ensures
            v == (match spec_descriptor(Registers::V3A(*r), base) {
                Some(d) => d.base,
                None => 0u32,
            }).wrapping_add(spec_offset16_value(*self, *r) as u32),
    {
        let b: u32 = match base {
            Register16::DS => r.ds_desc.base,
            Register16::ES => r.es_desc.base,
            Register16::FS => r.fs_desc.base,
            Register16::GS => r.gs_desc.base,
            Register16::SS => r.ss_desc.base,
            Register16::CS => r.cs_desc.base,
            _ => 0,
        };
        b.wrapping_add(self.calculate(r) as u32)
    }
}

impl AddressOffset32 {
    /// The offset this addressing mode computes from the registers.
    pub fn calculate(&self, r: &RemoteCpuRegisters32) -> (v: u32)
        ensures
            v == spec_offset32_value(*self, *r),
    {
        match *self {
            AddressOffset32::NoOffset | AddressOffset32::SibPending => 0,
            AddressOffset32::Eax => r.eax,
            AddressOffset32::Ecx => r.ecx,
            AddressOffset32::Edx => r.edx,
            AddressOffset32::Ebx => r.ebx,
            AddressOffset32::Disp32(d) => d as u32,
            AddressOffset32::Ebp => r.ebp,
            AddressOffset32::Esi => r.esi,
            AddressOffset32::Edi => r.edi,
            AddressOffset32::EaxDisp8(d) => r.eax.wrapping_add(d as u32),
            AddressOffset32::EcxDisp8(d) => r.ecx.wrapping_add(d as u32),
            AddressOffset32::EdxDisp8(d) => r.edx.wrapping_add(d as u32),
            AddressOffset32::EbxDisp8(d) => r.ebx.wrapping_add(d as u32),
            AddressOffset32::EspDisp8(d) => r.esp.wrapping_add(d as u32),
            AddressOffset32::EbpDisp8(d) => r.ebp.wrapping_add(d as u32),
            AddressOffset32::EsiDisp8(d) => r.esi.wrapping_add(d as u32),
            AddressOffset32::EdiDisp8(d) => r.edi.wrapping_add(d as u32),
            AddressOffset32::EaxDisp32(d) => r.eax.wrapping_add(d as u32),
            AddressOffset32::EcxDisp32(d) => r.ecx.wrapping_add(d as u32),
            AddressOffset32::EdxDisp32(d) => r.edx.wrapping_add(d as u32),
            AddressOffset32::EbxDisp32(d) => r.ebx.wrapping_add(d as u32),
            AddressOffset32::EspDisp32(d) => r.esp.wrapping_add(d as u32),
            AddressOffset32::EbpDisp32(d) => r.ebp.wrapping_add(d as u32),
            AddressOffset32::EsiDisp32(d) => r.esi.wrapping_add(d as u32),
            AddressOffset32::EdiDisp32(d) => r.edi.wrapping_add(d as u32),
            AddressOffset32::Sib(b, i) => base_value(b, r).wrapping_add(index_value(i, r)),
            AddressOffset32::SibDisp8(b, i, d) | AddressOffset32::SibDisp8Ebp(b, i, d) => base_value(
                b,
                r,
            ).wrapping_add(index_value(i, r)).wrapping_add(d as u32),
            AddressOffset32::SibDisp32(b, i, d) | AddressOffset32::SibDisp32Ebp(b, i, d) =>
                base_value(b, r).wrapping_add(index_value(i, r)).wrapping_add(d as u32),
        }
    }
}

/// The segment register that an addressing mode's base names, if it names one.
pub open spec fn spec_mode_segment(mode: AddressingMode) -> Option<SegmentRegister> {
    match mode {
        AddressingMode::Sixteen(AddressingMode16::Address { base, .. }) => spec_segment_of16(base),
        AddressingMode::ThirtyTwo(AddressingMode32::Address { base, .. }) => spec_segment_of32(base),
        _ => None,
    }
}

/// The offset an addressing mode computes, zero-extended to 32 bits.
pub open spec fn spec_mode_offset(mode: AddressingMode, r: RemoteCpuRegisters32) -> u32 {
    match mode {
        AddressingMode::Sixteen(AddressingMode16::Address { offset, .. }) => spec_offset16_value(
            offset,
            r,
        ) as u32,
        AddressingMode::ThirtyTwo(AddressingMode32::Address { offset, .. }) => spec_offset32_value(
            offset,
            r,
        ),
        _ => 0,
    }
}

/// The effective address of a memory operand whose segment is `seg`.
pub open spec fn spec_effective_address(cpu_mode: CpuMode, seg: SegmentRegister, offset: u32, r: RemoteCpuRegisters32) -> EffectiveAddress {
    let regs = Registers::V3A(r);
    let d = spec_descriptor(regs, segment_as16(seg)).unwrap();
    let linear = d.base.wrapping_add(offset);
    EffectiveAddress {
        base_segment: seg,
        base_segment_selector: spec_selector(regs, segment_as16(seg)).unwrap(),
        base_segment_address: d.base,
        base_segment_limit: d.limit,
        offset,
        linear_address: linear,
        physical_address: if cpu_mode == CpuMode::Real || cpu_mode == CpuMode::Unreal {
            linear
        } else {
            0
        },
    }
}

/// The segment register a 16-bit register names.
fn segment_of16(r: Register16) -> (s: Option<SegmentRegister>)
    ensures
        s == spec_segment_of16(r),
{
    match r {
        Register16::ES => Some(SegmentRegister::ES),
        Register16::CS => Some(SegmentRegister::CS),
        Register16::SS => Some(SegmentRegister::SS),
        Register16::DS => Some(SegmentRegister::DS),
        Register16::FS => Some(SegmentRegister::FS),
        Register16::GS => Some(SegmentRegister::GS),
        _ => None,
    }
}

/// The segment register that an addressing mode's memory operand is based
/// on, where its base names one.
pub fn mode_segment(mode: &AddressingMode) -> (s: Option<SegmentRegister>)
    ensures
        s == spec_mode_segment(*mode),
{
    match mode {
        AddressingMode::Sixteen(AddressingMode16::Address { base, .. }) => segment_of16(*base),
        AddressingMode::ThirtyTwo(AddressingMode32::Address { base, .. }) => segment_of32(*base),
        _ => None,
    }
}

/// The segment register a 32-bit register names.
fn segment_of32(r: Register32) -> (s: Option<SegmentRegister>)
    ensures
        s == spec_segment_of32(r),
{
    match r {
        Register32::ES => Some(SegmentRegister::ES),
        Register32::CS => Some(SegmentRegister::CS),
        Register32::SS => Some(SegmentRegister::SS),
        Register32::DS => Some(SegmentRegister::DS),
        Register32::FS => Some(SegmentRegister::FS),
        Register32::GS => Some(SegmentRegister::GS),
        _ => None,
    }
}

/// The effective address of the memory operand of a segment.
fn effective_address_in(cpu_mode: CpuMode, seg: SegmentRegister, offset: u32, r: &RemoteCpuRegisters32) -> (ea: EffectiveAddress)
    ensures
        ea == spec_effective_address(cpu_mode, seg, offset, *r),
{
    let (selector, d) = match seg {
        SegmentRegister::ES => (r.es, r.es_desc),
        SegmentRegister::CS => (r.cs, r.cs_desc),
        SegmentRegister::SS => (r.ss, r.ss_desc),
        SegmentRegister::DS => (r.ds, r.ds_desc),
        SegmentRegister::FS => (r.fs, r.fs_desc),
        SegmentRegister::GS => (r.gs, r.gs_desc),
    };
    let linear = d.base.wrapping_add(offset);
    EffectiveAddress {
        base_segment: seg,
        base_segment_selector: selector,
        base_segment_address: d.base,
        base_segment_limit: d.limit,
        offset,
        linear_address: linear,
        physical_address: match cpu_mode {
            CpuMode::Real | CpuMode::Unreal => linear,
            _ => 0,
        },
    }
}

/// The effective address of an instruction's memory operand, for a test
/// loaded with an 80386 register file; none without a memory operand. The
/// physical address is the linear one in real and unreal mode.
pub fn calculate_ea(cpu_mode: CpuMode, addressing_mode: Option<AddressingMode>, regs: &Registers) -> (r: Option<EffectiveAddress>)
    requires
        match addressing_mode {
            Some(AddressingMode::Sixteen(AddressingMode16::Address { .. }))
            | Some(AddressingMode::ThirtyTwo(AddressingMode32::Address { .. })) => {
                &&& spec_mode_segment(addressing_mode.unwrap()) is Some
                &&& regs is V3A
            },
            _ => true,
        },
    ensures
        match addressing_mode {
            Some(AddressingMode::Sixteen(AddressingMode16::Address { .. }))
            | Some(AddressingMode::ThirtyTwo(AddressingMode32::Address { .. })) => match *regs {
                Registers::V3A(r32) => r == Some(
                    spec_effective_address(
                        cpu_mode,
                        spec_mode_segment(addressing_mode.unwrap()).unwrap(),
                        spec_mode_offset(addressing_mode.unwrap(), r32),
                        r32,
                    ),
                ),
                _ => false,
            },
            _ => r is None,
        },
{
    let r32 = match regs {
        Registers::V3A(r32) => r32,
        _ => {
            return None;
        },
    };
    match addressing_mode {
        Some(AddressingMode::Sixteen(AddressingMode16::Address { base, offset })) => {
            let seg = match segment_of16(base) {
                Some(s) => s,
                None => {
                    return None;
                },
            };
            let off = offset.calculate(r32) as u32;
            Some(effective_address_in(cpu_mode, seg, off, r32))
        },
        Some(AddressingMode::ThirtyTwo(AddressingMode32::Address { base, offset })) => {
            let seg = match segment_of32(base) {
                Some(s) => s,
                None => {
                    return None;
                },
            };
            let off = offset.calculate(r32);
            Some(effective_address_in(cpu_mode, seg, off, r32))
        },
        _ => None,
    }
}

/// The low 16 bits of BX, BP, SI or DI in a register file; 0 for no register.
pub open spec fn address_reg16_value(r: RemoteCpuRegisters32, g: Option<Register16>) -> int {
    match g {
        Some(Register16::BX) => (r.ebx as u16) as int,
        Some(Register16::BP) => (r.ebp as u16) as int,
        Some(Register16::SI) => (r.esi as u16) as int,
        Some(Register16::DI) => (r.edi as u16) as int,
        _ => 0,
    }
}

proof fn lemma_wrap16(a: u16, b: u16)
    ensures
        a.wrapping_add(b) as int == (a + b) % 0x10000,
{
}

proof fn lemma_i8_as_u16(d: i8)
    ensures
        (d as u16) as int == (d as int) % 0x10000,
{
    assert(d < 0 ==> d as u16 == (65536 + d) as u16) by (bit_vector);
}

proof fn lemma_i16_as_u16(d: i16)
    ensures
        (d as u16) as int == (d as int) % 0x10000,
{
    assert(d < 0 ==> d as u16 == (65536 + d) as u16) by (bit_vector);
}

proof fn lemma_wrap16_2(a: u16, c: u16, cd: int)
    requires
        c as int == cd % 0x10000,
    ensures
        a.wrapping_add(c) as int == (a + cd) % 0x10000,
{
    vstd::arithmetic::div_mod::lemma_add_mod_noop(a as int, cd, 0x10000);
    assert((a as int) % 0x10000 == a as int);
}

proof fn lemma_wrap16_3(a: u16, b: u16, c: u16, cd: int)
    requires
        c as int == cd % 0x10000,
    ensures
        a.wrapping_add(b).wrapping_add(c) as int == (a + b + cd) % 0x10000,
{
    let ab = a.wrapping_add(b);
    assert(ab as int == (a + b) % 0x10000);
    vstd::arithmetic::div_mod::lemma_add_mod_noop(a + b, cd, 0x10000);
}

/// The offset of a 16-bit addressing mode is the sum of the registers its
/// name lists (BX or BP, then SI or DI) and its sign-extended displacement,
/// wrapping at 16 bits.
pub proof fn law_offset16_sums_named_registers(o: AddressOffset16, r: RemoteCpuRegisters32)
    ensures
        spec_offset16_value(o, r) as int == (address_reg16_value(r, offset16_base(o)) + address_reg16_value(
            r,
            offset16_index(o),
        ) + offset16_disp(o)) % 0x10000,
{
    let bx = r.ebx as u16;
    let bp = r.ebp as u16;
    let si = r.esi as u16;
    let di = r.edi as u16;
    match o {
            AddressOffset16::NoOffset => {},
            AddressOffset16::BxSi => { lemma_wrap16(bx, si); },
            AddressOffset16::BxDi => { lemma_wrap16(bx, di); },
            AddressOffset16::BpSi => { lemma_wrap16(bp, si); },
            AddressOffset16::BpDi => { lemma_wrap16(bp, di); },
            AddressOffset16::Si => {},
            AddressOffset16::Di => {},
            AddressOffset16::Bx => {},
            AddressOffset16::Disp16(d) => { lemma_i16_as_u16(d); },
            AddressOffset16::BxSiDisp8(d) => { lemma_i8_as_u16(d); lemma_wrap16_3(bx, si, d as u16, d as int); },
            AddressOffset16::BxDiDisp8(d) => { lemma_i8_as_u16(d); lemma_wrap16_3(bx, di, d as u16, d as int); },
            AddressOffset16::BpSiDisp8(d) => { lemma_i8_as_u16(d); lemma_wrap16_3(bp, si, d as u16, d as int); },
            AddressOffset16::BpDiDisp8(d) => { lemma_i8_as_u16(d); lemma_wrap16_3(bp, di, d as u16, d as int); },
            AddressOffset16::SiDisp8(d) => { lemma_i8_as_u16(d); lemma_wrap16_2(si, d as u16, d as int); },
            AddressOffset16::DiDisp8(d) => { lemma_i8_as_u16(d); lemma_wrap16_2(di, d as u16, d as int); },
            AddressOffset16::BpDisp8(d) => { lemma_i8_as_u16(d); lemma_wrap16_2(bp, d as u16, d as int); },
            AddressOffset16::BxDisp8(d) => { lemma_i8_as_u16(d); lemma_wrap16_2(bx, d as u16, d as int); },
            AddressOffset16::BxSiDisp16(d) => { lemma_i16_as_u16(d); lemma_wrap16_3(bx, si, d as u16, d as int); },
            AddressOffset16::BxDiDisp16(d) => { lemma_i16_as_u16(d); lemma_wrap16_3(bx, di, d as u16, d as int); },
            AddressOffset16::BpSiDisp16(d) => { lemma_i16_as_u16(d); lemma_wrap16_3(bp, si, d as u16, d as int); },
            AddressOffset16::BpDiDisp16(d) => { lemma_i16_as_u16(d); lemma_wrap16_3(bp, di, d as u16, d as int); },
            AddressOffset16::SiDisp16(d) => { lemma_i16_as_u16(d); lemma_wrap16_2(si, d as u16, d as int); },
            AddressOffset16::DiDisp16(d) => { lemma_i16_as_u16(d); lemma_wrap16_2(di, d as u16, d as int); },
            AddressOffset16::BpDisp16(d) => { lemma_i16_as_u16(d); lemma_wrap16_2(bp, d as u16, d as int); },
            AddressOffset16::BxDisp16(d) => { lemma_i16_as_u16(d); lemma_wrap16_2(bx, d as u16, d as int); },
    }
}

proof fn lemma_i8_as_u32(d: i8)
    ensures
        (d as u32) as int == (d as int) % 0x1_0000_0000,
{
    assert(d < 0 ==> d as u32 == (0x1_0000_0000 + d) as u32) by (bit_vector);
}

proof fn lemma_i32_as_u32(d: i32)
    ensures
        (d as u32) as int == (d as int) % 0x1_0000_0000,
{
    assert(d < 0 ==> d as u32 == (0x1_0000_0000 + d) as u32) by (bit_vector);
}

proof fn lemma_wrap32(a: u32, c: u32, cd: int)
    requires
        c as int == cd % 0x1_0000_0000,
    ensures
        a.wrapping_add(c) as int == (a + cd) % 0x1_0000_0000,
{
    vstd::arithmetic::div_mod::lemma_add_mod_noop(a as int, cd, 0x1_0000_0000);
    assert((a as int) % 0x1_0000_0000 == a as int);
}

/// The offset of a 32-bit addressing mode without a SIB byte is the register
/// it names plus its sign-extended displacement, wrapping at 32 bits.
pub proof fn law_offset32_sums_named_register(o: AddressOffset32, r: RemoteCpuRegisters32)
    requires
        !(o is SibPending || o is Sib || o is SibDisp8 || o is SibDisp32 || o is SibDisp8Ebp || o is SibDisp32Ebp),
    ensures
        spec_offset32_value(o, r) as int == ((match offset32_register(o) {
            Some(g) => reg32_value(r, g) as int,
            None => 0,
        }) + offset32_disp(o)) % 0x1_0000_0000,
{
    match o {
        AddressOffset32::Disp32(d) => { lemma_i32_as_u32(d); },
        AddressOffset32::Eax => {},
        AddressOffset32::EaxDisp8(d) => { lemma_i8_as_u32(d); lemma_wrap32(r.eax, d as u32, d as int); },
        AddressOffset32::EaxDisp32(d) => { lemma_i32_as_u32(d); lemma_wrap32(r.eax, d as u32, d as int); },
        AddressOffset32::Ecx => {},
        AddressOffset32::EcxDisp8(d) => { lemma_i8_as_u32(d); lemma_wrap32(r.ecx, d as u32, d as int); },
        AddressOffset32::EcxDisp32(d) => { lemma_i32_as_u32(d); lemma_wrap32(r.ecx, d as u32, d as int); },
        AddressOffset32::Edx => {},
        AddressOffset32::EdxDisp8(d) => { lemma_i8_as_u32(d); lemma_wrap32(r.edx, d as u32, d as int); },
        AddressOffset32::EdxDisp32(d) => { lemma_i32_as_u32(d); lemma_wrap32(r.edx, d as u32, d as int); },
        AddressOffset32::Ebx => {},
        AddressOffset32::EbxDisp8(d) => { lemma_i8_as_u32(d); lemma_wrap32(r.ebx, d as u32, d as int); },
        AddressOffset32::EbxDisp32(d) => { lemma_i32_as_u32(d); lemma_wrap32(r.ebx, d as u32, d as int); },
        AddressOffset32::EspDisp8(d) => { lemma_i8_as_u32(d); lemma_wrap32(r.esp, d as u32, d as int); },
        AddressOffset32::EspDisp32(d) => { lemma_i32_as_u32(d); lemma_wrap32(r.esp, d as u32, d as int); },
        AddressOffset32::Ebp => {},
        AddressOffset32::EbpDisp8(d) => { lemma_i8_as_u32(d); lemma_wrap32(r.ebp, d as u32, d as int); },
        AddressOffset32::EbpDisp32(d) => { lemma_i32_as_u32(d); lemma_wrap32(r.ebp, d as u32, d as int); },
        AddressOffset32::Esi => {},
        AddressOffset32::EsiDisp8(d) => { lemma_i8_as_u32(d); lemma_wrap32(r.esi, d as u32, d as int); },
        AddressOffset32::EsiDisp32(d) => { lemma_i32_as_u32(d); lemma_wrap32(r.esi, d as u32, d as int); },
        AddressOffset32::Edi => {},
        AddressOffset32::EdiDisp8(d) => { lemma_i8_as_u32(d); lemma_wrap32(r.edi, d as u32, d as int); },
        AddressOffset32::EdiDisp32(d) => { lemma_i32_as_u32(d); lemma_wrap32(r.edi, d as u32, d as int); },
        _ => {},
    }
}

} // verus!
