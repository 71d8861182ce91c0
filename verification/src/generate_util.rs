//! Rules that shape a generated test before it runs: the flags image that
//! POPF and IRET load, the rewriting of branch targets that the hardware
//! cannot observe, and the shape of a generated ModR/M byte.

use crate::enums::AddressSize;
use crate::hash_memory::{lemma_dword_bytes, lemma_word_bytes};
use crate::instruction::{apply_extension, spec_apply_extension};
use crate::modrm::{mod_field, rm_field};
use crate::registers::{spec_segment_base, spec_stack_pointer, Registers};
use rand::{Rng, SeedableRng};
use vstd::prelude::*;

verus! {

/// iced-x86 value of the POPF mnemonic.
pub const MNEMONIC_POPF: u16 = 593;
/// iced-x86 value of the POPFD mnemonic.
pub const MNEMONIC_POPFD: u16 = 1616;
/// iced-x86 value of the IRET mnemonic.
pub const MNEMONIC_IRET: u16 = 296;
/// iced-x86 value of the IRETD mnemonic.
pub const MNEMONIC_IRETD: u16 = 1618;

/// The first 16-bit value drawn from the standard generator seeded with
/// `seed`, in the rand version this crate is built with.
pub uninterp spec fn seeded_random_u16(seed: u64) -> u16;

/// The first 32-bit value drawn from the standard generator seeded with
/// `seed`, in the rand version this crate is built with.
pub uninterp spec fn seeded_random_u32(seed: u64) -> u32;

/// Draws one `u16` from `rand::rngs::StdRng::seed_from_u64(seed)` via
/// `Rng::random`. With the rand version this crate is built with, the
/// generator is deterministic in its seed, so the value is named as a
/// function of the seed; nothing else is claimed of it. rand documents that
/// `StdRng` output is not reproducible across platforms, configurations or
/// later versions, so the name holds for this build only.
#[verifier::external_body]
fn random_u16_from_seed(seed: u64) -> (r: u16)
    ensures
        r == seeded_random_u16(seed),
{
    let mut rng = rand::rngs::StdRng::seed_from_u64(seed);
    rng.random::<u16>()
}

/// Draws one `u32` from `rand::rngs::StdRng::seed_from_u64(seed)` via
/// `Rng::random`. With the rand version this crate is built with, the
/// generator is deterministic in its seed, so the value is named as a
/// function of the seed; nothing else is claimed of it. rand documents that
/// `StdRng` output is not reproducible across platforms, configurations or
/// later versions, so the name holds for this build only.
#[verifier::external_body]
fn random_u32_from_seed(seed: u64) -> (r: u32)
    ensures
        r == seeded_random_u32(seed),
{
    let mut rng = rand::rngs::StdRng::seed_from_u64(seed);
    rng.random::<u32>()
}

/// Where a 16-bit flags image must be written so that the instruction loads
/// it: for POPF the top of the stack; for IRET the stack segment base plus
/// SP + 4 (past IP and CS), SP wrapping at 16 bits; none for other
/// instructions.
pub open spec fn spec_flags_target16(mnemonic: u16, regs: Registers) -> Option<u32> {
    if mnemonic == MNEMONIC_POPF {
        Some(spec_segment_base(regs, crate::cpu_common::Register16::SS).wrapping_add(spec_stack_pointer(regs)))
    } else if mnemonic == MNEMONIC_IRET {
        Some(
            (spec_segment_base(regs, crate::cpu_common::Register16::SS) + ((spec_stack_pointer(regs)
                as u16).wrapping_add(4) as u32)) as u32,
        )
    } else {
        None
    }
}

/// Where a 32-bit flags image must be written: for POPFD the top of the
/// stack; for IRETD the stack segment base plus SP + 8 (past EIP and CS), SP
/// wrapping at 16 bits; none for other instructions.
pub open spec fn spec_flags_target32(mnemonic: u16, regs: Registers) -> Option<u32> {
    if mnemonic == MNEMONIC_POPFD {
        Some(spec_segment_base(regs, crate::cpu_common::Register16::SS).wrapping_add(spec_stack_pointer(regs)))
    } else if mnemonic == MNEMONIC_IRETD {
        Some(
            (spec_segment_base(regs, crate::cpu_common::Register16::SS) + ((spec_stack_pointer(regs)
                as u16).wrapping_add(8) as u32)) as u32,
        )
    } else {
        None
    }
}

/// The 16-bit flags image that POPF or IRET loads in a test, and where it
/// goes: a value drawn from the test's seed with only the poppable flags
/// kept (no trap flag), written little-endian; none for other instructions.
pub fn adjust_flags_u16(mnemonic: u16, test_seed: u64, regs: &Registers) -> (r: Option<(u32, Vec<u8>)>)
    requires
        mnemonic == MNEMONIC_IRET ==> spec_segment_base(*regs, crate::cpu_common::Register16::SS)
            + ((spec_stack_pointer(*regs) as u16).wrapping_add(4) as u32) <= u32::MAX,
    ensures
        match spec_flags_target16(mnemonic, *regs) {
            None => r is None,
            Some(addr) => {
                let flags = seeded_random_u16(test_seed) & (Registers::POP_FLAGS_MASK as u16);
                &&& r is Some
                &&& r.unwrap().0 == addr
                &&& r.unwrap().1@ == seq![(flags % 256) as u8, (flags / 256) as u8]
            },
        },
{
    let target = if mnemonic == MNEMONIC_POPF {
        regs.stack_address()
    } else if mnemonic == MNEMONIC_IRET {
        regs.ss_base() + (regs.sp().wrapping_add(4) as u32)
    } else {
        return None;
    };
    let flags = random_u16_from_seed(test_seed) & (Registers::POP_FLAGS_MASK as u16);
    proof {
        lemma_word_bytes(flags);
    }
    let mut bytes: Vec<u8> = Vec::new();
    bytes.push((flags & 0xFF) as u8);
    bytes.push((flags >> 8) as u8);
    Some((target, bytes))
}

/// The 32-bit flags image that POPFD or IRETD loads in a test, and where it
/// goes: a value drawn from the test's seed with only the poppable flags
/// kept, written little-endian; none for other instructions.
pub fn adjust_flags_u32(mnemonic: u16, test_seed: u64, regs: &Registers) -> (r: Option<(u32, Vec<u8>)>)
    requires
        mnemonic == MNEMONIC_IRETD ==> spec_segment_base(*regs, crate::cpu_common::Register16::SS)
            + ((spec_stack_pointer(*regs) as u16).wrapping_add(8) as u32) <= u32::MAX,
    ensures
        match spec_flags_target32(mnemonic, *regs) {
            None => r is None,
            Some(addr) => {
                let flags = seeded_random_u32(test_seed) & Registers::POP_FLAGS_MASK;
                &&& r is Some
                &&& r.unwrap().0 == addr
                &&& r.unwrap().1@ == seq![
                    (flags % 256) as u8,
                    ((flags / 256) % 256) as u8,
                    ((flags / 65536) % 256) as u8,
                    (flags / 16777216) as u8,
                ]
            },
        },
{
    let target = if mnemonic == MNEMONIC_POPFD {
        regs.stack_address()
    } else if mnemonic == MNEMONIC_IRETD {
        regs.ss_base() + (regs.sp().wrapping_add(8) as u32)
    } else {
        return None;
    };
    let flags = random_u32_from_seed(test_seed) & Registers::POP_FLAGS_MASK;
    proof {
        lemma_dword_bytes(flags);
    }
    let mut bytes: Vec<u8> = Vec::new();
    bytes.push((flags & 0xFF) as u8);
    bytes.push(((flags >> 8) & 0xFF) as u8);
    bytes.push(((flags >> 16) & 0xFF) as u8);
    bytes.push(((flags >> 24) & 0xFF) as u8);
    Some((target, bytes))
}

/// The target of a relative branch: the address after the instruction plus
/// the signed displacement, wrapping at 32 bits.
pub open spec fn spec_branch_target(eip: u32, instr_len: u32, rel: i32) -> u32 {
    eip.wrapping_add(instr_len).wrapping_add_signed(rel)
}

/// The target of a relative branch of `rel` from an instruction of
/// `instr_len` bytes at `eip`.
pub fn branch_target(eip: u32, instr_len: u32, rel: i32) -> (r: u32)
    ensures
        r == spec_branch_target(eip, instr_len, rel),
{
    eip.wrapping_add(instr_len).wrapping_add_signed(rel)
}

/// The 8-bit relative displacement a 16-bit branch target has from IP, as a
/// signed value.
pub open spec fn spec_relative8(target: u16, ip: u16) -> i32 {
    (target.wrapping_sub(ip) as i8) as i32
}

/// Whether a 16-bit near branch must be replaced: its 8-bit relative
/// displacement from IP is banned (the hardware cannot see such a jump).
pub fn near_branch16_banned(target: u16, ip: u16, near_branch_ban: &[i32]) -> (r: bool)
    ensures
        r == near_branch_ban@.contains(spec_relative8(target, ip)),
{
    let rel = (target.wrapping_sub(ip) as i8) as i32;
    slice_contains_i32(near_branch_ban, rel)
}

/// Whether a 32-bit near branch must be replaced: its target lies past the
/// code segment limit, or its relative displacement from EIP is banned.
pub fn near_branch32_banned(target: u32, eip: u32, cs_limit: u32, near_branch_ban: &[i32]) -> (r: bool)
    ensures
        r == (target > cs_limit || near_branch_ban@.contains(target.wrapping_sub(eip) as i32)),
{
    let rel = target.wrapping_sub(eip) as i32;
    target > cs_limit || slice_contains_i32(near_branch_ban, rel)
}

/// A far branch offset cut to 16 bits, since the destination segment's size
/// cannot be predicted.
pub fn mask_far_branch32(target: u32) -> (r: u32)
    ensures
        r == target % 0x1_0000,
{
    assert(target & 0x0000_FFFF == target % 0x1_0000) by (bit_vector);
    target & 0x0000_FFFF
}

/// Whether a slice holds a value.
pub fn slice_contains_i32(v: &[i32], x: i32) -> (r: bool)
    ensures
        r == v@.contains(x),
{
    let mut i: usize = 0;
    while i < v.len()
        invariant
            i <= v.len(),
            forall|j: int| 0 <= j < i ==> v@[j] != x,
        decreases v.len() - i,
    {
        if v[i] == x {
            return true;
        }
        i += 1;
    }
    false
}

/// The shape of a generated ModR/M byte, given the random draws: a register
/// form (MOD 11) keeps its R/M; in 32-bit addressing with SIB generation
/// enabled, a memory form gets R/M 100 when a SIB byte was rolled, else the
/// R/M of `rm_roll`; then the opcode extension replaces REG and `mask` is
/// applied.
pub open spec fn spec_shape_modrm(
    modrm: u8,
    size: AddressSize,
    sib_enabled: bool,
    sib_rolled: bool,
    rm_roll: u8,
    extension: Option<u8>,
    mask: u8,
) -> u8 {
    let is_register_form = mod_field(modrm) == 3;
    let gen_sib = !is_register_form && size == AddressSize::ThirtyTwo && sib_enabled && sib_rolled;
    let shaped = if sib_enabled && gen_sib {
        (mod_field(modrm) * 64 + (modrm / 8) % 8 * 8 + 4) as u8
    } else if sib_enabled && !is_register_form {
        (mod_field(modrm) * 64 + (modrm / 8) % 8 * 8 + rm_field(rm_roll)) as u8
    } else {
        modrm
    };
    spec_apply_extension(shaped, extension) & mask
}

/// Facts about replacing the R/M field of a ModR/M byte by masking.
proof fn lemma_modrm_fields(modrm: u8, rm_roll: u8)
    ensures
        (modrm & 0b1100_0000 == 0b1100_0000) == (modrm / 64 == 3),
        (modrm & 0b1111_1000) | 0b0000_0100 == ((modrm / 64) * 64 + (modrm / 8) % 8 * 8 + 4) as u8,
        (modrm & 0b1111_1000) | (rm_roll & 0b0000_0111) == ((modrm / 64) * 64 + (modrm / 8) % 8 * 8
            + rm_roll % 8) as u8,
        ((modrm / 64) * 64 + (modrm / 8) % 8 * 8 + 4) as u8 / 64 == modrm / 64,
        ((modrm / 64) * 64 + (modrm / 8) % 8 * 8 + 4) as u8 % 8 == 4,
        ((modrm / 64) * 64 + (modrm / 8) % 8 * 8 + rm_roll % 8) as u8 / 64 == modrm / 64,
        ((modrm / 64) * 64 + (modrm / 8) % 8 * 8 + rm_roll % 8) as u8 % 8 == rm_roll % 8,
{
    assert((modrm & 0b1100_0000 == 0b1100_0000) == (modrm / 64 == 3) && (modrm & 0b1111_1000)
        | 0b0000_0100 == ((modrm / 64) * 64 + (modrm / 8) % 8 * 8 + 4) as u8 && (modrm
        & 0b1111_1000) | (rm_roll & 0b0000_0111) == ((modrm / 64) * 64 + (modrm / 8) % 8 * 8
        + rm_roll % 8) as u8 && ((modrm / 64) * 64 + (modrm / 8) % 8 * 8 + 4) as u8 / 64 == modrm
        / 64 && ((modrm / 64) * 64 + (modrm / 8) % 8 * 8 + 4) as u8 % 8 == 4 && ((modrm / 64) * 64
        + (modrm / 8) % 8 * 8 + rm_roll % 8) as u8 / 64 == modrm / 64 && ((modrm / 64) * 64 + (
    modrm / 8) % 8 * 8 + rm_roll % 8) as u8 % 8 == rm_roll % 8) by (bit_vector);
}

/// Shape a randomly drawn ModR/M byte. `sib_rolled` is the SIB roll and
/// `rm_roll` a redrawn R/M whose low three bits are not 100.
pub fn shape_modrm(
    modrm: u8,
    size: AddressSize,
    sib_enabled: bool,
    sib_rolled: bool,
    rm_roll: u8,
    extension: Option<u8>,
    mask: u8,
) -> (r: u8)
    ensures
        r == spec_shape_modrm(modrm, size, sib_enabled, sib_rolled, rm_roll, extension, mask),
{
    proof {
        lemma_modrm_fields(modrm, rm_roll);
    }
    let is_register_form = modrm & 0b1100_0000 == 0b1100_0000;
    let gen_sib = !is_register_form && matches!(size, AddressSize::ThirtyTwo) && sib_enabled
        && sib_rolled;
    let mut m = modrm;
    if sib_enabled {
        if gen_sib {
            m = (modrm & 0b1111_1000) | 0b0000_0100;
        } else if !is_register_form {
            m = (modrm & 0b1111_1000) | (rm_roll & 0b0000_0111);
        }
    }
    let e = apply_extension(m, extension);
    e & mask
}

/// A shaped ModR/M byte calls for a SIB byte exactly when a SIB byte was
/// rolled for a 32-bit memory form, provided the mask keeps every bit.
pub proof fn law_shaped_modrm_sib(modrm: u8, sib_rolled: bool, rm_roll: u8, extension: Option<u8>)
    requires
        rm_field(rm_roll) != 4,
    ensures
        crate::instruction::spec_has_sib(
            spec_shape_modrm(modrm, AddressSize::ThirtyTwo, true, sib_rolled, rm_roll, extension, 0xFF),
        ) == (mod_field(modrm) != 3 && sib_rolled),
{
    let shaped = if mod_field(modrm) != 3 && sib_rolled {
        (mod_field(modrm) * 64 + (modrm / 8) % 8 * 8 + 4) as u8
    } else if mod_field(modrm) != 3 {
        (mod_field(modrm) * 64 + (modrm / 8) % 8 * 8 + rm_field(rm_roll)) as u8
    } else {
        modrm
    };
    lemma_modrm_fields(modrm, rm_roll);
    match extension {
        Some(e) => crate::instruction::law_apply_extension_fields(shaped, e),
        None => {},
    }
    let x = spec_apply_extension(shaped, extension);
    assert(x & 0xFF == x) by (bit_vector);
}

} // verus!
