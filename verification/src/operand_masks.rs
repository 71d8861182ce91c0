//! How far the memory operands of a generated instruction are masked so
//! that its accesses stay inside the segments it touches.

use crate::iced_codes::{MNEMONIC_CALL, MNEMONIC_JMP, MNEMONIC_LEA, MNEMONIC_POP, MNEMONIC_PUSH};
use vstd::prelude::*;

verus! {

/// The shift that an index scale applies: 3 for 8, 2 for 4, 1 for 2, and 0
/// otherwise.
pub open spec fn spec_scale_shift(scale: u32) -> u32 {
    if scale == 8 {
        3
    } else if scale == 4 {
        2
    } else if scale == 2 {
        1
    } else {
        0
    }
}

/// The shift of an index scale.
pub fn scale_shift(scale: u32) -> (r: u32)
    ensures
        r == spec_scale_shift(scale),
{
    match scale {
        8 => 3,
        4 => 2,
        2 => 1,
        _ => 0,
    }
}

/// A segment limit, or all ones where the register file holds none.
pub open spec fn limit_or_all(limit: Option<u32>) -> u32 {
    match limit {
        Some(l) => l,
        None => 0xFFFF_FFFF,
    }
}

/// The limits of all the segments an instruction touches, and-ed together.
pub open spec fn spec_limit_mask(limits: Seq<Option<u32>>) -> u32
    decreases limits.len(),
{
    if limits.len() == 0 {
        0xFFFF_FFFF
    } else {
        spec_limit_mask(limits.drop_last()) & limit_or_all(limits.last())
    }
}

/// The common mask of the segment limits an instruction touches.
pub fn segment_limit_mask(limits: &[Option<u32>]) -> (r: u32)
    ensures
        r == spec_limit_mask(limits@),
{
    let mut mask: u32 = 0xFFFF_FFFF;
    let mut i: usize = 0;
    while i < limits.len()
        invariant
            i <= limits@.len(),
            mask == spec_limit_mask(limits@.take(i as int)),
        decreases limits.len() - i,
    {
        assert(limits@.take(i as int + 1).drop_last() =~= limits@.take(i as int));
        let l: u32 = match limits[i] {
            Some(l) => l,
            None => 0xFFFF_FFFF,
        };
        mask = mask & l;
        i += 1;
    }
    assert(limits@.take(limits@.len() as int) =~= limits@);
    mask
}

/// The shift applied to the limit when the registers that form an effective
/// address are masked: the scale's shift, plus one for every register after
/// the first.
pub fn ea_mask_shift(scale: u32, ea_register_ct: usize) -> (r: usize)
    requires
        ea_register_ct <= usize::MAX - 3,
    ensures
        r == spec_scale_shift(scale) + if ea_register_ct > 0 { ea_register_ct - 1 } else { 0 },
{
    let extra = if ea_register_ct > 0 { ea_register_ct - 1 } else { 0 };
    scale_shift(scale) as usize + extra
}

/// Which segment a 32-bit displacement is masked against.
#[derive(Copy, Clone, Debug, PartialEq, Eq, Structural)]
pub enum DisplacementSegment {
    /// Mask against the segment with this iced-x86 register value.
    Masked(u8),
    /// LEA computes an address without touching a segment: nothing to mask.
    Unmasked,
    /// A displacement but no segment: the instruction is not usable.
    Missing,
    /// More than one segment is left to choose from: not usable either.
    Multiple,
}

/// Whether a mnemonic is one of the 0xFF group's CALL, JMP, PUSH and POP.
pub open spec fn is_ff_group(mnemonic: u16) -> bool {
    mnemonic == MNEMONIC_CALL || mnemonic == MNEMONIC_JMP || mnemonic == MNEMONIC_PUSH || mnemonic
        == MNEMONIC_POP
}

/// The segments left to mask a displacement against: POP drops its last
/// segment (the stack, which it touches last), and the 0xFF group keeps only
/// its first when more than one remains.
pub open spec fn spec_displacement_segments(segments: Seq<u8>, mnemonic: u16) -> Seq<u8> {
    let s1 = if mnemonic == MNEMONIC_POP && segments.len() > 1 {
        segments.drop_last()
    } else {
        segments
    };
    if is_ff_group(mnemonic) && s1.len() > 1 {
        s1.take(1)
    } else {
        s1
    }
}

/// The segment to mask a 32-bit displacement against.
pub open spec fn spec_displacement_segment(segments: Seq<u8>, mnemonic: u16) -> DisplacementSegment {
    let s = spec_displacement_segments(segments, mnemonic);
    if s.len() > 1 {
        DisplacementSegment::Multiple
    } else if s.len() == 1 {
        DisplacementSegment::Masked(s[0])
    } else if mnemonic == MNEMONIC_LEA {
        DisplacementSegment::Unmasked
    } else {
        DisplacementSegment::Missing
    }
}

/// Choose the segment that a 32-bit displacement is masked against, from
/// the segments the instruction touches, in order.
pub fn displacement_segment(segments: &[u8], mnemonic: u16) -> (r: DisplacementSegment)
    ensures
        r == spec_displacement_segment(segments@, mnemonic),
{
    let n = segments.len();
    let ff = mnemonic == MNEMONIC_CALL || mnemonic == MNEMONIC_JMP || mnemonic == MNEMONIC_PUSH
        || mnemonic == MNEMONIC_POP;
    let len1: usize = if mnemonic == MNEMONIC_POP && n > 1 {
        n - 1
    } else {
        n
    };
    let len2: usize = if ff && len1 > 1 {
        1
    } else {
        len1
    };
    if len2 > 1 {
        DisplacementSegment::Multiple
    } else if len2 == 1 {
        DisplacementSegment::Masked(segments[0])
    } else if mnemonic == MNEMONIC_LEA {
        DisplacementSegment::Unmasked
    } else {
        DisplacementSegment::Missing
    }
}

} // verus!
