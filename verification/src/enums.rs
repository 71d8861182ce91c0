//! Small enumerations of the generator's configuration.

use vstd::prelude::*;
use vstd::std_specs::convert::FromSpecImpl;

verus! {

/// Whether the tool generates new tests or validates existing ones.
#[derive(Copy, Clone, Debug, PartialEq, Eq, Structural)]
pub enum ExecMode {
    Generate,
    Validate,
}

impl Default for ExecMode {
    /// Generation is the default mode.
    fn default() -> (r: Self)
        ensures
            r == ExecMode::Generate,
    {
        ExecMode::Generate
    }
}

impl ExecMode {
    /// The progress verb for this mode.
    pub fn gerund(&self) -> (r: &'static str)
        ensures
            *self == ExecMode::Generate ==> r@ == "Generating"@,
            *self == ExecMode::Validate ==> r@ == "Validating"@,
    {
        match self {
            ExecMode::Generate => "Generating",
            ExecMode::Validate => "Validating",
        }
    }
}

/// Operand size of an instruction.
#[derive(Copy, Clone, Debug, PartialEq, Eq, Structural)]
pub enum InstructionSize {
    Sixteen,
    ThirtyTwo,
}

impl Default for InstructionSize {
    /// 16-bit is the default operand size.
    fn default() -> (r: Self)
        ensures
            r == InstructionSize::Sixteen,
    {
        InstructionSize::Sixteen
    }
}

/// Address size of an instruction.
#[derive(Copy, Clone, Debug, PartialEq, Eq, Structural)]
pub enum AddressSize {
    Sixteen,
    ThirtyTwo,
}

impl Default for AddressSize {
    /// 16-bit is the default address size.
    fn default() -> (r: Self)
        ensures
            r == AddressSize::Sixteen,
    {
        AddressSize::Sixteen
    }
}

/// The width in bits of an operand size.
pub open spec fn size_bits(size: InstructionSize) -> u32 {
    match size {
        InstructionSize::Sixteen => 16,
        InstructionSize::ThirtyTwo => 32,
    }
}

impl From<InstructionSize> for u32 {
    /// The width in bits.
    fn from(size: InstructionSize) -> (r: u32) {
        match size {
            InstructionSize::Sixteen => 16,
            InstructionSize::ThirtyTwo => 32,
        }
    }
}

impl FromSpecImpl<InstructionSize> for u32 {
    open spec fn obeys_from_spec() -> bool {
        true
    }

    open spec fn from_spec(size: InstructionSize) -> u32 {
        size_bits(size)
    }
}

/// The CPU mode that tests run in.
#[derive(Copy, Clone, Debug, PartialEq, Eq, Structural)]
pub enum CpuMode {
    Real,
    Unreal,
    Protected,
}

impl CpuMode {
    /// The output directory suffix for this mode.
    pub fn to_path_suffix(&self) -> (r: &'static str)
        ensures
            *self == CpuMode::Real ==> r@ == "real"@,
            *self == CpuMode::Unreal ==> r@ == "unreal"@,
            *self == CpuMode::Protected ==> r@ == "protected"@,
    {
        match self {
            CpuMode::Real => "real",
            CpuMode::Unreal => "unreal",
            CpuMode::Protected => "protected",
        }
    }
}

/// How a test instruction's execution is ended.
#[derive(Copy, Clone, Debug, PartialEq, Eq, Structural)]
pub enum TerminationCondition {
    Queue,
    Halt,
}

/// The CPU types that tests can be generated for.
#[derive(Copy, Clone, Debug, PartialEq, Eq, Structural)]
pub enum CpuType {
    Intel8088,
    Intel8086,
    Intel80188,
    Intel80186,
    Intel80286,
    Intel80386Ex,
}

/// The default operand and address size of a code segment.
#[derive(Copy, Clone, Debug, PartialEq, Eq, Structural)]
pub enum SegmentSize {
    Sixteen,
    ThirtyTwo,
}

} // verus!
