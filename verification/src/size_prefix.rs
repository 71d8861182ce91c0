//! Operand- and address-size prefixes that a test opcode is generated with.

use crate::enums::{AddressSize, CpuType, InstructionSize, SegmentSize};
use vstd::prelude::*;
use vstd::std_specs::convert::FromSpecImpl;

verus! {

/// The size-override prefixes prepended to a test opcode.
#[derive(Copy, Clone, Debug, PartialEq, Eq, Structural)]
pub enum TestOpcodeSizePrefix {
    NoPrefix,
    OperandSize,
    AddressSize,
    OperandAndAddressSize,
}

/// Whether the prefix set holds the operand-size override.
pub open spec fn has_operand_override(p: TestOpcodeSizePrefix) -> bool {
    p == TestOpcodeSizePrefix::OperandSize || p == TestOpcodeSizePrefix::OperandAndAddressSize
}

/// Whether the prefix set holds the address-size override.
pub open spec fn has_address_override(p: TestOpcodeSizePrefix) -> bool {
    p == TestOpcodeSizePrefix::AddressSize || p == TestOpcodeSizePrefix::OperandAndAddressSize
}

/// The prefix bytes of a prefix set.
pub open spec fn spec_prefix_bytes(p: TestOpcodeSizePrefix) -> Seq<u8> {
    match p {
        TestOpcodeSizePrefix::NoPrefix => seq![],
        TestOpcodeSizePrefix::OperandSize => seq![0x66u8],
        TestOpcodeSizePrefix::AddressSize => seq![0x67u8],
        TestOpcodeSizePrefix::OperandAndAddressSize => seq![0x66u8, 0x67u8],
    }
}

/// The prefix sets to generate an opcode with: on the 80386EX, no prefix,
/// then the operand-size and the address-size override where the opcode can
/// use it and it is not disabled for it, then both if both apply; no prefix
/// set on other CPUs.
pub open spec fn spec_size_prefixes(
    cpu_type: CpuType,
    opcode: u16,
    can_use_operand_size_prefix: bool,
    can_use_address_size_prefix: bool,
    disable_operand_size_opcodes: Seq<u16>,
    disable_address_size_opcodes: Seq<u16>,
) -> Seq<TestOpcodeSizePrefix> {
    if cpu_type != CpuType::Intel80386Ex {
        Seq::empty()
    } else {
        let op = can_use_operand_size_prefix && !disable_operand_size_opcodes.contains(opcode);
        let ad = can_use_address_size_prefix && !disable_address_size_opcodes.contains(opcode);
        seq![TestOpcodeSizePrefix::NoPrefix] + (if op {
            seq![TestOpcodeSizePrefix::OperandSize]
        } else {
            Seq::empty()
        }) + (if ad {
            seq![TestOpcodeSizePrefix::AddressSize]
        } else {
            Seq::empty()
        }) + (if op && ad {
            seq![TestOpcodeSizePrefix::OperandAndAddressSize]
        } else {
            Seq::empty()
        })
    }
}

impl TestOpcodeSizePrefix {
    /// The file name prefix of tests generated with this prefix set.
    pub fn to_filename_prefix(&self) -> (r: &'static str)
        ensures
            *self == TestOpcodeSizePrefix::NoPrefix ==> r@ == ""@,
            *self == TestOpcodeSizePrefix::OperandSize ==> r@ == "66"@,
            *self == TestOpcodeSizePrefix::AddressSize ==> r@ == "67"@,
            *self == TestOpcodeSizePrefix::OperandAndAddressSize ==> r@ == "6766"@,
    {
        match self {
            TestOpcodeSizePrefix::NoPrefix => "",
            TestOpcodeSizePrefix::OperandSize => "66",
            TestOpcodeSizePrefix::AddressSize => "67",
            TestOpcodeSizePrefix::OperandAndAddressSize => "6766",
        }
    }

    /// The prefix sets to generate an opcode with: on the 80386EX, no prefix,
    /// then the operand-size and the address-size override where the opcode
    /// can use it and it is not disabled for it, then both if both apply; no
    /// prefix set on other CPUs.
    pub fn iter(
        cpu_type: CpuType,
        opcode: u16,
        can_use_operand_size_prefix: bool,
        can_use_address_size_prefix: bool,
        disable_operand_size_opcodes: &[u16],
        disable_address_size_opcodes: &[u16],
    ) -> (r: Vec<TestOpcodeSizePrefix>)
        ensures
            r@ == spec_size_prefixes(
                cpu_type,
                opcode,
                can_use_operand_size_prefix,
                can_use_address_size_prefix,
                disable_operand_size_opcodes@,
                disable_address_size_opcodes@,
            ),
    {
        let mut v: Vec<TestOpcodeSizePrefix> = Vec::new();
        match cpu_type {
            CpuType::Intel80386Ex => {
                v.push(TestOpcodeSizePrefix::NoPrefix);
                let use_operand_size = can_use_operand_size_prefix && !slice_contains(
                    disable_operand_size_opcodes,
                    opcode,
                );
                let use_address_size = can_use_address_size_prefix && !slice_contains(
                    disable_address_size_opcodes,
                    opcode,
                );
                let ghost v0 = v@;
                if use_operand_size {
                    v.push(TestOpcodeSizePrefix::OperandSize);
                }
                let ghost v1 = v@;
                if use_address_size {
                    v.push(TestOpcodeSizePrefix::AddressSize);
                }
                let ghost v2 = v@;
                if use_operand_size && use_address_size {
                    v.push(TestOpcodeSizePrefix::OperandAndAddressSize);
                }
                assert(v@ == seq![TestOpcodeSizePrefix::NoPrefix] + (if use_operand_size {
                    seq![TestOpcodeSizePrefix::OperandSize]
                } else {
                    Seq::empty()
                }) + (if use_address_size {
                    seq![TestOpcodeSizePrefix::AddressSize]
                } else {
                    Seq::empty()
                }) + (if use_operand_size && use_address_size {
                    seq![TestOpcodeSizePrefix::OperandAndAddressSize]
                } else {
                    Seq::empty()
                }));
            },
            _ => {},
        }
        v
    }

    /// The operand size an instruction gets with this prefix set in a code
    /// segment of the given size: the operand-size override selects the
    /// other size.
    pub fn relative_opcode_size(&self, size: SegmentSize) -> (r: InstructionSize)
        ensures
            r == if (size == SegmentSize::Sixteen) != has_operand_override(*self) {
                InstructionSize::Sixteen
            } else {
                InstructionSize::ThirtyTwo
            },
    {
        match size {
            SegmentSize::Sixteen => match self {
                TestOpcodeSizePrefix::NoPrefix => InstructionSize::Sixteen,
                TestOpcodeSizePrefix::OperandSize => InstructionSize::ThirtyTwo,
                TestOpcodeSizePrefix::AddressSize => InstructionSize::Sixteen,
                TestOpcodeSizePrefix::OperandAndAddressSize => InstructionSize::ThirtyTwo,
            },
            SegmentSize::ThirtyTwo => match self {
                TestOpcodeSizePrefix::NoPrefix => InstructionSize::ThirtyTwo,
                TestOpcodeSizePrefix::OperandSize => InstructionSize::Sixteen,
                TestOpcodeSizePrefix::AddressSize => InstructionSize::ThirtyTwo,
                TestOpcodeSizePrefix::OperandAndAddressSize => InstructionSize::Sixteen,
            },
        }
    }

    /// The address size an instruction gets with this prefix set in a code
    /// segment of the given size: the address-size override selects the
    /// other size.
    pub fn relative_address_size(&self, size: SegmentSize) -> (r: AddressSize)
        ensures
            r == if (size == SegmentSize::Sixteen) != has_address_override(*self) {
                AddressSize::Sixteen
            } else {
                AddressSize::ThirtyTwo
            },
    {
        match size {
            SegmentSize::Sixteen => match self {
                TestOpcodeSizePrefix::NoPrefix => AddressSize::Sixteen,
                TestOpcodeSizePrefix::OperandSize => AddressSize::Sixteen,
                TestOpcodeSizePrefix::AddressSize => AddressSize::ThirtyTwo,
                TestOpcodeSizePrefix::OperandAndAddressSize => AddressSize::ThirtyTwo,
            },
            SegmentSize::ThirtyTwo => match self {
                TestOpcodeSizePrefix::NoPrefix => AddressSize::ThirtyTwo,
                TestOpcodeSizePrefix::OperandSize => AddressSize::ThirtyTwo,
                TestOpcodeSizePrefix::AddressSize => AddressSize::Sixteen,
                TestOpcodeSizePrefix::OperandAndAddressSize => AddressSize::Sixteen,
            },
        }
    }
}

impl TestOpcodeSizePrefix {
    /// The prefix bytes, operand-size override first.
    pub fn to_bytes(self) -> (r: Vec<u8>)
        ensures
            r@ == spec_prefix_bytes(self),
    {
        let mut v: Vec<u8> = Vec::new();
        match self {
            TestOpcodeSizePrefix::NoPrefix => {},
            TestOpcodeSizePrefix::OperandSize => {
                v.push(0x66);
            },
            TestOpcodeSizePrefix::AddressSize => {
                v.push(0x67);
            },
            TestOpcodeSizePrefix::OperandAndAddressSize => {
                v.push(0x66);
                v.push(0x67);
            },
        }
        assert(v@ == spec_prefix_bytes(self));
        v
    }
}

impl From<TestOpcodeSizePrefix> for Vec<u8> {
    /// The prefix bytes, operand-size override first (see `to_bytes`).
    fn from(prefix: TestOpcodeSizePrefix) -> (r: Vec<u8>) {
        prefix.to_bytes()
    }
}

impl FromSpecImpl<TestOpcodeSizePrefix> for Vec<u8> {
    open spec fn obeys_from_spec() -> bool {
        false
    }

    open spec fn from_spec(prefix: TestOpcodeSizePrefix) -> Vec<u8> {
        arbitrary()
    }
}

/// Whether `v` holds `x`.
pub fn slice_contains(v: &[u16], x: u16) -> (r: bool)
    ensures
        r == v@.contains(x),
{
    let mut i: usize = 0;
    while i < v.len()
        invariant
            i <= v.len(),
            forall|j: int| 0 <= j < i ==> v@[j] != x,
        decreases v.len() - i,
    {
        if v[i] == x {
            return true;
        }
        i += 1;
    }
    false
}

/// Whether `v` holds `x`.
pub fn slice_contains_u8(v: &[u8], x: u8) -> (r: bool)
    ensures
        r == v@.contains(x),
{
    let mut i: usize = 0;
    while i < v.len()
        invariant
            i <= v.len(),
            forall|j: int| 0 <= j < i ==> v@[j] != x,
        decreases v.len() - i,
    {
        if v[i] == x {
            return true;
        }
        i += 1;
    }
    false
}

/// Size overrides toggle: in either segment size, no prefix gives the
/// segment's default sizes, the operand-size override flips only the
/// operand size, the address-size override flips only the address size, and
/// both flip both.
pub proof fn law_size_prefix_toggles(p: TestOpcodeSizePrefix, s: SegmentSize)
    ensures
        has_operand_override(TestOpcodeSizePrefix::OperandSize),
        !has_address_override(TestOpcodeSizePrefix::OperandSize),
        has_address_override(TestOpcodeSizePrefix::AddressSize),
        !has_operand_override(TestOpcodeSizePrefix::AddressSize),
        has_operand_override(TestOpcodeSizePrefix::OperandAndAddressSize) && has_address_override(
            TestOpcodeSizePrefix::OperandAndAddressSize,
        ),
        !has_operand_override(TestOpcodeSizePrefix::NoPrefix) && !has_address_override(
            TestOpcodeSizePrefix::NoPrefix,
        ),
        spec_prefix_bytes(p).contains(0x66u8) == has_operand_override(p),
        spec_prefix_bytes(p).contains(0x67u8) == has_address_override(p),
{
    match p {
        TestOpcodeSizePrefix::NoPrefix => {},
        TestOpcodeSizePrefix::OperandSize => {
            assert(spec_prefix_bytes(p)[0] == 0x66u8);
        },
        TestOpcodeSizePrefix::AddressSize => {
            assert(spec_prefix_bytes(p)[0] == 0x67u8);
        },
        TestOpcodeSizePrefix::OperandAndAddressSize => {
            assert(spec_prefix_bytes(p)[0] == 0x66u8);
            assert(spec_prefix_bytes(p)[1] == 0x67u8);
        },
    }
}

} // verus!
