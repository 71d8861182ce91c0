//! Configuration records read from the generator's TOML file, and the
//! per-opcode lookups over them.

use vstd::prelude::*;

verus! {

/// Metadata written into every generated test file.
#[derive(Clone, Debug)]
pub struct TestMetadata {
    pub repo: String,
    pub version: String,
    pub syntax_version: u32,
    pub cpu: String,
    pub cpu_detail: String,
    pub generator: String,
    pub author: String,
    pub date: String,
}

/// A test count that applies to an inclusive opcode range.
#[derive(Clone, Debug)]
pub struct CountOverride {
    pub count: usize,
    pub opcode_range: [u16; 2],
}

/// A group-extension range that applies to one opcode.
#[derive(Clone, Debug)]
pub struct GroupExtensionOverride {
    pub opcode: u16,
    pub group_extension_range: [u8; 2],
}

/// The exceptions allowed for one opcode and extension.
#[derive(Clone, Debug)]
pub struct ExceptionOverride {
    pub opcode: u16,
    pub extension: u8,
    pub allow_all: bool,
    pub exceptions: Vec<u8>,
}

/// How validation runs.
#[derive(Clone, Debug)]
pub struct ValidateMode {
    pub attempts: u32,
    pub move_after_validate: bool,
    pub stop_on_error: bool,
}

/// Test execution settings.
#[derive(Clone, Debug)]
pub struct TestExec {
    pub polling_sleep: u32,
    pub validate_count: u32,
    pub max_sieve: u32,
    pub max_gen: u32,
    pub test_retry: u32,
    pub load_retry: u32,
    pub test_timeout: u32,
    pub print_instruction: bool,
    pub print_initial_regs: bool,
    pub print_final_regs: bool,
    pub show_gen_time: bool,
    pub serial_timeout: u32,
    pub serial_debug_default: bool,
    pub serial_debug_test: Option<usize>,
    pub validate_mode: ValidateMode,
}

/// Whether a count override's inclusive range holds the opcode.
pub open spec fn override_covers(o: CountOverride, opcode: u16) -> bool {
    o.opcode_range[0] <= opcode <= o.opcode_range[1]
}

/// The test count for an opcode: the first override whose range holds the
/// opcode caps the default count; without one, the default count.
pub open spec fn spec_test_count(test_count: usize, overrides: Seq<CountOverride>, opcode: u16) -> usize
    decreases overrides.len(),
{
    if overrides.len() == 0 {
        test_count
    } else if override_covers(overrides[0], opcode) {
        if overrides[0].count < test_count {
            overrides[0].count
        } else {
            test_count
        }
    } else {
        spec_test_count(test_count, overrides.drop_first(), opcode)
    }
}

/// The number of tests to generate for an opcode.
pub fn get_test_count(test_count: usize, count_overrides: &[CountOverride], opcode: u16) -> (r: usize)
    ensures
        r == spec_test_count(test_count, count_overrides@, opcode),
{
    let mut i: usize = 0;
    assert(count_overrides@.skip(0) == count_overrides@);
    while i < count_overrides.len()
        invariant
            i <= count_overrides.len(),
            spec_test_count(test_count, count_overrides@.skip(i as int), opcode) == spec_test_count(
                test_count,
                count_overrides@,
                opcode,
            ),
        decreases count_overrides.len() - i,
    {
        let ov = &count_overrides[i];
        assert(count_overrides@.skip(i as int)[0] == *ov);
        if opcode >= ov.opcode_range[0] && opcode <= ov.opcode_range[1] {
            return if ov.count < test_count {
                ov.count
            } else {
                test_count
            };
        }
        assert(count_overrides@.skip(i as int).drop_first() == count_overrides@.skip(i + 1));
        i += 1;
    }
    test_count
}

/// The group-extension range for an opcode: that of the first override for
/// the opcode, else the default range.
pub open spec fn spec_group_extension_range(
    default_range: [u8; 2],
    overrides: Seq<GroupExtensionOverride>,
    opcode: u16,
) -> (u8, u8)
    decreases overrides.len(),
{
    if overrides.len() == 0 {
        (default_range[0], default_range[1])
    } else if overrides[0].opcode == opcode {
        (overrides[0].group_extension_range[0], overrides[0].group_extension_range[1])
    } else {
        spec_group_extension_range(default_range, overrides.drop_first(), opcode)
    }
}

/// The inclusive range of opcode extensions to generate for a group opcode.
pub fn get_group_extension_range(
    group_extension_range: [u8; 2],
    group_extension_overrides: &[GroupExtensionOverride],
    opcode: u16,
) -> (r: (u8, u8))
    ensures
        r == spec_group_extension_range(group_extension_range, group_extension_overrides@, opcode),
{
    let mut i: usize = 0;
    assert(group_extension_overrides@.skip(0) == group_extension_overrides@);
    while i < group_extension_overrides.len()
        invariant
            i <= group_extension_overrides.len(),
            spec_group_extension_range(
                group_extension_range,
                group_extension_overrides@.skip(i as int),
                opcode,
            ) == spec_group_extension_range(group_extension_range, group_extension_overrides@, opcode),
        decreases group_extension_overrides.len() - i,
    {
        let ov = &group_extension_overrides[i];
        assert(group_extension_overrides@.skip(i as int)[0] == *ov);
        if ov.opcode == opcode {
            return (ov.group_extension_range[0], ov.group_extension_range[1]);
        }
        assert(group_extension_overrides@.skip(i as int).drop_first()
            == group_extension_overrides@.skip(i + 1));
        i += 1;
    }
    (group_extension_range[0], group_extension_range[1])
}

} // verus!
