//! The decisions of test generation: analysing what a test run on the
//! hardware produced, the exception policy, and when repeated runs of one
//! test are consistent enough to keep it.

use crate::bus_ops::{spec_detect_exception, spec_validate, BusOps, BusValidationConfig, BusValidationError, ExceptionError, IvtOrder, TestException};
use crate::config::ExceptionOverride;
use crate::cycles::{get_exception_hint, inta_run_ends_at, MooCycleState, ServerCpuType};
use crate::registers::{
    spec_cx16, spec_flags32, spec_ip16, spec_moo16, spec_off_by_one, spec_segment_base,
    spec_stack_pointer, validate_register_delta, RegisterError, Registers,
};
use crate::cpu_common::Register16;
use crate::size_prefix::slice_contains_u8;
use crate::state::{
    byte_map_entries, changed_entries, code_len, final_fold, final_state_from_ops, init_fold,
    initial_state_from_ops, rows_match, CpuWidth, StateError,
};
use vstd::prelude::*;

verus! {

/// Which exceptions a test may raise: those allowed for all opcodes, and
/// per-opcode overrides.
pub struct ExceptionPolicy {
    pub allowed_exceptions: Vec<u8>,
    pub exception_overrides: Vec<ExceptionOverride>,
}

/// Why a test run was rejected by the policy.
#[derive(Copy, Clone, Debug, PartialEq, Eq, Structural)]
pub enum PolicyError {
    /// The exception is neither allowed in general nor by an override for
    /// the opcode and extension.
    ExceptionNotAllowed(u8),
    /// The disassembler could not decode the instruction, yet it did not
    /// raise #UD (exception 6).
    DisassemblyNotUd,
}

/// Whether an override for this opcode and extension allows the exception.
pub open spec fn override_allows(o: ExceptionOverride, opcode: u16, ext: u8, num: u8) -> bool {
    o.opcode == opcode && o.extension == ext && (o.allow_all || o.exceptions@.contains(num))
}

/// Whether a test of the opcode (and extension, 0 when there is none) may
/// raise the exception.
pub open spec fn spec_exception_allowed(policy: ExceptionPolicy, opcode: u16, ext: Option<u8>, num: u8) -> bool {
    ||| policy.allowed_exceptions@.contains(num)
    ||| overrides_allow(policy.exception_overrides@, opcode, ext_or_zero(ext), num)
}

/// The opcode extension, 0 when there is none.
pub open spec fn ext_or_zero(ext: Option<u8>) -> u8 {
    match ext {
        Some(e) => e,
        None => 0,
    }
}

/// Whether some override allows the exception.
pub open spec fn overrides_allow(overrides: Seq<ExceptionOverride>, opcode: u16, ext: u8, num: u8) -> bool {
    exists|i: int| 0 <= i < overrides.len() && #[trigger] override_allows(overrides[i], opcode, ext, num)
}

/// The policy verdict on a test run: a raised exception must be allowed,
/// and an instruction the disassembler rejected must raise #UD.
pub open spec fn spec_check_policy(
    policy: ExceptionPolicy,
    opcode: u16,
    ext: Option<u8>,
    exception: Option<TestException>,
    disassembly_failed: bool,
) -> Result<(), PolicyError> {
    match exception {
        Some(e) if !spec_exception_allowed(policy, opcode, ext, e.exception_num) => Err(
            PolicyError::ExceptionNotAllowed(e.exception_num),
        ),
        _ => if disassembly_failed && !(exception is Some && exception.unwrap().exception_num == 6) {
            Err(PolicyError::DisassemblyNotUd)
        } else {
            Ok(())
        },
    }
}

impl ExceptionPolicy {
    /// Whether a test of the opcode may raise the exception.
    pub fn exception_allowed(&self, opcode: u16, ext: Option<u8>, num: u8) -> (r: bool)
        ensures
            r == spec_exception_allowed(*self, opcode, ext, num),
    {
        if slice_contains_u8(self.allowed_exceptions.as_slice(), num) {
            return true;
        }
        let ext_match = match ext {
            Some(e) => e,
            None => 0,
        };
        let mut i: usize = 0;
        while i < self.exception_overrides.len()
            invariant
                i <= self.exception_overrides@.len(),
                ext_match == ext_or_zero(ext),
                !self.allowed_exceptions@.contains(num),
                forall|j: int|
                    0 <= j < i ==> !#[trigger] override_allows(
                        self.exception_overrides@[j],
                        opcode,
                        ext_match,
                        num,
                    ),
            decreases self.exception_overrides.len() - i,
        {
            let entry = &self.exception_overrides[i];
            if entry.opcode == opcode && entry.extension == ext_match {
                if entry.allow_all || slice_contains_u8(entry.exceptions.as_slice(), num) {
                    assert(override_allows(self.exception_overrides@[i as int], opcode, ext_match, num));
                    return true;
                }
            }
            i += 1;
        }
        false
    }

    /// Apply the policy to a test run.
    pub fn check(&self, opcode: u16, ext: Option<u8>, exception: Option<TestException>, disassembly_failed: bool) -> (r: Result<(), PolicyError>)
        ensures
            r == spec_check_policy(*self, opcode, ext, exception, disassembly_failed),
    {
        if let Some(e) = exception {
            if !self.exception_allowed(opcode, ext, e.exception_num) {
                return Err(PolicyError::ExceptionNotAllowed(e.exception_num));
            }
        }
        let is_ud = match exception {
            Some(e) => e.exception_num == 6,
            None => false,
        };
        if disassembly_failed && !is_ud {
            Err(PolicyError::DisassemblyNotUd)
        } else {
            Ok(())
        }
    }
}

/// What the instruction under test tells the analysis of its run.
#[derive(Copy, Clone, Debug)]
pub struct InstructionFacts {
    pub opcode: u16,
    pub opcode_ext: Option<u8>,
    pub mnemonic: u16,
    pub op0_kind: u8,
    pub op1_kind: u8,
    pub immediate8: u8,
    pub is_xchg: bool,
    pub disassembly_failed: bool,
}

/// Why a test run was rejected.
#[derive(Copy, Clone, Debug, PartialEq, Eq, Structural)]
pub enum RunError {
    Registers(RegisterError),
    InitialState(StateError),
    Exception(ExceptionError),
    BusValidation(BusValidationError),
    Policy(PolicyError),
    FinalState(StateError),
}

/// The analysis of an accepted test run: its initial and final memory rows,
/// the exception it raised, and the hint the cycles gave about one.
pub struct TestRun {
    pub initial_ram: Vec<[u32; 2]>,
    pub final_ram: Vec<[u32; 2]>,
    pub exception: Option<TestException>,
    pub exception_hint: Option<bool>,
}

/// Where the code of a test starts: the code segment base plus IP.
pub open spec fn code_start(regs: Registers) -> u32 {
    (spec_segment_base(regs, Register16::CS) + spec_ip16(regs)) as u32
}

/// The hint that the cycles give about an exception.
pub open spec fn hint_matches(hint: Option<bool>, server_cpu: ServerCpuType, cycles: Seq<MooCycleState>) -> bool {
    &&& server_cpu != ServerCpuType::Intel80386 ==> hint is None
    &&& server_cpu == ServerCpuType::Intel80386 ==> hint == Some(
        exists|end: int| #[trigger] inta_run_ends_at(cycles, end),
    )
}

/// Analyse what a test run on the hardware produced, in the order of the
/// checks: the final registers (flags bit 1, then the shifted-dump check),
/// the initial memory state rebuilt from the bus cycles, the exception found
/// in them, the bus cycles against the instruction, the exception policy,
/// and the final memory state. The first failing check gives the error.
pub fn analyze_test_run(
    bus_ops: &mut BusOps,
    moo_cycles: &[MooCycleState],
    server_cpu: ServerCpuType,
    initial_regs: &Registers,
    final_regs: &Registers,
    cpu_width: CpuWidth,
    sequence_bytes: &[u8],
    ivt_order: IvtOrder,
    code_address: u32,
    bus_cfg: &BusValidationConfig,
    facts: &InstructionFacts,
    policy: &ExceptionPolicy,
) -> (r: Result<TestRun, RunError>)
    requires
        spec_segment_base(*initial_regs, Register16::CS) + spec_ip16(*initial_regs) + code_len(
            sequence_bytes@,
            0,
        ) <= u32::MAX,
        old(bus_ops).view().len() < i64::MAX,
    ensures
        final(bus_ops).view() == old(bus_ops).view(),
        ({
            let ops = old(bus_ops).view();
            let stack = spec_segment_base(*initial_regs, Register16::SS).wrapping_add(
                spec_stack_pointer(*initial_regs),
            );
            if spec_flags32(*final_regs) & 2 == 0 {
                r == Err::<TestRun, RunError>(RunError::Registers(RegisterError::ReservedFlagClear))
            } else if !facts.is_xchg && match (spec_moo16(*initial_regs), spec_moo16(*final_regs)) {
                (Some(i), Some(f)) => spec_off_by_one(i, f),
                _ => false,
            } {
                r == Err::<TestRun, RunError>(RunError::Registers(RegisterError::OffByOneStore))
            } else {
                match init_fold(
                    ops,
                    ops.len() as int,
                    code_start(*initial_regs),
                    sequence_bytes@,
                    code_len(sequence_bytes@, 0),
                ) {
                    Err(e) => r == Err::<TestRun, RunError>(RunError::InitialState(e)),
                    Ok((m, _)) => match spec_detect_exception(
                        ops,
                        stack,
                        spec_flags32(*final_regs) as u16,
                        ivt_order,
                    ) {
                        Err(e) => r == Err::<TestRun, RunError>(RunError::Exception(e)),
                        Ok(exception) => match spec_validate(
                            ops,
                            *bus_cfg,
                            code_address,
                            spec_cx16(*initial_regs),
                            facts.opcode,
                            facts.mnemonic,
                            facts.op0_kind,
                            facts.op1_kind,
                            facts.immediate8,
                            exception is Some,
                        ) {
                            Err(e) => r == Err::<TestRun, RunError>(RunError::BusValidation(e)),
                            Ok(_) => match spec_check_policy(
                                *policy,
                                facts.opcode,
                                facts.opcode_ext,
                                exception,
                                facts.disassembly_failed,
                            ) {
                                Err(e) => r == Err::<TestRun, RunError>(RunError::Policy(e)),
                                Ok(_) => match final_fold(ops, ops.len() as int, m) {
                                    Err(e) => r == Err::<TestRun, RunError>(RunError::FinalState(e)),
                                    Ok((fm, _)) => r matches Ok(run) && run.exception == exception
                                        && rows_match(run.initial_ram@, m) && rows_match(
                                        run.final_ram@,
                                        changed_entries(fm, m),
                                    ) && hint_matches(run.exception_hint, server_cpu, moo_cycles@),
                                },
                            },
                        },
                    },
                }
            }
        }),
{
    if let Err(e) = final_regs.validate() {
        return Err(RunError::Registers(e));
    }
    if let Err(e) = validate_register_delta(facts.is_xchg, initial_regs, final_regs) {
        return Err(RunError::Registers(e));
    }
    let initial_state = match initial_state_from_ops(
        cpu_width,
        initial_regs.cs_base(),
        initial_regs.ip(),
        sequence_bytes,
        0,
        bus_ops.ops(),
    ) {
        Ok(s) => s,
        Err(e) => {
            return Err(RunError::InitialState(e));
        },
    };
    let exception_hint = get_exception_hint(server_cpu, moo_cycles);
    let final_flags: u16 = match final_regs {
        Registers::V1(r) => r.flags,
        Registers::V2(r) => r.flags,
        Registers::V3A(r) => r.eflags as u16,
        Registers::V3B(r) => r.eflags as u16,
    };
    let exception = match bus_ops.detect_exception(ivt_order, initial_regs.stack_address(), final_flags) {
        Ok(e) => e,
        Err(e) => {
            return Err(RunError::Exception(e));
        },
    };
    if let Err(e) = bus_ops.validate(
        bus_cfg,
        code_address,
        initial_regs.cx(),
        facts.opcode,
        facts.mnemonic,
        facts.op0_kind,
        facts.op1_kind,
        facts.immediate8,
        exception.is_some(),
    ) {
        return Err(RunError::BusValidation(e));
    }
    if let Err(e) = policy.check(facts.opcode, facts.opcode_ext, exception, facts.disassembly_failed) {
        return Err(RunError::Policy(e));
    }
    let initial_ram = initial_state.initial_ram;
    let final_ram = match final_state_from_ops(initial_state.initial_state, bus_ops.ops()) {
        Ok(rows) => rows,
        Err(e) => {
            return Err(RunError::FinalState(e));
        },
    };
    Ok(TestRun { initial_ram, final_ram, exception, exception_hint })
}

/// The progress of repeated runs of one test toward a consistent result.
#[derive(Copy, Clone, Debug, PartialEq, Eq, Structural)]
pub struct ConsistencyState {
    /// How many runs in a row reproduced the run before them.
    pub match_count: usize,
    /// Whether a previous run produced a test to compare with.
    pub have_previous: bool,
}

/// The outcome of one run of a test.
#[derive(Copy, Clone, Debug, PartialEq, Eq, Structural)]
pub enum RunResult {
    /// The run failed.
    Failed,
    /// The run produced a test, which may equal the previous run's test.
    Produced { matches_previous: bool },
}

/// What to do after a run.
#[derive(Copy, Clone, Debug, PartialEq, Eq, Structural)]
pub enum ConsistencyAction {
    /// Keep the test just produced.
    Accept,
    /// Run the test again.
    Retry,
}

/// One step of the consistency check: a failed run forgets the previous
/// test and the count; a produced test that matches the previous one counts
/// one more match, and is accepted once `required_matches - 1` matches are
/// counted; any other produced test becomes the new previous one with the
/// count reset.
pub open spec fn spec_consistency_step(s: ConsistencyState, result: RunResult, required_matches: usize) -> (ConsistencyState, ConsistencyAction) {
    match result {
        RunResult::Failed => (ConsistencyState { match_count: 0, have_previous: false }, ConsistencyAction::Retry),
        RunResult::Produced { matches_previous } => if s.have_previous && matches_previous {
            let c = (s.match_count + 1) as usize;
            if c >= required_matches - 1 {
                (ConsistencyState { match_count: c, have_previous: true }, ConsistencyAction::Accept)
            } else {
                (ConsistencyState { match_count: c, have_previous: true }, ConsistencyAction::Retry)
            }
        } else {
            (ConsistencyState { match_count: 0, have_previous: true }, ConsistencyAction::Retry)
        },
    }
}

impl ConsistencyState {
    /// No run yet.
    pub fn new() -> (r: ConsistencyState)
        ensures
            r == (ConsistencyState { match_count: 0, have_previous: false }),
    {
        ConsistencyState { match_count: 0, have_previous: false }
    }

    /// Take the result of one more run.
    pub fn step(&self, result: RunResult, required_matches: usize) -> (r: (ConsistencyState, ConsistencyAction))
        requires
            required_matches >= 1,
            self.match_count < usize::MAX,
        ensures
            r == spec_consistency_step(*self, result, required_matches),
    {
        match result {
            RunResult::Failed => (ConsistencyState { match_count: 0, have_previous: false }, ConsistencyAction::Retry),
            RunResult::Produced { matches_previous } => {
                if self.have_previous && matches_previous {
                    let c = self.match_count + 1;
                    if c >= required_matches - 1 {
                        (ConsistencyState { match_count: c, have_previous: true }, ConsistencyAction::Accept)
                    } else {
                        (ConsistencyState { match_count: c, have_previous: true }, ConsistencyAction::Retry)
                    }
                } else {
                    (ConsistencyState { match_count: 0, have_previous: true }, ConsistencyAction::Retry)
                }
            },
        }
    }
}

/// The state after a sequence of runs (none of which was accepted before
/// the last).
pub open spec fn run_state(results: Seq<RunResult>, required_matches: usize) -> ConsistencyState
    decreases results.len(),
{
    if results.len() == 0 {
        ConsistencyState { match_count: 0, have_previous: false }
    } else {
        spec_consistency_step(
            run_state(results.drop_last(), required_matches),
            results.last(),
            required_matches,
        ).0
    }
}

/// The number of runs at the end of a sequence that each reproduced the run
/// before them.
pub open spec fn trailing_matches(results: Seq<RunResult>) -> nat
    decreases results.len(),
{
    if results.len() == 0 {
        0
    } else if results.last() == (RunResult::Produced { matches_previous: true }) {
        trailing_matches(results.drop_last()) + 1
    } else {
        0
    }
}

proof fn lemma_run_state_bounds(results: Seq<RunResult>, required_matches: usize)
    requires
        required_matches >= 1,
        results.len() < usize::MAX,
    ensures
        run_state(results, required_matches).match_count <= trailing_matches(results),
        run_state(results, required_matches).have_previous ==> run_state(results, required_matches).match_count
            + 1 <= results.len(),
        !run_state(results, required_matches).have_previous ==> run_state(results, required_matches).match_count
            == 0,
    decreases results.len(),
{
    if results.len() > 0 {
        lemma_run_state_bounds(results.drop_last(), required_matches);
    }
}

/// A test is accepted only after at least `required_matches` runs, the last
/// `required_matches - 1` of which each reproduced the run before it.
pub proof fn law_consistent_test_needs_matching_runs(results: Seq<RunResult>, required_matches: usize)
    requires
        required_matches >= 1,
        1 <= results.len() < usize::MAX,
        spec_consistency_step(
            run_state(results.drop_last(), required_matches),
            results.last(),
            required_matches,
        ).1 == ConsistencyAction::Accept,
    ensures
        results.len() >= required_matches,
        trailing_matches(results) >= required_matches - 1,
        forall|j: int|
            results.len() - (required_matches - 1) <= j < results.len() ==> #[trigger] results[j]
                == (RunResult::Produced { matches_previous: true }),
{
    lemma_run_state_bounds(results.drop_last(), required_matches);
    lemma_run_state_bounds(results, required_matches);
    lemma_trailing_matches_run(results, (required_matches - 1) as nat);
}

proof fn lemma_trailing_le_len(results: Seq<RunResult>)
    ensures
        trailing_matches(results) <= results.len(),
    decreases results.len(),
{
    if results.len() > 0 {
        lemma_trailing_le_len(results.drop_last());
    }
}

proof fn lemma_trailing_matches_run(results: Seq<RunResult>, k: nat)
    requires
        trailing_matches(results) >= k,
    ensures
        forall|j: int| results.len() - k <= j < results.len() ==> #[trigger] results[j] == (RunResult::Produced {
            matches_previous: true,
        }),
    decreases results.len(),
{
    lemma_trailing_le_len(results);
    if k > 0 && results.len() > 0 {
        lemma_trailing_matches_run(results.drop_last(), (k - 1) as nat);
        assert forall|j: int| results.len() - k <= j < results.len() implies #[trigger] results[j]
            == (RunResult::Produced { matches_previous: true }) by {
            if j < results.len() - 1 {
                assert(results.drop_last()[j] == results[j]);
            }
        }
    }
}


/// The seed of a test file: the opcode shifted left by three bits, with the
/// opcode extension's low three bits below it (0 without an extension),
/// xor-ed with the base seed.
pub open spec fn spec_file_seed(opcode: u16, ext: Option<u8>, base_seed: u64) -> u64 {
    (((opcode as u64) << 3u64) | ((ext_or_zero(ext) & 7u8) as u64)) ^ base_seed
}

/// The seed of the test file of an opcode and extension.
pub fn file_seed(opcode: u16, ext: Option<u8>, base_seed: u64) -> (r: u64)
    ensures
        r == spec_file_seed(opcode, ext, base_seed),
{
    let e: u8 = match ext {
        Some(x) => x,
        None => 0,
    };
    let mut seed: u64 = opcode as u64;
    seed = seed << 3u64;
    seed = seed | ((e & 0x07) as u64);
    seed ^ base_seed
}


/// Whether an exception sieve entry applies to a run: same opcode, same
/// exception, and same extension (0 standing for none).
pub open spec fn spec_sieve_applies(entry_opcode: u16, entry_extension: u8, entry_exception: u8, opcode: u16, ext: Option<u8>, exception: u8) -> bool {
    entry_opcode == opcode && entry_exception == exception && entry_extension == ext_or_zero(ext)
}

/// Whether an exception sieve entry applies to a run that raised `exception`.
pub fn sieve_applies(entry_opcode: u16, entry_extension: u8, entry_exception: u8, opcode: u16, ext: Option<u8>, exception: u8) -> (r: bool)
    ensures
        r == spec_sieve_applies(entry_opcode, entry_extension, entry_exception, opcode, ext, exception),
{
    let ext_matches = match ext {
        Some(e) => entry_extension == e,
        None => entry_extension == 0,
    };
    entry_opcode == opcode && entry_exception == exception && ext_matches
}

/// The seed of the sieve roll of a run: the file seed plus the test number
/// plus the number of runs sieved so far.
pub fn sieve_seed(file_seed: u64, test_num: usize, sieve_ct: u32) -> (r: u64)
    requires
        file_seed + test_num + sieve_ct <= u64::MAX,
    ensures
        r == file_seed + test_num + sieve_ct,
{
    file_seed + test_num as u64 + sieve_ct as u64
}

/// Whether to draw another instruction for a test: while a sieved run has
/// sieve attempts left, or generations are left.
pub fn keep_generating(sieved: bool, sieve_ct: u32, max_sieve: u32, gen_num: usize, max_gen: u32) -> (r: bool)
    ensures
        r == ((sieved && sieve_ct < max_sieve) || gen_num < max_gen),
{
    (sieved && sieve_ct < max_sieve) || gen_num < max_gen as usize
}

} // verus!
