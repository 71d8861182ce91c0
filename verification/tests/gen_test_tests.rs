use test_generator::bus_ops::{BusOps, BusValidationConfig, BusValidationError, IvtOrder, TestException};
use test_generator::config::ExceptionOverride;
use test_generator::cpu_common::{BusOp, BusOpType};
use test_generator::cycles::ServerCpuType;
use test_generator::enums::CpuType;
use test_generator::gen_test::{
    analyze_test_run, file_seed, keep_generating, sieve_applies, sieve_seed, ConsistencyAction,
    ConsistencyState, ExceptionPolicy, InstructionFacts, PolicyError, RunError, RunResult,
};
use test_generator::registers::{RegisterError, Registers, RemoteCpuRegistersV1};
use test_generator::state::{CpuWidth, StateError};

fn policy() -> ExceptionPolicy {
    ExceptionPolicy {
        allowed_exceptions: vec![0],
        exception_overrides: vec![
            ExceptionOverride { opcode: 0x62, extension: 0, allow_all: false, exceptions: vec![5] },
            ExceptionOverride { opcode: 0xF6, extension: 6, allow_all: true, exceptions: vec![] },
        ],
    }
}

fn exc(n: u8) -> Option<TestException> {
    Some(TestException { exception_num: n, flag_address: 0 })
}

#[test]
fn exception_policy() {
    let p = policy();
    assert!(p.exception_allowed(0x01, None, 0));
    assert!(p.exception_allowed(0x62, None, 5));
    assert!(!p.exception_allowed(0x62, None, 6));
    assert!(!p.exception_allowed(0x62, Some(1), 5));
    assert!(p.exception_allowed(0xF6, Some(6), 1));
    assert!(!p.exception_allowed(0xF6, Some(7), 1));
    assert_eq!(p.check(0x62, None, exc(5), false), Ok(()));
    assert_eq!(p.check(0x62, None, exc(13), false), Err(PolicyError::ExceptionNotAllowed(13)));
    assert_eq!(p.check(0x01, None, None, true), Err(PolicyError::DisassemblyNotUd));
    let mut ud = policy();
    ud.allowed_exceptions.push(6);
    assert_eq!(ud.check(0x01, None, exc(6), true), Ok(()));
    assert_eq!(p.check(0x01, None, None, false), Ok(()));
}

#[test]
fn consistency_needs_matching_runs() {
    let s = ConsistencyState::new();
    let (s, a) = s.step(RunResult::Produced { matches_previous: false }, 3);
    assert_eq!((s, a), (ConsistencyState { match_count: 0, have_previous: true }, ConsistencyAction::Retry));
    let (s, a) = s.step(RunResult::Produced { matches_previous: true }, 3);
    assert_eq!((s.match_count, a), (1, ConsistencyAction::Retry));
    let (s2, a) = s.step(RunResult::Produced { matches_previous: true }, 3);
    assert_eq!((s2.match_count, a), (2, ConsistencyAction::Accept));
    // A failure forgets everything.
    let (s3, a) = s.step(RunResult::Failed, 3);
    assert_eq!((s3, a), (ConsistencyState { match_count: 0, have_previous: false }, ConsistencyAction::Retry));
    // A mismatch restarts the count.
    let (s4, _) = s.step(RunResult::Produced { matches_previous: false }, 3);
    assert_eq!(s4, ConsistencyState { match_count: 0, have_previous: true });
    // The first produced test is never accepted alone.
    let (_, a) = ConsistencyState::new().step(RunResult::Produced { matches_previous: true }, 1);
    assert_eq!(a, ConsistencyAction::Retry);
}

#[test]
fn seeds_and_loop_decisions() {
    assert_eq!(file_seed(0x88, None, 0), 0x88 << 3);
    assert_eq!(file_seed(0xF6, Some(6), 0), (0xF6 << 3) | 6);
    assert_eq!(file_seed(0xF6, Some(0x0E), 0xFFFF), ((0xF6 << 3) | 6) ^ 0xFFFF);
    assert_eq!(sieve_seed(10, 2, 3), 15);
    assert!(sieve_applies(0x62, 0, 5, 0x62, None, 5));
    assert!(!sieve_applies(0x62, 1, 5, 0x62, None, 5));
    assert!(sieve_applies(0x62, 1, 5, 0x62, Some(1), 5));
    assert!(keep_generating(true, 2, 3, 10, 10));
    assert!(!keep_generating(true, 3, 3, 10, 10));
    assert!(keep_generating(false, 0, 0, 9, 10));
}

fn regs(flags: u16) -> Registers {
    Registers::V1(RemoteCpuRegistersV1 {
        ax: 0x42,
        bx: 0,
        cx: 0,
        dx: 0,
        ss: 0x2000,
        cs: 0x1000,
        ds: 0x3000,
        es: 0,
        sp: 0x100,
        bp: 0,
        si: 0,
        di: 0,
        ip: 0,
        flags,
    })
}

fn run_ops() -> BusOps {
    BusOps::new(&[
        BusOp { idx: 0, op_type: BusOpType::CodeRead, addr: 0x10000, bhe: true, data: 0x0788, flags: 0 },
        BusOp { idx: 1, op_type: BusOpType::MemWrite, addr: 0x30000, bhe: false, data: 0x0042, flags: 0 },
    ])
}

fn bus_cfg() -> BusValidationConfig {
    BusValidationConfig {
        prefetch: false,
        halt_termination: false,
        max_normal_bus_ops: 16,
        cpu_type: CpuType::Intel80286,
        esc_opcodes: vec![],
        shift_mask: 0x1F,
        writeless_null_shifts: true,
    }
}

fn facts(disassembly_failed: bool) -> InstructionFacts {
    InstructionFacts {
        opcode: 0x88,
        opcode_ext: None,
        mnemonic: test_generator::iced_codes::MNEMONIC_MOV,
        op0_kind: 24,
        op1_kind: 0,
        immediate8: 0,
        is_xchg: false,
        disassembly_failed,
    }
}

#[test]
fn analysis_of_a_store() {
    let mut ops = run_ops();
    let r = analyze_test_run(
        &mut ops,
        &[],
        ServerCpuType::Intel80286,
        &regs(2),
        &regs(2),
        CpuWidth::Sixteen,
        &[0x88, 0x07],
        IvtOrder::PushFirst,
        0x10000,
        &bus_cfg(),
        &facts(false),
        &policy(),
    );
    match r {
        Ok(run) => {
            assert_eq!(run.initial_ram, vec![[0x10000, 0x88], [0x10001, 0x07]]);
            assert_eq!(run.final_ram, vec![[0x30000, 0x42]]);
            assert_eq!(run.exception, None);
            assert_eq!(run.exception_hint, None);
        },
        Err(e) => panic!("unexpected rejection: {:?}", e),
    }
}

#[test]
fn analysis_rejections_in_order() {
    let run = |flags: u16, seq: &[u8], code_address: u32, failed: bool| {
        let mut ops = run_ops();
        analyze_test_run(
            &mut ops,
            &[],
            ServerCpuType::Intel80286,
            &regs(2),
            &regs(flags),
            CpuWidth::Sixteen,
            seq,
            IvtOrder::PushFirst,
            code_address,
            &bus_cfg(),
            &facts(failed),
            &policy(),
        )
        .err()
    };
    assert_eq!(run(0, &[0x88, 0x07], 0x10000, false), Some(RunError::Registers(RegisterError::ReservedFlagClear)));
    assert_eq!(
        run(2, &[0x89, 0x07], 0x10000, false),
        Some(RunError::InitialState(StateError::CodeFetchMismatch { addr: 0x10000, expected: 0x89, got: 0x88 }))
    );
    assert_eq!(
        run(2, &[0x88, 0x07], 0x10002, false),
        Some(RunError::BusValidation(BusValidationError::FirstOpNotCodeFetch { found: BusOpType::CodeRead, addr: 0x10000 }))
    );
    assert_eq!(run(2, &[0x88, 0x07], 0x10000, true), Some(RunError::Policy(PolicyError::DisassemblyNotUd)));
}
