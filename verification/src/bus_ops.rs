//! Analysis of the bus cycles that a test instruction performed.

use crate::cpu_common::{spec_payload, BusOp, BusOpPayload, BusOpType};
use crate::enums::CpuType;
use crate::iced_codes::{
    io_read_mnemonic, io_string_mnemonic, io_write_mnemonic, is_io_read_mnemonic,
    is_io_string_mnemonic, is_io_write_mnemonic, is_overwrite_mnemonic, is_read_only_mnemonic,
    is_shift_mnemonic, is_string_mnemonic, overwrite_mnemonic, read_only_mnemonic,
    shift_mnemonic, string_mnemonic, MNEMONIC_CALL, MNEMONIC_ENTER, MNEMONIC_LEA,
    MNEMONIC_POPA, MNEMONIC_POPAD, MNEMONIC_PUSHA, MNEMONIC_PUSHAD, OPKIND_IMMEDIATE8,
    OPKIND_MEMORY, OPKIND_NEAR_BRANCH16, OPKIND_NEAR_BRANCH32, OPKIND_REGISTER,
};
use crate::size_prefix::slice_contains;
use crate::hash_memory::{bus16_write, HashMemory};
use std::collections::HashMap;
use vstd::prelude::*;

verus! {

broadcast use vstd::std_specs::hash::group_hash_axioms;

/// Whether a bus cycle reads or writes memory (not code fetch or I/O).
pub open spec fn is_mem_op(op: BusOp) -> bool {
    op.op_type == BusOpType::MemRead || op.op_type == BusOpType::MemWrite
}

/// Number of memory cycles to `addr` among the first `k` cycles of `ops`.
pub open spec fn mem_count(ops: Seq<BusOp>, k: int, addr: u32) -> nat
    decreases k,
{
    if k <= 0 {
        0
    } else {
        mem_count(ops, k - 1, addr) + if is_mem_op(ops[k - 1]) && ops[k - 1].addr == addr {
            1nat
        } else {
            0nat
        }
    }
}

/// A memory cycle is paired when some other memory cycle of the test touches
/// the same address.
pub open spec fn is_paired(ops: Seq<BusOp>, i: int) -> bool {
    is_mem_op(ops[i]) && mem_count(ops, ops.len() as int, ops[i].addr) >= 2
}

/// `new` is `old` with the given flag bits or-ed into the flags of the cycles
/// that `marked` selects, and nothing else changed.
pub open spec fn flags_marked(old: Seq<BusOp>, new: Seq<BusOp>, flag: u8, marked: spec_fn(int) -> bool) -> bool {
    &&& new.len() == old.len()
    &&& forall|i: int|
        0 <= i < old.len() ==> {
            &&& (#[trigger] new[i]).idx == old[i].idx
            &&& new[i].op_type == old[i].op_type
            &&& new[i].addr == old[i].addr
            &&& new[i].bhe == old[i].bhe
            &&& new[i].data == old[i].data
            &&& new[i].flags == if marked(i) {
                old[i].flags | flag
            } else {
                old[i].flags
            }
        }
}

/// State of the stack-push scan after the first `k` cycles: whether a push
/// sequence was found, the next expected push address, and whether the scan
/// stopped.
pub open spec fn push_scan(ops: Seq<BusOp>, stack: u32, k: int) -> (bool, u32, bool)
    decreases k,
{
    if k <= 0 {
        (false, stack.wrapping_sub(2), false)
    } else {
        let (have, next, stopped) = push_scan(ops, stack, k - 1);
        let op = ops[k - 1];
        if stopped || op.op_type != BusOpType::MemWrite || op.addr >= stack {
            (have, next, stopped)
        } else if stack % 2 == 0 {
            if op.addr == next {
                (true, next.wrapping_sub(2), false)
            } else if have {
                (have, next, true)
            } else {
                (have, next, false)
            }
        } else if stack - op.addr < 2 * BusOps::MAX_STACK_SIZE {
            (true, next, false)
        } else {
            (have, next, false)
        }
    }
}

/// Whether cycle `i` is marked as a stack push: a memory write below the
/// stack address that continues the run of word pushes downward from the
/// stack address (aligned stack), or that lies within the maximum stack
/// frame below it (unaligned stack); an aligned scan stops at the first
/// write below the stack that breaks an established run.
pub open spec fn is_push(ops: Seq<BusOp>, stack: u32, i: int) -> bool {
    let (have, next, stopped) = push_scan(ops, stack, i);
    let op = ops[i];
    &&& !stopped
    &&& op.op_type == BusOpType::MemWrite
    &&& op.addr < stack
    &&& if stack % 2 == 0 {
        op.addr == next
    } else {
        stack - op.addr < 2 * BusOps::MAX_STACK_SIZE
    }
}

/// The written-byte map after replaying the first `k` cycles as bus writes
/// into an empty memory.
pub open spec fn replay(ops: Seq<BusOp>, k: int) -> Map<u32, u8>
    decreases k,
{
    if k <= 0 {
        Map::empty()
    } else {
        let op = ops[k - 1];
        bus16_write(replay(ops, k - 1), 0, op.addr, op.bhe, op.data)
    }
}

/// Order in which a CPU reads the interrupt vector and pushes the
/// exception stack frame.
#[derive(Copy, Clone, Debug, PartialEq, Eq, Structural)]
pub enum IvtOrder {
    ReadFirst,
    PushFirst,
}

/// An exception found in a test's bus cycles: its vector number and the
/// address its pushed FLAGS word was found at.
#[derive(Copy, Clone, Debug, PartialEq, Eq, Structural)]
pub struct TestException {
    pub exception_num: u8,
    pub flag_address: u32,
}

/// Why exception detection failed.
#[derive(Copy, Clone, Debug, PartialEq, Eq, Structural)]
pub enum ExceptionError {
    /// The word below the initial stack pointer is not the final FLAGS value.
    FlagsMismatch { expected: u16, found: u16, address: u32 },
}

/// Whether the `w` cycles starting at `p` are all memory writes.
pub open spec fn write_window(ops: Seq<BusOp>, p: int, w: int) -> bool {
    &&& 0 <= p
    &&& p + w <= ops.len()
    &&& forall|j: int| p <= j < p + w ==> (#[trigger] ops[j]).op_type == BusOpType::MemWrite
}

/// Whether cycles `p` and `p + 1` read two ascending, dword-aligned
/// entries of the interrupt vector table (below 0x400).
pub open spec fn ivt_pair(ops: Seq<BusOp>, p: int) -> bool {
    &&& 0 <= p
    &&& p + 1 < ops.len()
    &&& ops[p].op_type == BusOpType::MemRead
    &&& ops[p + 1].op_type == BusOpType::MemRead
    &&& ops[p].addr < 0x400
    &&& ops[p].addr % 4 == 0
    &&& ops[p + 1].addr < 0x400
    &&& ops[p + 1].addr > ops[p].addr
}

/// Position of the last memory write, or -1.
#[verifier::opaque]
pub open spec fn last_write_pos(ops: Seq<BusOp>) -> int {
    if exists|p: int| 0 <= p < ops.len() && (#[trigger] ops[p]).op_type == BusOpType::MemWrite {
        choose|p: int|
            0 <= p < ops.len() && (#[trigger] ops[p]).op_type == BusOpType::MemWrite && forall|q: int|
                p < q < ops.len() ==> ops[q].op_type != BusOpType::MemWrite
    } else {
        -1
    }
}

/// The stack frame width to look for: six writes when the last write is at
/// an odd address (byte-wise pushes), three otherwise.
pub open spec fn frame_width(ops: Seq<BusOp>) -> int {
    if ops[last_write_pos(ops)].addr % 2 == 1 {
        6
    } else {
        3
    }
}

/// Position of the last run of `w` writes, or -1.
#[verifier::opaque]
pub open spec fn last_window(ops: Seq<BusOp>, w: int) -> int {
    if exists|p: int| write_window(ops, p, w) {
        choose|p: int| write_window(ops, p, w) && forall|q: int| p < q ==> !write_window(ops, q, w)
    } else {
        -1
    }
}

/// Position of the last interrupt-vector read pair, or -1.
#[verifier::opaque]
pub open spec fn last_ivt_pair(ops: Seq<BusOp>) -> int {
    if exists|p: int| ivt_pair(ops, p) {
        choose|p: int| ivt_pair(ops, p) && forall|q: int| p < q ==> !ivt_pair(ops, q)
    } else {
        -1
    }
}

/// Exception detection over a test's bus cycles. An exception was taken
/// when the cycles hold a stack frame (a run of writes, the last one found)
/// and a pair of interrupt-vector reads (the last one found), the word just
/// below the initial stack address is the final FLAGS value (else an error),
/// and the vector reads and the frame come in the CPU's order. The
/// exception number is the vector address over four.
#[verifier::opaque]
pub open spec fn spec_detect_exception(
    ops: Seq<BusOp>,
    stack_address: u32,
    final_flags: u16,
    order: IvtOrder,
) -> Result<Option<TestException>, ExceptionError> {
    let lw = last_write_pos(ops);
    let fp = if lw >= 0 {
        last_window(ops, frame_width(ops))
    } else {
        -1
    };
    let ip = last_ivt_pair(ops);
    if fp >= 0 && ip >= 0 {
        let addr: u32 = if stack_address >= 2 {
            (stack_address - 2) as u32
        } else {
            0
        };
        let m = replay(ops, ops.len() as int);
        let found = crate::hash_memory::word_of(
            crate::hash_memory::byte_at(m, 0, addr),
            crate::hash_memory::byte_at(m, 0, (addr + 1) as u32),
        );
        if found != final_flags {
            Err(ExceptionError::FlagsMismatch { expected: final_flags, found, address: addr })
        } else {
            let frame_idx = ops[fp].idx;
            let ivt_idx = ops[ip].idx;
            let taken = match order {
                IvtOrder::ReadFirst => ivt_idx < frame_idx,
                IvtOrder::PushFirst => frame_idx < ivt_idx,
            };
            if taken {
                Ok(Some(TestException { exception_num: (ops[ip].addr / 4) as u8, flag_address: addr }))
            } else {
                Ok(None)
            }
        }
    } else {
        Ok(None)
    }
}

/// The generator settings that the bus-cycle rules depend on.
pub struct BusValidationConfig {
    /// Prefetching is enabled, so the first cycle need not fetch the instruction.
    pub prefetch: bool,
    /// Tests end with a HALT cycle.
    pub halt_termination: bool,
    /// Maximum number of non-fetch cycles of an ordinary instruction.
    pub max_normal_bus_ops: u32,
    /// The CPU the tests run on.
    pub cpu_type: CpuType,
    /// Coprocessor escape opcodes.
    pub esc_opcodes: Vec<u16>,
    /// Mask applied to a shift count.
    pub shift_mask: u16,
    /// A shift by a masked count of zero performs no memory write.
    pub writeless_null_shifts: bool,
}

/// Why a test's bus cycles are inconsistent with its instruction.
#[derive(Copy, Clone, Debug, PartialEq, Eq, Structural)]
pub enum BusValidationError {
    FirstOpNotCodeFetch { found: BusOpType, addr: u32 },
    LastOpNotHalt { found: BusOpType, addr: u32 },
    TooManyBusOps { max: u32, actual: usize },
    MissingOp0Read,
    MissingOp0WriteShiftImm { masked: u16 },
    MissingOp0WriteShiftCx { masked: u16 },
    MissingOp0Write,
    UnexpectedBranchMemoryOps,
    MissingOp1Read,
    IoMemWriteByte { byte: u8 },
    IoMemWriteWord { word: u16 },
    IoMemWritePayload,
    UnexpectedIo,
    UnexpectedIoRead,
    UnexpectedIoWrite,
    IoReadByte { byte: u8 },
    IoReadWord { word: u16 },
    IoReadPayload,
}

/// Number of the first `k` cycles that are neither fetches nor HALT.
pub open spec fn non_code_count(ops: Seq<BusOp>, k: int) -> nat
    decreases k,
{
    if k <= 0 {
        0
    } else {
        non_code_count(ops, k - 1) + if ops[k - 1].op_type != BusOpType::CodeRead
            && ops[k - 1].op_type != BusOpType::Halt {
            1nat
        } else {
            0nat
        }
    }
}

/// Whether some cycle is of the given kind.
pub open spec fn has_op_type(ops: Seq<BusOp>, t: BusOpType) -> bool {
    exists|i: int| 0 <= i < ops.len() && (#[trigger] ops[i]).op_type == t
}

/// The I/O rule a single cycle breaks, if any: memory writes of an I/O
/// string instruction (other than stack pushes) store all-ones data, port
/// reads happen only in instructions that read ports and return all-ones
/// data, and port writes happen only in instructions that write ports.
pub open spec fn io_op_error(op: BusOp, mnemonic: u16) -> Option<BusValidationError> {
    let is_io_read = is_io_read_mnemonic(mnemonic);
    let is_io_write = is_io_write_mnemonic(mnemonic);
    let is_io = is_io_read || is_io_write;
    if op.op_type == BusOpType::MemWrite {
        if is_io_string_mnemonic(mnemonic) && op.flags & BusOp::FLAG_STACK == 0 {
            match spec_payload(op) {
                Ok(BusOpPayload::Byte(b)) => if b != 0xFF {
                    Some(BusValidationError::IoMemWriteByte { byte: b })
                } else {
                    None
                },
                Ok(BusOpPayload::Word(w)) => if w != 0xFFFF {
                    Some(BusValidationError::IoMemWriteWord { word: w })
                } else {
                    None
                },
                Err(_) => Some(BusValidationError::IoMemWritePayload),
            }
        } else {
            None
        }
    } else if op.op_type == BusOpType::IoRead {
        if !is_io {
            Some(BusValidationError::UnexpectedIo)
        } else if is_io_write {
            Some(BusValidationError::UnexpectedIoRead)
        } else {
            match spec_payload(op) {
                Ok(BusOpPayload::Byte(b)) => if b != 0xFF {
                    Some(BusValidationError::IoReadByte { byte: b })
                } else {
                    None
                },
                Ok(BusOpPayload::Word(w)) => if w != 0xFFFF {
                    Some(BusValidationError::IoReadWord { word: w })
                } else {
                    None
                },
                Err(_) => Some(BusValidationError::IoReadPayload),
            }
        }
    } else if op.op_type == BusOpType::IoWrite {
        if !is_io {
            Some(BusValidationError::UnexpectedIo)
        } else if is_io_read {
            Some(BusValidationError::UnexpectedIoWrite)
        } else {
            None
        }
    } else {
        None
    }
}

/// The first I/O rule broken among the first `k` cycles.
pub open spec fn io_error(ops: Seq<BusOp>, k: int, mnemonic: u16) -> Option<BusValidationError>
    decreases k,
{
    if k <= 0 {
        None
    } else {
        match io_error(ops, k - 1, mnemonic) {
            Some(e) => Some(e),
            None => io_op_error(ops[k - 1], mnemonic),
        }
    }
}

/// The checks on the first operand when it is in memory: it is read unless
/// the instruction only overwrites it, and written unless the instruction
/// only reads it or is a shift by a masked count of zero that writes
/// nothing; coprocessor escapes on the 80286 are exempt.
pub open spec fn op0_memory_error(
    has_read: bool,
    has_write: bool,
    esc: bool,
    mnemonic: u16,
    op1: u8,
    immediate8: u8,
    cx: u16,
    shift_mask: u16,
    writeless_null_shifts: bool,
) -> Option<BusValidationError> {
    if !has_read && !esc && !is_overwrite_mnemonic(mnemonic) {
        Some(BusValidationError::MissingOp0Read)
    } else if !has_write && !esc {
        if is_read_only_mnemonic(mnemonic) {
            None
        } else if is_shift_mnemonic(mnemonic) {
            if op1 == OPKIND_IMMEDIATE8 {
                let masked = (immediate8 as u16) & shift_mask;
                if writeless_null_shifts && masked == 0 {
                    None
                } else {
                    Some(BusValidationError::MissingOp0WriteShiftImm { masked })
                }
            } else {
                let masked = cx & shift_mask;
                if writeless_null_shifts && masked == 0 {
                    None
                } else {
                    Some(BusValidationError::MissingOp0WriteShiftCx { masked })
                }
            }
        } else {
            Some(BusValidationError::MissingOp0Write)
        }
    } else {
        None
    }
}

/// The bus-cycle rules of a test, checked in order: the first cycle fetches
/// the instruction (without prefetching); the last cycle is HALT (with halt
/// termination); an ordinary instruction (not a string, I/O string, ENTER,
/// PUSHA or POPA) has at most the maximum of non-fetch cycles; a memory first
/// operand is read and written as its instruction requires; a near branch
/// other than CALL touches no memory unless an exception was taken; a memory
/// second operand is read unless the instruction is LEA; then every cycle
/// obeys the I/O rules.
pub open spec fn spec_validate(
    ops: Seq<BusOp>,
    cfg: BusValidationConfig,
    code_address: u32,
    cx: u16,
    opcode: u16,
    mnemonic: u16,
    op0: u8,
    op1: u8,
    immediate8: u8,
    had_exception: bool,
) -> Result<(), BusValidationError> {
    let has_read = has_op_type(ops, BusOpType::MemRead);
    let has_write = has_op_type(ops, BusOpType::MemWrite);
    let ordinary = !is_string_mnemonic(mnemonic) && !is_io_string_mnemonic(mnemonic) && mnemonic
        != MNEMONIC_ENTER && mnemonic != MNEMONIC_PUSHA && mnemonic != MNEMONIC_PUSHAD && mnemonic
        != MNEMONIC_POPA && mnemonic != MNEMONIC_POPAD;
    let esc = cfg.cpu_type == CpuType::Intel80286 && cfg.esc_opcodes@.contains(opcode);
    if !cfg.prefetch && ops.len() > 0 && !(ops[0].op_type == BusOpType::CodeRead && ops[0].addr
        == code_address) {
        Err(BusValidationError::FirstOpNotCodeFetch { found: ops[0].op_type, addr: ops[0].addr })
    } else if cfg.halt_termination && ops.len() > 0 && ops.last().op_type != BusOpType::Halt {
        Err(BusValidationError::LastOpNotHalt { found: ops.last().op_type, addr: ops.last().addr })
    } else if ordinary && non_code_count(ops, ops.len() as int) > cfg.max_normal_bus_ops {
        Err(
            BusValidationError::TooManyBusOps {
                max: cfg.max_normal_bus_ops,
                actual: non_code_count(ops, ops.len() as int) as usize,
            },
        )
    } else if op0 == OPKIND_MEMORY && op0_memory_error(
        has_read,
        has_write,
        esc,
        mnemonic,
        op1,
        immediate8,
        cx,
        cfg.shift_mask,
        cfg.writeless_null_shifts,
    ) is Some {
        Err(
            op0_memory_error(
                has_read,
                has_write,
                esc,
                mnemonic,
                op1,
                immediate8,
                cx,
                cfg.shift_mask,
                cfg.writeless_null_shifts,
            )->Some_0,
        )
    } else if (op0 == OPKIND_NEAR_BRANCH16 || op0 == OPKIND_NEAR_BRANCH32) && mnemonic
        != MNEMONIC_CALL && !had_exception && (has_read || has_write) {
        Err(BusValidationError::UnexpectedBranchMemoryOps)
    } else if op1 == OPKIND_MEMORY && !has_read && mnemonic != MNEMONIC_LEA {
        Err(BusValidationError::MissingOp1Read)
    } else {
        match io_error(ops, ops.len() as int, mnemonic) {
            Some(e) => Err(e),
            None => Ok(()),
        }
    }
}

/// The bus cycles of one test.
pub struct BusOps {
    ops: Vec<BusOp>,
}

impl BusOps {
    /// Maximum stack size, in words, that an unaligned push scan looks at.
    pub const MAX_STACK_SIZE: usize = 16;

    /// The cycles held.
    pub closed spec fn view(&self) -> Seq<BusOp> {
        self.ops@
    }

    /// Take the cycles and mark the paired memory cycles.
    pub fn new(ops: &[BusOp]) -> (r: Self)
        ensures
            flags_marked(ops@, r.view(), BusOp::FLAG_PAIRED, |i: int| is_paired(ops@, i)),
    {
        let mut v: Vec<BusOp> = Vec::new();
        let mut i: usize = 0;
        while i < ops.len()
            invariant
                i <= ops.len(),
                v@ == ops@.take(i as int),
            decreases ops.len() - i,
        {
            v.push(ops[i]);
            i += 1;
            assert(v@ == ops@.take(i as int));
        }
        assert(v@ == ops@);
        let mut bus_ops = BusOps { ops: v };
        bus_ops.detect_pairs();
        bus_ops
    }

    /// Mark every memory cycle whose address another memory cycle also touches.
    pub fn detect_pairs(&mut self)
        ensures
            flags_marked(old(self).view(), final(self).view(), BusOp::FLAG_PAIRED, |i: int| is_paired(old(self).view(), i)),
    {
        let ghost ops0 = self.ops@;
        let n = self.ops.len();
        let mut counts: HashMap<u32, usize> = HashMap::new();
        let mut i: usize = 0;
        while i < n
            invariant
                n == self.ops.len(),
                self.ops@ == ops0,
                i <= n,
                forall|a: u32|
                    #[trigger] counts@.contains_key(a) <==> mem_count(ops0, i as int, a) > 0,
                forall|a: u32|
                    #[trigger] counts@.contains_key(a) ==> counts@[a] == mem_count(ops0, i as int, a),
                forall|a: u32| #[trigger] mem_count(ops0, i as int, a) <= i,
            decreases n - i,
        {
            let op = self.ops[i];
            if op.op_type == BusOpType::MemRead || op.op_type == BusOpType::MemWrite {
                let c = match counts.get(&op.addr) {
                    Some(c) => *c,
                    None => 0,
                };
                assert forall|a: u32| #[trigger] mem_count(ops0, i + 1, a) <= i + 1 by {
                    assert(mem_count(ops0, i as int, a) <= i);
                }
                counts.insert(op.addr, c + 1);
            } else {
                assert forall|a: u32| #[trigger] mem_count(ops0, i + 1, a) <= i + 1 by {
                    assert(mem_count(ops0, i as int, a) <= i);
                }
            }
            i += 1;
        }
        let mut j: usize = 0;
        while j < n
            invariant
                n == self.ops.len() == ops0.len(),
                j <= n,
                forall|a: u32|
                    #[trigger] counts@.contains_key(a) <==> mem_count(ops0, n as int, a) > 0,
                forall|a: u32|
                    #[trigger] counts@.contains_key(a) ==> counts@[a] == mem_count(ops0, n as int, a),
                forall|k: int| j <= k < n ==> #[trigger] self.ops@[k] == ops0[k],
                forall|k: int|
                    0 <= k < j ==> {
                        &&& (#[trigger] self.ops@[k]).idx == ops0[k].idx
                        &&& self.ops@[k].op_type == ops0[k].op_type
                        &&& self.ops@[k].addr == ops0[k].addr
                        &&& self.ops@[k].bhe == ops0[k].bhe
                        &&& self.ops@[k].data == ops0[k].data
                        &&& self.ops@[k].flags == if is_paired(ops0, k) {
                            ops0[k].flags | BusOp::FLAG_PAIRED
                        } else {
                            ops0[k].flags
                        }
                    },
            decreases n - j,
        {
            let mut op = self.ops[j];
            if op.op_type == BusOpType::MemRead || op.op_type == BusOpType::MemWrite {
                match counts.get(&op.addr) {
                    Some(c) => {
                        if *c >= 2 {
                            op.flags = op.flags | BusOp::FLAG_PAIRED;
                        }
                    },
                    None => {},
                }
            }
            self.ops.set(j, op);
            j += 1;
        }
    }

    /// Mark the memory writes that are probable stack pushes, given the
    /// linear stack address of the initial registers.
    pub fn detect_pushes(&mut self, stack_address: u32)
        ensures
            flags_marked(old(self).view(), final(self).view(), BusOp::FLAG_STACK, |i: int| is_push(old(self).view(), stack_address, i)),
    {
        let ghost ops0 = self.ops@;
        let n = self.ops.len();
        let sp_aligned = stack_address & 0x01 == 0;
        assert((stack_address & 0x01 == 0) == (stack_address % 2 == 0)) by (bit_vector);
        let mut have_stack = false;
        let mut next_push = stack_address.wrapping_sub(2);
        let mut i: usize = 0;
        while i < n
            invariant_except_break
                push_scan(ops0, stack_address, i as int) == (have_stack, next_push, false),
            invariant
                n == self.ops.len() == ops0.len(),
                i <= n,
                sp_aligned == (stack_address % 2 == 0),
                forall|k: int| i <= k < n ==> #[trigger] self.ops@[k] == ops0[k],
                forall|k: int|
                    0 <= k < i ==> {
                        &&& (#[trigger] self.ops@[k]).idx == ops0[k].idx
                        &&& self.ops@[k].op_type == ops0[k].op_type
                        &&& self.ops@[k].addr == ops0[k].addr
                        &&& self.ops@[k].bhe == ops0[k].bhe
                        &&& self.ops@[k].data == ops0[k].data
                        &&& self.ops@[k].flags == if is_push(ops0, stack_address, k) {
                            ops0[k].flags | BusOp::FLAG_STACK
                        } else {
                            ops0[k].flags
                        }
                    },
            ensures
                forall|k: int|
                    0 <= k < n ==> {
                        &&& (#[trigger] self.ops@[k]).idx == ops0[k].idx
                        &&& self.ops@[k].op_type == ops0[k].op_type
                        &&& self.ops@[k].addr == ops0[k].addr
                        &&& self.ops@[k].bhe == ops0[k].bhe
                        &&& self.ops@[k].data == ops0[k].data
                        &&& self.ops@[k].flags == if is_push(ops0, stack_address, k) {
                            ops0[k].flags | BusOp::FLAG_STACK
                        } else {
                            ops0[k].flags
                        }
                    },
            decreases n - i,
        {
            let mut op = self.ops[i];
            if op.op_type == BusOpType::MemWrite && op.addr < stack_address {
                if sp_aligned {
                    if op.addr == next_push {
                        have_stack = true;
                        op.flags = op.flags | BusOp::FLAG_STACK;
                        next_push = next_push.wrapping_sub(2);
                    } else if have_stack {
                        proof {
                            assert forall|k: int| i <= k < n implies !is_push(ops0, stack_address, k) by {
                                if k > i {
                                    lemma_scan_stopped(ops0, stack_address, i as int + 1, k);
                                }
                            }
                        }
                        break;
                    }
                } else {
                    let sp_diff = stack_address - op.addr;
                    if sp_diff < (Self::MAX_STACK_SIZE as u32) * 2 {
                        have_stack = true;
                        op.flags = op.flags | BusOp::FLAG_STACK;
                    }
                }
            }
            self.ops.set(i, op);
            i += 1;
        }
    }

    /// Number of cycles.
    pub fn len(&self) -> (r: usize)
        ensures
            r == self.view().len(),
    {
        self.ops.len()
    }

    /// The cycles.
    pub fn ops(&self) -> (r: &[BusOp])
        ensures
            r@ == self.view(),
    {
        self.ops.as_slice()
    }

    /// Position of the last memory write, or -1.
    fn find_last_write(&self) -> (r: i64)
        requires
            self.ops@.len() < i64::MAX,
        ensures
            r == last_write_pos(self.ops@),
            r >= 0 ==> r < self.ops.len() && self.ops@[r as int].op_type == BusOpType::MemWrite,
            r < 0 ==> r == -1,
    {
        reveal(last_write_pos);
        let mut i = self.ops.len();
        while i > 0
            invariant
                i <= self.ops@.len() < i64::MAX,
                forall|q: int| i <= q < self.ops@.len() ==> (#[trigger] self.ops@[q]).op_type != BusOpType::MemWrite,
            decreases i,
        {
            if self.ops[i - 1].op_type == BusOpType::MemWrite {
                proof {
                    reveal(last_write_pos);
                    let ops = self.ops@;
                    let p = i - 1;
                    assert(0 <= p < ops.len() && ops[p as int].op_type == BusOpType::MemWrite);
                    let c = choose|c: int|
                        0 <= c < ops.len() && (#[trigger] ops[c]).op_type == BusOpType::MemWrite && forall|q: int|
                            c < q < ops.len() ==> ops[q].op_type != BusOpType::MemWrite;
                    assert(0 <= c < ops.len() && ops[c].op_type == BusOpType::MemWrite && forall|q: int|
                        c < q < ops.len() ==> ops[q].op_type != BusOpType::MemWrite);
                    if c < p {
                        assert(ops[p as int].op_type != BusOpType::MemWrite);
                    }
                    if c > p {
                        assert(ops[c].op_type != BusOpType::MemWrite);
                    }
                }
                return (i - 1) as i64;
            }
            i -= 1;
        }
        -1
    }

    /// Whether the `w` cycles at `p` are all memory writes.
    fn is_write_window(&self, p: usize, w: usize) -> (r: bool)
        requires
            p + w <= self.ops.len(),
        ensures
            r == write_window(self.ops@, p as int, w as int),
    {
        let mut j: usize = 0;
        while j < w
            invariant
                j <= w,
                p + w <= self.ops.len(),
                forall|t: int| p <= t < p + j ==> (#[trigger] self.ops@[t]).op_type == BusOpType::MemWrite,
            decreases w - j,
        {
            assert(p + j < self.ops@.len());
            if self.ops[p + j].op_type != BusOpType::MemWrite {
                return false;
            }
            j += 1;
        }
        true
    }

    /// Position of the last run of `w` writes, or -1.
    fn find_last_window(&self, w: usize) -> (r: i64)
        requires
            self.ops@.len() < i64::MAX,
            w > 0,
        ensures
            r == last_window(self.ops@, w as int),
            r >= 0 ==> write_window(self.ops@, r as int, w as int) && r < self.ops.len(),
            r < 0 ==> r == -1,
    {
        reveal(last_window);
        if self.ops.len() < w {
            return -1;
        }
        let mut p = self.ops.len() - w + 1;
        while p > 0
            invariant
                p + w <= self.ops@.len() + 1,
                self.ops@.len() < i64::MAX,
                w > 0,
                forall|q: int| p <= q ==> !#[trigger] write_window(self.ops@, q, w as int),
            decreases p,
        {
            if self.is_write_window(p - 1, w) {
                proof {
                    reveal(last_window);
                    let ops = self.ops@;
                    let q = (p - 1) as int;
                    assert(write_window(ops, q, w as int));
                    let c = choose|c: int|
                        write_window(ops, c, w as int) && forall|t: int| c < t ==> !write_window(ops, t, w as int);
                    assert(write_window(ops, c, w as int) && forall|t: int| c < t ==> !write_window(ops, t, w as int));
                    if c < q {
                        assert(!write_window(ops, q, w as int));
                    }
                    if c > q {
                        assert(!write_window(ops, c, w as int));
                    }
                }
                return (p - 1) as i64;
            }
            p -= 1;
        }
        assert forall|q: int| !#[trigger] write_window(self.ops@, q, w as int) by {
            if q < 0 {
            }
        }
        -1
    }

    /// Position of the last interrupt-vector read pair, or -1.
    fn find_last_ivt_pair(&self) -> (r: i64)
        requires
            self.ops@.len() < i64::MAX,
        ensures
            r == last_ivt_pair(self.ops@),
            r >= 0 ==> ivt_pair(self.ops@, r as int) && r < self.ops.len(),
            r < 0 ==> r == -1,
    {
        reveal(last_ivt_pair);
        if self.ops.len() < 2 {
            assert forall|q: int| !#[trigger] ivt_pair(self.ops@, q) by {}
            return -1;
        }
        let mut p = self.ops.len() - 1;
        while p > 0
            invariant
                p + 1 <= self.ops@.len() < i64::MAX,
                forall|q: int| p <= q ==> !#[trigger] ivt_pair(self.ops@, q),
            decreases p,
        {
            let a = self.ops[p - 1];
            let b = self.ops[p];
            if a.op_type == BusOpType::MemRead && b.op_type == BusOpType::MemRead && a.addr < 0x400
                && a.addr % 4 == 0 && b.addr < 0x400 && b.addr > a.addr {
                proof {
                    reveal(last_ivt_pair);
                    let ops = self.ops@;
                    let q = (p - 1) as int;
                    assert(ivt_pair(ops, q));
                    let c = choose|c: int| ivt_pair(ops, c) && forall|t: int| c < t ==> !ivt_pair(ops, t);
                    assert(ivt_pair(ops, c) && forall|t: int| c < t ==> !ivt_pair(ops, t));
                    if c < q {
                        assert(!ivt_pair(ops, q));
                    }
                    if c > q {
                        assert(!ivt_pair(ops, c));
                    }
                }
                return (p - 1) as i64;
            }
            p -= 1;
        }
        assert forall|q: int| !#[trigger] ivt_pair(self.ops@, q) by {
            if q < 0 {
            }
        }
        -1
    }

    /// Look for an exception in the cycles: a stack frame of writes, a pair
    /// of interrupt-vector reads, the final FLAGS word pushed just below the
    /// initial stack address, and the vector reads and frame in the order the
    /// CPU performs them.
    #[verifier::rlimit(50)]
    pub fn detect_exception(
        &mut self,
        ivt_order: IvtOrder,
        init_stack_address: u32,
        final_flags: u16,
    ) -> (r: Result<Option<TestException>, ExceptionError>)
        requires
            old(self).view().len() < i64::MAX,
        ensures
            final(self).view() == old(self).view(),
            r == spec_detect_exception(old(self).view(), init_stack_address, final_flags, ivt_order),
    {
        reveal(spec_detect_exception);
        let hash_memory = self.hash_memory();
        let sp_address = init_stack_address;
        let lw = self.find_last_write();
        let mut frame_pos: i64 = -1;
        if lw >= 0 {
            let sp_is_odd = self.ops[lw as usize].addr & 1 != 0;
            let a = self.ops[lw as usize].addr;
            assert((a & 1 != 0) == (a % 2 == 1)) by (bit_vector);
            assert(frame_width(self.ops@) == if a % 2 == 1 { 6int } else { 3int });
            frame_pos = if sp_is_odd {
                self.find_last_window(6)
            } else {
                self.find_last_window(3)
            };
            assert(frame_pos == last_window(self.ops@, frame_width(self.ops@)));
        }
        let ivt_pos = self.find_last_ivt_pair();
        if frame_pos >= 0 && ivt_pos >= 0 {
            let first_push_addr = if sp_address >= 2 {
                sp_address - 2
            } else {
                0
            };
            let found_word = hash_memory.read_u16(first_push_addr);
            if final_flags != found_word {
                return Err(
                    ExceptionError::FlagsMismatch {
                        expected: final_flags,
                        found: found_word,
                        address: first_push_addr,
                    },
                );
            }
            let stack_frame_idx = self.ops[frame_pos as usize].idx;
            let ivt_read_idx = self.ops[ivt_pos as usize].idx;
            let have_exception = match ivt_order {
                IvtOrder::ReadFirst => ivt_read_idx < stack_frame_idx,
                IvtOrder::PushFirst => stack_frame_idx < ivt_read_idx,
            };
            if have_exception {
                let exception_num = self.ops[ivt_pos as usize].addr / 4;
                return Ok(
                    Some(
                        TestException {
                            exception_num: exception_num as u8,
                            flag_address: first_push_addr,
                        },
                    ),
                );
            }
        }
        Ok(None)
    }

    /// Whether some cycle is of the given kind.
    fn any_op_type(&self, t: BusOpType) -> (r: bool)
        ensures
            r == has_op_type(self.ops@, t),
    {
        let mut i: usize = 0;
        while i < self.ops.len()
            invariant
                i <= self.ops.len(),
                forall|j: int| 0 <= j < i ==> (#[trigger] self.ops@[j]).op_type != t,
            decreases self.ops.len() - i,
        {
            if self.ops[i].op_type == t {
                assert(self.ops@[i as int].op_type == t);
                return true;
            }
            i += 1;
        }
        false
    }

    /// The I/O rule a cycle breaks, if any.
    fn check_io_op(op: &BusOp, mnemonic: u16) -> (r: Option<BusValidationError>)
        ensures
            r == io_op_error(*op, mnemonic),
    {
        let is_io_read = io_read_mnemonic(mnemonic);
        let is_io_write = io_write_mnemonic(mnemonic);
        let is_io = is_io_read || is_io_write;
        match op.op_type {
            BusOpType::MemWrite => {
                if io_string_mnemonic(mnemonic) && op.flags & BusOp::FLAG_STACK == 0 {
                    match op.payload() {
                        Ok(BusOpPayload::Byte(byte)) => {
                            if byte != 0xFF {
                                return Some(BusValidationError::IoMemWriteByte { byte });
                            }
                        },
                        Ok(BusOpPayload::Word(word)) => {
                            if word != 0xFFFF {
                                return Some(BusValidationError::IoMemWriteWord { word });
                            }
                        },
                        Err(_) => {
                            return Some(BusValidationError::IoMemWritePayload);
                        },
                    }
                }
                None
            },
            BusOpType::IoRead => {
                if !is_io {
                    return Some(BusValidationError::UnexpectedIo);
                }
                if is_io_write {
                    return Some(BusValidationError::UnexpectedIoRead);
                }
                match op.payload() {
                    Ok(BusOpPayload::Byte(byte)) => {
                        if byte != 0xFF {
                            return Some(BusValidationError::IoReadByte { byte });
                        }
                    },
                    Ok(BusOpPayload::Word(word)) => {
                        if word != 0xFFFF {
                            return Some(BusValidationError::IoReadWord { word });
                        }
                    },
                    Err(_) => {
                        return Some(BusValidationError::IoReadPayload);
                    },
                }
                None
            },
            BusOpType::IoWrite => {
                if !is_io {
                    return Some(BusValidationError::UnexpectedIo);
                }
                if is_io_read {
                    return Some(BusValidationError::UnexpectedIoWrite);
                }
                None
            },
            _ => None,
        }
    }

    /// Check the test's bus cycles against its instruction: `code_address` is
    /// the linear address of the instruction, `cx` the initial CX, `opcode`
    /// the test opcode, `mnemonic`, `op0` and `op1` the iced-x86 codes of the
    /// instruction's mnemonic and operand kinds, and `immediate8` its 8-bit
    /// immediate.
    #[verifier::rlimit(50)]
    pub fn validate(
        &self,
        cfg: &BusValidationConfig,
        code_address: u32,
        cx: u16,
        opcode: u16,
        mnemonic: u16,
        op0: u8,
        op1: u8,
        immediate8: u8,
        had_exception: bool,
    ) -> (r: Result<(), BusValidationError>)
        ensures
            r == spec_validate(
                self.view(),
                *cfg,
                code_address,
                cx,
                opcode,
                mnemonic,
                op0,
                op1,
                immediate8,
                had_exception,
            ),
    {
        let ghost ops = self.ops@;
        let has_memory_read = self.any_op_type(BusOpType::MemRead);
        let has_memory_write = self.any_op_type(BusOpType::MemWrite);
        let n = self.ops.len();
        if !cfg.prefetch && n > 0 {
            let first = self.ops[0];
            if !(first.op_type == BusOpType::CodeRead && first.addr == code_address) {
                return Err(
                    BusValidationError::FirstOpNotCodeFetch { found: first.op_type, addr: first.addr },
                );
            }
        }
        if cfg.halt_termination && n > 0 {
            let last = self.ops[n - 1];
            if last.op_type != BusOpType::Halt {
                return Err(BusValidationError::LastOpNotHalt { found: last.op_type, addr: last.addr });
            }
        }
        let ordinary = !string_mnemonic(mnemonic) && !io_string_mnemonic(mnemonic) && mnemonic
            != MNEMONIC_ENTER && mnemonic != MNEMONIC_PUSHA && mnemonic != MNEMONIC_PUSHAD
            && mnemonic != MNEMONIC_POPA && mnemonic != MNEMONIC_POPAD;
        if ordinary {
            let mut count: usize = 0;
            let mut i: usize = 0;
            while i < n
                invariant
                    i <= n == self.ops@.len(),
                    count == non_code_count(self.ops@, i as int),
                    count <= i,
                decreases n - i,
            {
                if self.ops[i].op_type != BusOpType::CodeRead && self.ops[i].op_type
                    != BusOpType::Halt {
                    count += 1;
                }
                i += 1;
            }
            if count > cfg.max_normal_bus_ops as usize {
                return Err(BusValidationError::TooManyBusOps { max: cfg.max_normal_bus_ops, actual: count });
            }
        }
        let esc = match cfg.cpu_type {
            CpuType::Intel80286 => slice_contains(cfg.esc_opcodes.as_slice(), opcode),
            _ => false,
        };
        if op0 == OPKIND_MEMORY {
            if !has_memory_read && !esc && !overwrite_mnemonic(mnemonic) {
                return Err(BusValidationError::MissingOp0Read);
            }
            if !has_memory_write && !esc {
                if read_only_mnemonic(mnemonic) {
                } else if shift_mnemonic(mnemonic) {
                    if op1 == OPKIND_IMMEDIATE8 {
                        let masked_imm = (immediate8 as u16) & cfg.shift_mask;
                        if !(cfg.writeless_null_shifts && masked_imm == 0) {
                            return Err(BusValidationError::MissingOp0WriteShiftImm { masked: masked_imm });
                        }
                    } else {
                        let masked_cx = cx & cfg.shift_mask;
                        if !(cfg.writeless_null_shifts && masked_cx == 0) {
                            return Err(BusValidationError::MissingOp0WriteShiftCx { masked: masked_cx });
                        }
                    }
                } else {
                    return Err(BusValidationError::MissingOp0Write);
                }
            }
        } else if op0 == OPKIND_NEAR_BRANCH16 || op0 == OPKIND_NEAR_BRANCH32 {
            if mnemonic != MNEMONIC_CALL && !had_exception && (has_memory_read || has_memory_write) {
                return Err(BusValidationError::UnexpectedBranchMemoryOps);
            }
        }
        if op1 == OPKIND_MEMORY && !has_memory_read && mnemonic != MNEMONIC_LEA {
            return Err(BusValidationError::MissingOp1Read);
        }
        match self.first_io_error(mnemonic) {
            Some(e) => Err(e),
            None => Ok(()),
        }
    }

    /// The first I/O rule broken by the cycles, if any.
    fn first_io_error(&self, mnemonic: u16) -> (r: Option<BusValidationError>)
        ensures
            r == io_error(self.ops@, self.ops@.len() as int, mnemonic),
    {
        let n = self.ops.len();
        let mut i: usize = 0;
        while i < n
            invariant
                i <= n == self.ops@.len(),
                io_error(self.ops@, i as int, mnemonic) is None,
            decreases n - i,
        {
            match Self::check_io_op(&self.ops[i], mnemonic) {
                Some(e) => {
                    proof {
                        lemma_io_error_stays(self.ops@, i as int + 1, n as int, mnemonic);
                    }
                    return Some(e);
                },
                None => {},
            }
            i += 1;
        }
        None
    }

    /// Replay every cycle as a 16-bit bus write into an empty memory.
    pub fn hash_memory(&self) -> (r: HashMemory)
        ensures
            r.memory@ == replay(self.view(), self.view().len() as int),
            r.uninit_byte == 0,
    {
        let mut memory = HashMemory::new();
        let mut i: usize = 0;
        while i < self.ops.len()
            invariant
                i <= self.ops.len(),
                memory.memory@ == replay(self.ops@, i as int),
                memory.uninit_byte == 0,
            decreases self.ops.len() - i,
        {
            let op = self.ops[i];
            memory.write_bus16(op.addr, op.bhe, op.data);
            i += 1;
        }
        memory
    }
}

/// The first broken I/O rule stays the first.
proof fn lemma_io_error_stays(ops: Seq<BusOp>, j: int, k: int, mnemonic: u16)
    requires
        0 <= j <= k,
        io_error(ops, j, mnemonic) is Some,
    ensures
        io_error(ops, k, mnemonic) == io_error(ops, j, mnemonic),
    decreases k - j,
{
    if j < k {
        lemma_io_error_stays(ops, j, k - 1, mnemonic);
    }
}

/// Once an aligned scan has stopped it stays stopped, and no later cycle is a push.
proof fn lemma_scan_stopped(ops: Seq<BusOp>, stack: u32, j: int, k: int)
    requires
        0 <= j <= k,
        push_scan(ops, stack, j).2,
    ensures
        push_scan(ops, stack, k).2,
        !is_push(ops, stack, k),
    decreases k - j,
{
    if j < k {
        lemma_scan_stopped(ops, stack, j + 1, k);
    }
}

/// The I/O rules never report a missing operand read.
proof fn lemma_io_error_not_missing_read(ops: Seq<BusOp>, k: int, mnemonic: u16)
    ensures
        io_error(ops, k, mnemonic) != Some(BusValidationError::MissingOp1Read),
    decreases k,
{
    if k > 0 {
        lemma_io_error_not_missing_read(ops, k - 1, mnemonic);
    }
}

/// LEA computes an address without reading its memory operand, so a test of
/// LEA is never refused for lacking a read of its second (memory) operand,
/// whatever its bus cycles and configuration.
pub proof fn law_lea_needs_no_operand_read(
    ops: Seq<BusOp>,
    cfg: BusValidationConfig,
    code_address: u32,
    cx: u16,
    opcode: u16,
    op0: u8,
    op1: u8,
    immediate8: u8,
    had_exception: bool,
)
    ensures
        spec_validate(ops, cfg, code_address, cx, opcode, MNEMONIC_LEA, op0, op1, immediate8, had_exception)
            != Err::<(), BusValidationError>(BusValidationError::MissingOp1Read),
{
    lemma_io_error_not_missing_read(ops, ops.len() as int, MNEMONIC_LEA);
}

/// Any other instruction with a memory second operand and no memory read
/// among its cycles is refused: where the same test with a register second
/// operand would pass, the result is a missing read.
pub proof fn law_memory_operand_read_required(
    ops: Seq<BusOp>,
    cfg: BusValidationConfig,
    code_address: u32,
    cx: u16,
    opcode: u16,
    mnemonic: u16,
    op0: u8,
    immediate8: u8,
    had_exception: bool,
)
    requires
        mnemonic != MNEMONIC_LEA,
        op0 != OPKIND_MEMORY,
        !has_op_type(ops, BusOpType::MemRead),
        spec_validate(ops, cfg, code_address, cx, opcode, mnemonic, op0, OPKIND_REGISTER, immediate8, had_exception) is Ok,
    ensures
        spec_validate(ops, cfg, code_address, cx, opcode, mnemonic, op0, OPKIND_MEMORY, immediate8, had_exception)
            == Err::<(), BusValidationError>(BusValidationError::MissingOp1Read),
{
}

} // verus!
