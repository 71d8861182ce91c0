//! Bus cycle states captured from the hardware, and the bus operations that
//! they latch.

use crate::bus_ops::{flags_marked, is_paired, BusOps};
use crate::cpu_common::{spec_bus_op_type, BusOp, BusOpType, BusStatusByte};
use vstd::prelude::*;

verus! {

/// One bus cycle as the 80286 server reports it.
#[derive(Copy, Clone, Debug)]
pub struct ServerCycleState {
    pub address_bus: u32,
    pub data_bus: u16,
    pub pins: u16,
    pub bus_control_bits: u8,
    pub bus_command_bits: u8,
    pub cpu_status_bits: u8,
    pub cpu_state_bits: u8,
}

/// A cycle state tagged with the server that produced it.
#[derive(Copy, Clone, Debug)]
pub enum MyServerCycleState {
    State286(ServerCycleState),
}

/// The CPU that the server drives.
#[derive(Copy, Clone, Debug, PartialEq, Eq, Structural)]
pub enum ServerCpuType {
    Intel8088,
    Intel8086,
    NecV20,
    NecV30,
    Intel80188,
    Intel80186,
    Intel80286,
    Intel80386,
}

/// One bus cycle as it is stored in a test file.
#[derive(Copy, Clone, Debug)]
pub struct MooCycleState {
    pub pins0: u8,
    pub address_bus: u32,
    pub segment: u8,
    pub memory_status: u8,
    pub io_status: u8,
    pub pins1: u8,
    pub data_bus: u16,
    pub bus_state: u8,
    pub t_state: u8,
    pub queue_op: u8,
    pub queue_byte: u8,
}

/// The inner state of a tagged cycle.
pub open spec fn inner_state(c: MyServerCycleState) -> ServerCycleState {
    match c {
        MyServerCycleState::State286(s) => s,
    }
}

/// The bus operation that a cycle starts, if its status bits encode one: the
/// low four status bits give the type, and BHE is active low in bit 7 of the
/// command bits.
pub open spec fn spec_cycle_bus_op(c: MyServerCycleState) -> Result<BusOp, ()> {
    let s = inner_state(c);
    match spec_bus_op_type(BusStatusByte::V2(s.cpu_status_bits & 0x0F)) {
        Ok(t) => Ok(
            BusOp {
                idx: 0,
                op_type: t,
                addr: s.address_bus,
                bhe: s.bus_command_bits & 0x80 == 0,
                data: s.data_bus,
                flags: 0,
            },
        ),
        Err(_) => Err(()),
    }
}

/// `op` stored at position `idx` with the given data.
pub open spec fn completed_op(op: BusOp, idx: int, data: u16) -> BusOp {
    BusOp { idx: idx as usize, op_type: op.op_type, addr: op.addr, bhe: op.bhe, data, flags: op.flags }
}

/// The operations latched from the first `k` cycles, and the operation still
/// pending: a cycle that starts an operation latches it (replacing one that
/// was pending); the next cycle that starts none completes the pending one
/// with the data it carries.
pub open spec fn latch_scan(cs: Seq<MyServerCycleState>, k: int) -> (Seq<BusOp>, Option<BusOp>)
    decreases k,
{
    if k <= 0 {
        (Seq::empty(), None)
    } else {
        let (out, latched) = latch_scan(cs, k - 1);
        match spec_cycle_bus_op(cs[k - 1]) {
            Ok(op) => (out, Some(op)),
            Err(_) => match latched {
                Some(op) => (
                    out.push(completed_op(op, out.len() as int, inner_state(cs[k - 1]).data_bus)),
                    None,
                ),
                None => (out, None),
            },
        }
    }
}

/// The operations a cycle list yields: the latched ones, then a pending one
/// with the data it started with.
pub open spec fn latched_bus_ops(cs: Seq<MyServerCycleState>) -> Seq<BusOp> {
    let (out, latched) = latch_scan(cs, cs.len() as int);
    match latched {
        Some(op) => out.push(completed_op(op, out.len() as int, op.data)),
        None => out,
    }
}

/// Whether ten consecutive cycles, ending at position `end` (exclusive), are
/// interrupt acknowledge cycles (bus state 0).
pub open spec fn inta_run_ends_at(cs: Seq<MooCycleState>, end: int) -> bool {
    10 <= end <= cs.len() && forall|j: int| end - 10 <= j < end ==> (#[trigger] cs[j]).bus_state == 0
}

/// Length of the run of interrupt acknowledge cycles that ends the first `k` cycles.
pub open spec fn inta_run(cs: Seq<MooCycleState>, k: int) -> nat
    decreases k,
{
    if k <= 0 {
        0
    } else if cs[k - 1].bus_state == 0 {
        inta_run(cs, k - 1) + 1
    } else {
        0
    }
}

proof fn lemma_inta_run(cs: Seq<MooCycleState>, k: int)
    requires
        0 <= k <= cs.len(),
    ensures
        inta_run(cs, k) <= k,
        forall|j: int| k - inta_run(cs, k) <= j < k ==> (#[trigger] cs[j]).bus_state == 0,
        inta_run(cs, k) < k ==> cs[k - inta_run(cs, k) - 1].bus_state != 0,
    decreases k,
{
    if k > 0 {
        lemma_inta_run(cs, k - 1);
    }
}

impl MyServerCycleState {
    /// The data bus value of the cycle.
    pub fn data_bus(&self) -> (r: u16)
        ensures
            r == inner_state(*self).data_bus,
    {
        match self {
            MyServerCycleState::State286(state) => state.data_bus,
        }
    }
}

impl TryFrom<&MyServerCycleState> for BusOp {
    type Error = ();

    /// The bus operation that a cycle starts.
    fn try_from(wrapper: &MyServerCycleState) -> (r: Result<Self, Self::Error>) {
        match wrapper {
            MyServerCycleState::State286(state) => {
                let status_byte = BusStatusByte::V2(state.cpu_status_bits & 0x0F);
                match BusOpType::try_from(status_byte) {
                    Ok(op_type) => Ok(
                        BusOp {
                            idx: 0,
                            op_type,
                            addr: state.address_bus,
                            bhe: state.bus_command_bits & 0x80 == 0,
                            data: state.data_bus,
                            flags: 0,
                        },
                    ),
                    Err(_) => Err(()),
                }
            },
        }
    }
}

impl vstd::std_specs::convert::TryFromSpecImpl<&MyServerCycleState> for BusOp {
    open spec fn obeys_try_from_spec() -> bool {
        true
    }

    open spec fn try_from_spec(wrapper: &MyServerCycleState) -> Result<Self, ()> {
        spec_cycle_bus_op(*wrapper)
    }
}

impl BusOps {
    /// The bus operations of a cycle list: each cycle that starts an
    /// operation latches it, the next cycle that starts none completes it
    /// with its data, and an operation still pending at the end is kept as
    /// it started; paired memory cycles are then marked.
    pub fn from_cycle_states(cycle_states: &[MyServerCycleState]) -> (r: BusOps)
        ensures
            flags_marked(
                latched_bus_ops(cycle_states@),
                r.view(),
                BusOp::FLAG_PAIRED,
                |i: int| is_paired(latched_bus_ops(cycle_states@), i),
            ),
    {
        let mut bus_ops: Vec<BusOp> = Vec::new();
        let mut latched_bus_op: Option<BusOp> = None;
        let mut i: usize = 0;
        while i < cycle_states.len()
            invariant
                i <= cycle_states.len(),
                bus_ops@.len() <= i,
                (bus_ops@, latched_bus_op) == latch_scan(cycle_states@, i as int),
            decreases cycle_states.len() - i,
        {
            let cycle_state = &cycle_states[i];
            match BusOp::try_from(cycle_state) {
                Ok(bus_op) => {
                    latched_bus_op = Some(bus_op);
                },
                Err(_) => {
                    if let Some(latched) = latched_bus_op {
                        let op = BusOp {
                            idx: bus_ops.len(),
                            op_type: latched.op_type,
                            addr: latched.addr,
                            bhe: latched.bhe,
                            data: cycle_state.data_bus(),
                            flags: latched.flags,
                        };
                        bus_ops.push(op);
                        latched_bus_op = None;
                    }
                },
            }
            i += 1;
        }
        if let Some(latched) = latched_bus_op {
            let op = BusOp {
                idx: bus_ops.len(),
                op_type: latched.op_type,
                addr: latched.addr,
                bhe: latched.bhe,
                data: latched.data,
                flags: latched.flags,
            };
            bus_ops.push(op);
        }
        BusOps::new(bus_ops.as_slice())
    }
}

/// Whether the cycles hint that an exception was raised: on the 80386, ten
/// consecutive interrupt acknowledge cycles; other CPUs give no hint.
pub fn get_exception_hint(server_cpu: ServerCpuType, cycles: &[MooCycleState]) -> (r: Option<bool>)
    ensures
        server_cpu != ServerCpuType::Intel80386 ==> r is None,
        server_cpu == ServerCpuType::Intel80386 ==> r == Some(
            exists|end: int| #[trigger] inta_run_ends_at(cycles@, end),
        ),
{
    match server_cpu {
        ServerCpuType::Intel80386 => {
            let mut inta_count: usize = 0;
            let mut i: usize = 0;
            while i < cycles.len()
                invariant
                    i <= cycles.len(),
                    server_cpu == ServerCpuType::Intel80386,
                    inta_count == inta_run(cycles@, i as int),
                    inta_count < 10,
                    forall|end: int| end <= i ==> !inta_run_ends_at(cycles@, end),
                decreases cycles.len() - i,
            {
                proof {
                    lemma_inta_run(cycles@, i as int);
                }
                if cycles[i].bus_state == 0 {
                    inta_count += 1;
                    if inta_count >= 10 {
                        proof {
                            lemma_inta_run(cycles@, i as int + 1);
                            assert(inta_run_ends_at(cycles@, i as int + 1));
                        }
                        return Some(true);
                    }
                } else {
                    inta_count = 0;
                }
                i += 1;
                proof {
                    lemma_inta_run(cycles@, i as int);
                    assert forall|end: int| end <= i implies !inta_run_ends_at(cycles@, end) by {
                        if end == i && inta_run_ends_at(cycles@, end) {
                            assert(inta_run(cycles@, i as int) < i);
                            let j = i - inta_run(cycles@, i as int) - 1;
                            assert(cycles@[j].bus_state != 0);
                        }
                    }
                }
            }
            Some(false)
        },
        _ => None,
    }
}

} // verus!
