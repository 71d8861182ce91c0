use test_generator::bus_ops::BusOps;
use test_generator::cpu_common::{BusOp, BusOpType};
use test_generator::cycles::{get_exception_hint, MooCycleState, MyServerCycleState, ServerCpuType, ServerCycleState};

fn cycle(status: u8, addr: u32, data: u16, command: u8) -> MyServerCycleState {
    MyServerCycleState::State286(ServerCycleState {
        address_bus: addr,
        data_bus: data,
        pins: 0,
        bus_control_bits: 0,
        bus_command_bits: command,
        cpu_status_bits: status,
        cpu_state_bits: 0,
    })
}

fn moo_cycle(bus_state: u8) -> MooCycleState {
    MooCycleState {
        pins0: 0,
        address_bus: 0,
        segment: 0,
        memory_status: 0,
        io_status: 0,
        pins1: 0,
        data_bus: 0,
        bus_state,
        t_state: 0,
        queue_op: 0,
        queue_byte: 0,
    }
}

#[test]
fn status_bits_give_the_bus_op() {
    // 80286 status 5 is a memory read; BHE is active low in command bit 7.
    let op = BusOp::try_from(&cycle(0xF5, 0x1234, 0xBEEF, 0x00)).unwrap();
    assert_eq!(op.op_type, BusOpType::MemRead);
    assert_eq!(op.addr, 0x1234);
    assert!(op.bhe);
    let op = BusOp::try_from(&cycle(0x06, 0x10, 0, 0x80)).unwrap();
    assert_eq!(op.op_type, BusOpType::MemWrite);
    assert!(!op.bhe);
    assert!(BusOp::try_from(&cycle(0x0F, 0, 0, 0)).is_err());
}

#[test]
fn latched_ops_take_data_of_the_next_cycle() {
    let cycles = [
        cycle(0x0D, 0x100, 0x0000, 0x00), // code fetch starts
        cycle(0x0F, 0x100, 0x1234, 0x00), // passive: completes it with its data
        cycle(0x05, 0x200, 0x0000, 0x00), // memory read starts
        cycle(0x06, 0x300, 0x0000, 0x00), // memory write replaces the pending read
        cycle(0x0F, 0x300, 0xABCD, 0x00), // completes the write
        cycle(0x0F, 0x000, 0x5555, 0x00), // nothing pending
        cycle(0x09, 0x060, 0x00FF, 0x00), // I/O read pending at the end
    ];
    let ops = BusOps::from_cycle_states(&cycles);
    let ops = ops.ops();
    assert_eq!(ops.len(), 3);
    assert_eq!(ops[0].op_type, BusOpType::CodeRead);
    assert_eq!(ops[0].data, 0x1234);
    assert_eq!(ops[0].idx, 0);
    assert_eq!(ops[1].op_type, BusOpType::MemWrite);
    assert_eq!(ops[1].addr, 0x300);
    assert_eq!(ops[1].data, 0xABCD);
    assert_eq!(ops[1].idx, 1);
    assert_eq!(ops[2].op_type, BusOpType::IoRead);
    assert_eq!(ops[2].data, 0x00FF);
    assert_eq!(ops[2].idx, 2);
}

#[test]
fn latched_memory_ops_to_one_address_are_paired() {
    let cycles = [
        cycle(0x05, 0x400, 0, 0),
        cycle(0x0F, 0x400, 0x1111, 0),
        cycle(0x06, 0x400, 0, 0),
        cycle(0x0F, 0x400, 0x2222, 0),
    ];
    let ops = BusOps::from_cycle_states(&cycles);
    assert_eq!(ops.ops()[0].flags & BusOp::FLAG_PAIRED, BusOp::FLAG_PAIRED);
    assert_eq!(ops.ops()[1].flags & BusOp::FLAG_PAIRED, BusOp::FLAG_PAIRED);
}

#[test]
fn data_bus_of_a_cycle() {
    assert_eq!(cycle(0, 0, 0x4242, 0).data_bus(), 0x4242);
}

#[test]
fn ten_inta_cycles_hint_an_exception() {
    let mut cycles: Vec<MooCycleState> = (0..10).map(|_| moo_cycle(0)).collect();
    assert_eq!(get_exception_hint(ServerCpuType::Intel80386, &cycles), Some(true));
    cycles[5] = moo_cycle(3);
    assert_eq!(get_exception_hint(ServerCpuType::Intel80386, &cycles), Some(false));
    cycles.extend((0..10).map(|_| moo_cycle(0)));
    assert_eq!(get_exception_hint(ServerCpuType::Intel80386, &cycles), Some(true));
    assert_eq!(get_exception_hint(ServerCpuType::Intel80286, &cycles), None);
    assert_eq!(get_exception_hint(ServerCpuType::Intel80386, &[]), Some(false));
}
