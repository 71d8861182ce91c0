use indexmap::IndexMap;
use test_generator::cpu_common::{BusOp, BusOpType};
use test_generator::state::{bytes_from_bus_op, final_state_from_ops, initial_state_from_ops, CpuWidth, StateError};

fn op(op_type: BusOpType, addr: u32, bhe: bool, data: u16) -> BusOp {
    BusOp { idx: 0, op_type, addr, bhe, data, flags: 0 }
}

#[test]
fn bus_op_bytes_follow_the_lanes() {
    assert_eq!(bytes_from_bus_op(&op(BusOpType::MemRead, 0x10, true, 0x1234)), vec![(0x10, 0x34), (0x11, 0x12)]);
    assert_eq!(bytes_from_bus_op(&op(BusOpType::MemRead, 0x10, false, 0x1234)), vec![(0x10, 0x34)]);
    assert_eq!(bytes_from_bus_op(&op(BusOpType::MemRead, 0x11, true, 0x1234)), vec![(0x11, 0x12)]);
    assert_eq!(bytes_from_bus_op(&op(BusOpType::MemRead, 0x11, false, 0x1234)), vec![]);
}

#[test]
fn initial_state_collects_first_reads() {
    let ops = [
        op(BusOpType::CodeRead, 0x100, true, 0x0A8B),
        op(BusOpType::MemRead, 0x200, true, 0xBEEF),
        op(BusOpType::MemWrite, 0x300, true, 0x1111),
        op(BusOpType::MemRead, 0x300, false, 0x0011),
    ];
    let st = initial_state_from_ops(CpuWidth::Sixteen, 0x100, 0, &[0x8B, 0x0A], 0, &ops).unwrap();
    assert_eq!(st.initial_ram, vec![[0x100, 0x8B], [0x101, 0x0A], [0x200, 0xEF], [0x201, 0xBE]]);
    let final_ram = final_state_from_ops(st.initial_state, &ops).unwrap();
    assert_eq!(final_ram, vec![[0x300, 0x11], [0x301, 0x11]]);
}

#[test]
fn code_fetches_must_agree_with_the_instruction() {
    let ops = [op(BusOpType::CodeRead, 0x100, true, 0x0A8C)];
    assert_eq!(
        initial_state_from_ops(CpuWidth::Sixteen, 0x100, 0, &[0x8B, 0x0A], 0, &ops).err(),
        Some(StateError::CodeFetchMismatch { addr: 0x100, expected: 0x8B, got: 0x8C })
    );
    // Past the instruction the code region holds NOPs.
    let ops = [op(BusOpType::CodeRead, 0x102, true, 0x9090)];
    assert!(initial_state_from_ops(CpuWidth::Sixteen, 0x100, 0, &[0x8B, 0x0A], 4, &ops).is_ok());
}

#[test]
fn final_state_checks_reads() {
    let mut initial: IndexMap<u32, u8> = IndexMap::new();
    initial.insert(0x10, 0x55);
    assert_eq!(
        final_state_from_ops(initial.clone(), &[op(BusOpType::MemRead, 0x10, false, 0x0056)]),
        Err(StateError::ReadMismatch { addr: 0x10, read: 0x56, stored: 0x55 })
    );
    assert_eq!(
        final_state_from_ops(initial.clone(), &[op(BusOpType::MemRead, 0x20, false, 0x0001)]),
        Err(StateError::ReadUninitialized { addr: 0x20, read: 0x01 })
    );
    // Writing the value already there changes nothing.
    assert_eq!(final_state_from_ops(initial, &[op(BusOpType::MemWrite, 0x10, false, 0x0055)]), Ok(vec![]));
}
