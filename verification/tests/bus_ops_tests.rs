use test_generator::bus_ops::{BusOps, BusValidationConfig, BusValidationError, ExceptionError, IvtOrder, TestException};
use test_generator::cpu_common::{BusOp, BusOpPayload, BusOpType, BusStatusByte};
use test_generator::enums::CpuType;
use test_generator::iced_codes::{MNEMONIC_CMP, MNEMONIC_IN, MNEMONIC_MOV};

fn op(idx: usize, op_type: BusOpType, addr: u32, bhe: bool, data: u16) -> BusOp {
    BusOp { idx, op_type, addr, bhe, data, flags: 0 }
}

fn cfg() -> BusValidationConfig {
    BusValidationConfig {
        prefetch: false,
        halt_termination: false,
        max_normal_bus_ops: 4,
        cpu_type: CpuType::Intel80286,
        esc_opcodes: vec![0xD8],
        shift_mask: 0x1F,
        writeless_null_shifts: true,
    }
}

#[test]
fn status_bytes_decode_per_family() {
    assert_eq!(BusOpType::try_from(BusStatusByte::V1(0x00)), Ok(BusOpType::CodeRead));
    assert_eq!(BusOpType::try_from(BusStatusByte::V1(0x0E)), Ok(BusOpType::MemWrite));
    assert_eq!(BusOpType::try_from(BusStatusByte::V2(0x0D)), Ok(BusOpType::CodeRead));
    assert_eq!(BusOpType::try_from(BusStatusByte::V2(0x0A)), Ok(BusOpType::IoWrite));
    assert_eq!(BusOpType::try_from(BusStatusByte::V3(0x07)), Ok(BusOpType::MemWrite));
    assert_eq!(BusOpType::try_from(BusStatusByte::V3(0x00)), Err(()));
}

#[test]
fn payload_lanes() {
    assert_eq!(op(0, BusOpType::MemRead, 0x10, true, 0x1234).payload(), Ok(BusOpPayload::Word(0x1234)));
    assert_eq!(op(0, BusOpType::MemRead, 0x10, false, 0x1234).payload(), Ok(BusOpPayload::Byte(0x34)));
    assert_eq!(op(0, BusOpType::MemRead, 0x11, true, 0x1234).payload(), Ok(BusOpPayload::Byte(0x12)));
    assert_eq!(op(0, BusOpType::MemRead, 0x11, false, 0x1234).payload(), Err(()));
}

#[test]
fn pairs_and_pushes_are_flagged() {
    let ops = [
        op(0, BusOpType::MemRead, 0x500, true, 0),
        op(1, BusOpType::MemWrite, 0x500, true, 0),
        op(2, BusOpType::MemWrite, 0x0FFE, true, 0),
        op(3, BusOpType::MemWrite, 0x0FFC, true, 0),
        op(4, BusOpType::IoRead, 0x500, true, 0),
    ];
    let mut b = BusOps::new(&ops);
    assert_eq!(b.len(), 5);
    assert_eq!(b.ops()[0].flags & BusOp::FLAG_PAIRED, BusOp::FLAG_PAIRED);
    assert_eq!(b.ops()[1].flags & BusOp::FLAG_PAIRED, BusOp::FLAG_PAIRED);
    assert_eq!(b.ops()[2].flags & BusOp::FLAG_PAIRED, 0);
    assert_eq!(b.ops()[4].flags & BusOp::FLAG_PAIRED, 0);
    b.detect_pushes(0x1000);
    assert_eq!(b.ops()[2].flags & BusOp::FLAG_STACK, BusOp::FLAG_STACK);
    assert_eq!(b.ops()[3].flags & BusOp::FLAG_STACK, BusOp::FLAG_STACK);
    assert_eq!(b.ops()[1].flags & BusOp::FLAG_STACK, 0);
}

#[test]
fn replayed_writes_fill_memory() {
    let b = BusOps::new(&[op(0, BusOpType::MemWrite, 0x20, true, 0xBEEF), op(1, BusOpType::MemWrite, 0x23, true, 0x4200)]);
    let mem = b.hash_memory();
    assert_eq!(mem.read_u16(0x20), 0xBEEF);
    assert_eq!(mem.read_u8(0x23), 0x42);
}

fn exception_ops(flags: u16) -> Vec<BusOp> {
    vec![
        op(0, BusOpType::CodeRead, 0x10000, true, 0x0000),
        op(1, BusOpType::MemWrite, 0x0FFE, true, flags),
        op(2, BusOpType::MemWrite, 0x0FFC, true, 0x1000),
        op(3, BusOpType::MemWrite, 0x0FFA, true, 0x0002),
        op(4, BusOpType::MemRead, 0x0018, true, 0x0000),
        op(5, BusOpType::MemRead, 0x001A, true, 0x0000),
    ]
}

#[test]
fn exception_frame_and_vector_reads_give_the_exception() {
    let mut b = BusOps::new(&exception_ops(0x0002));
    assert_eq!(
        b.detect_exception(IvtOrder::PushFirst, 0x1000, 0x0002),
        Ok(Some(TestException { exception_num: 6, flag_address: 0x0FFE }))
    );
    // In the other order the frame is not an exception frame.
    assert_eq!(b.detect_exception(IvtOrder::ReadFirst, 0x1000, 0x0002), Ok(None));
    // The pushed flags must be the final flags.
    assert_eq!(
        b.detect_exception(IvtOrder::PushFirst, 0x1000, 0x0046),
        Err(ExceptionError::FlagsMismatch { expected: 0x0046, found: 0x0002, address: 0x0FFE })
    );
    let mut plain = BusOps::new(&[op(0, BusOpType::CodeRead, 0, true, 0)]);
    assert_eq!(plain.detect_exception(IvtOrder::PushFirst, 0x1000, 0x0002), Ok(None));
}

#[test]
fn bus_rules() {
    let good = BusOps::new(&[op(0, BusOpType::CodeRead, 0x100, true, 0), op(1, BusOpType::MemWrite, 0x40, true, 0)]);
    assert_eq!(good.validate(&cfg(), 0x100, 0, 0x88, MNEMONIC_MOV, 24, 0, 0, false), Ok(()));
    assert_eq!(
        good.validate(&cfg(), 0x102, 0, 0x88, MNEMONIC_MOV, 24, 0, 0, false),
        Err(BusValidationError::FirstOpNotCodeFetch { found: BusOpType::CodeRead, addr: 0x100 })
    );
    // CMP with memory must read it.
    assert_eq!(good.validate(&cfg(), 0x100, 0, 0x39, MNEMONIC_CMP, 24, 0, 0, false), Err(BusValidationError::MissingOp0Read));
    // A port read outside an I/O instruction.
    let io = BusOps::new(&[op(0, BusOpType::CodeRead, 0x100, true, 0), op(1, BusOpType::IoRead, 0x60, false, 0x00FF)]);
    assert_eq!(io.validate(&cfg(), 0x100, 0, 0x90, MNEMONIC_MOV, 0, 0, 0, false), Err(BusValidationError::UnexpectedIo));
    // IN reads all-ones from the port.
    assert_eq!(io.validate(&cfg(), 0x100, 0, 0xE4, MNEMONIC_IN, 0, 0, 0, false), Ok(()));
    let bad_in = BusOps::new(&[op(0, BusOpType::CodeRead, 0x100, true, 0), op(1, BusOpType::IoRead, 0x60, false, 0x0012)]);
    assert_eq!(bad_in.validate(&cfg(), 0x100, 0, 0xE4, MNEMONIC_IN, 0, 0, 0, false), Err(BusValidationError::IoReadByte { byte: 0x12 }));
    let many: Vec<BusOp> = (0..6).map(|i| op(i, BusOpType::MemRead, 0x40 + 2 * i as u32, true, 0)).collect();
    let many = BusOps::new(&many);
    let mut c = cfg();
    c.prefetch = true;
    assert_eq!(
        many.validate(&c, 0, 0, 0x8B, MNEMONIC_MOV, 0, 24, 0, false),
        Err(BusValidationError::TooManyBusOps { max: 4, actual: 6 })
    );
}
