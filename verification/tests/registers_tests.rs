use test_generator::cpu_common::{Register16, Register32};
use test_generator::enums::SegmentSize;
use test_generator::registers::{
    instruction_address_in_range, register_seed, sp_range, validate_register_delta, MooRegisters,
    MooRegisters16, MooRegisters32, RegisterError, Registers, RemoteCpuRegisters32,
    RemoteCpuRegistersV1, RemoteCpuRegistersV2, SegmentDescriptor, SpOverride,
};

fn desc(base: u32, limit: u32) -> SegmentDescriptor {
    SegmentDescriptor { base, limit, size: SegmentSize::Sixteen }
}

fn v1() -> RemoteCpuRegistersV1 {
    RemoteCpuRegistersV1 {
        ax: 1,
        bx: 2,
        cx: 3,
        dx: 4,
        ss: 0x2000,
        cs: 0x1000,
        ds: 0x3000,
        es: 0x4000,
        sp: 0x0100,
        bp: 6,
        si: 7,
        di: 8,
        ip: 0x0010,
        flags: 0x0002,
    }
}

fn v2() -> RemoteCpuRegistersV2 {
    let r = v1();
    RemoteCpuRegistersV2 {
        ax: r.ax,
        bx: r.bx,
        cx: r.cx,
        dx: r.dx,
        ss: r.ss,
        cs: r.cs,
        ds: r.ds,
        es: r.es,
        sp: r.sp,
        bp: r.bp,
        si: r.si,
        di: r.di,
        ip: r.ip,
        flags: r.flags,
        msw: 0,
        cs_desc: desc(0x10000, 0xFFFF),
        ds_desc: desc(0x30000, 0x7FFF),
        es_desc: desc(0x40000, 0xFFFF),
        ss_desc: desc(0x20000, 0xFFFF),
    }
}

fn v3() -> RemoteCpuRegisters32 {
    RemoteCpuRegisters32 {
        cr0: 0x10,
        cr3: 0x1234,
        eax: 0x1111_0001,
        ebx: 0x2222_0002,
        ecx: 0x3333_0003,
        edx: 0x4444_0004,
        esi: 0x5555_0005,
        edi: 0x6666_0006,
        ebp: 0x7777_0007,
        esp: 0x0000_0200,
        cs: 0xF000,
        ds: 0x0010,
        es: 0x0020,
        fs: 0x0030,
        gs: 0x0040,
        ss: 0x0050,
        eip: 0x0001_0020,
        eflags: 0x0000_0202,
        dr6: 0,
        dr7: 0,
        cs_desc: SegmentDescriptor { base: 0xF0000, limit: 0xFFFF, size: SegmentSize::ThirtyTwo },
        ds_desc: desc(0x100, 0x0FFF),
        es_desc: desc(0x200, 0x1FFF),
        fs_desc: desc(0x300, 0x2FFF),
        gs_desc: desc(0x400, 0x3FFF),
        ss_desc: desc(0x500, 0x4FFF),
    }
}

#[test]
fn real_mode_bases_are_selector_times_sixteen() {
    let r = Registers::V1(v1());
    assert_eq!(r.cs_base(), 0x10000);
    assert_eq!(r.ds_base(), 0x30000);
    assert_eq!(r.es_base(), 0x40000);
    assert_eq!(r.ss_base(), 0x20000);
    assert_eq!(r.fs_base(), 0);
    assert_eq!(r.gs_base(), 0);
    assert_eq!(r.stack_address(), 0x20100);
}

#[test]
fn descriptor_bases_and_limits() {
    let r = Registers::V2(v2());
    assert_eq!(r.segment_base(Register16::DS), Some(0x30000));
    assert_eq!(r.segment_limit(Register16::DS), Some(0x7FFF));
    assert_eq!(r.segment_base(Register16::FS), None);
    assert_eq!(r.segment_selector(Register16::ES), Some(0x4000));
    assert_eq!(r.segment_selector(Register16::AX), None);
    let r3 = Registers::V3A(v3());
    assert_eq!(r3.segment_base(Register16::GS), Some(0x400));
    assert_eq!(r3.segment_limit(Register16::FS), Some(0x2FFF));
    assert_eq!(r3.segment_size(Register16::CS), SegmentSize::ThirtyTwo);
    assert_eq!(r3.segment_size(Register16::DS), SegmentSize::Sixteen);
    let r3b = Registers::V3B(v3());
    assert_eq!(r3b.segment_limit(Register16::DS), None);
    assert_eq!(r3b.segment_base(Register16::DS), Some(0x100));
    assert_eq!(Registers::V1(v1()).segment_selector(Register16::CS), None);
}

#[test]
fn segment_base_by_register_name() {
    let r3 = Registers::V3A(v3());
    assert_eq!(r3.segment_base16(Register16::SS), 0x500);
    assert_eq!(r3.segment_base16(Register16::AX), 0);
    assert_eq!(r3.segment_base32(Register32::FS), 0x300);
    assert_eq!(r3.segment_base32(Register32::EAX), 0);
}

#[test]
fn register_views_of_each_layout() {
    let r3 = Registers::V3A(v3());
    assert_eq!(r3.ip(), 0x0020);
    assert_eq!(r3.eip(), 0x0001_0020);
    assert_eq!(r3.cx(), 0x0003);
    assert_eq!(r3.ecx(), 0x3333_0003);
    assert_eq!(r3.dx(), 0x0004);
    assert_eq!(r3.edx(), 0x4444_0004);
    assert_eq!(r3.sp(), 0x0200);
    assert_eq!(r3.flags(), 0x0202);
    assert_eq!(r3.cs(), 0xF000);
    assert_eq!(r3.ss(), 0x0050);
    assert_eq!(r3.stack_address(), 0x700);
    let r1 = Registers::V1(v1());
    assert_eq!(r1.eip(), 0x10);
    assert_eq!(r1.ecx(), 3);
    assert_eq!(r1.buf_len(), 28);
    assert_eq!(Registers::V2(v2()).buf_len(), 102);
    assert_eq!(r3.buf_len(), 204);
    assert_eq!(Registers::V3B(v3()).buf_len(), 208);
}

#[test]
fn set_cx_keeps_the_high_half_of_ecx() {
    let mut r3 = Registers::V3A(v3());
    r3.set_cx(0xBEEF);
    assert_eq!(r3.ecx(), 0x3333_BEEF);
    r3.set_ecx(0x1234_5678);
    assert_eq!(r3.ecx(), 0x1234_5678);
    let mut r1 = Registers::V1(v1());
    r1.set_ecx(0xABCD_0042);
    assert_eq!(r1.cx(), 0x0042);
    r1.set_cx(7);
    assert_eq!(r1.cx(), 7);
}

#[test]
fn stack_address_wraps() {
    let mut regs = v3();
    regs.ss_desc = desc(0xFFFF_FF00, 0xFFFF);
    regs.esp = 0x200;
    assert_eq!(Registers::V3A(regs).stack_address(), 0x100);
}

#[test]
fn validate_requires_reserved_flag() {
    assert_eq!(Registers::V1(v1()).validate(), Ok(()));
    let mut bad = v1();
    bad.flags = 0x0000;
    assert_eq!(Registers::V1(bad).validate(), Err(RegisterError::ReservedFlagClear));
}

#[test]
fn moo_conversions() {
    let m16 = MooRegisters16::try_from_registers(&Registers::V2(v2())).unwrap();
    assert_eq!(m16.ss, 0x2000);
    assert_eq!(m16.ip, 0x10);
    assert_eq!(
        MooRegisters16::try_from_registers(&Registers::V3A(v3())),
        Err(RegisterError::UnsupportedVersion)
    );
    let m32a = MooRegisters32::try_from_registers(&Registers::V3A(v3())).unwrap();
    assert_eq!(m32a.cr3, 0);
    assert_eq!(m32a.cs, 0xF000);
    let m32b = MooRegisters32::try_from_registers(&Registers::V3B(v3())).unwrap();
    assert_eq!(m32b.cr3, 0x1234);
    assert_eq!(
        MooRegisters32::try_from_registers(&Registers::V1(v1())),
        Err(RegisterError::UnsupportedVersion)
    );
    assert!(matches!(MooRegisters::from_registers(&Registers::V1(v1())), MooRegisters::Sixteen(_)));
    assert!(matches!(MooRegisters::from_registers(&Registers::V3B(v3())), MooRegisters::ThirtyTwo(_)));
}

#[test]
fn off_by_one_register_dump_is_detected() {
    let initial = v1();
    let mut shifted = v1();
    shifted.ax = initial.cx;
    assert_eq!(
        validate_register_delta(false, &Registers::V1(initial), &Registers::V1(shifted)),
        Err(RegisterError::OffByOneStore)
    );
    // XCHG legitimately moves values between registers.
    assert_eq!(validate_register_delta(true, &Registers::V1(initial), &Registers::V1(shifted)), Ok(()));
    // Unchanged registers are fine.
    assert_eq!(validate_register_delta(false, &Registers::V1(initial), &Registers::V1(initial)), Ok(()));
    // Equal neighbours cannot be told apart from a shift and are accepted.
    let mut same = v1();
    same.cx = same.ax;
    assert_eq!(validate_register_delta(false, &Registers::V1(same), &Registers::V1(same)), Ok(()));
    // 32-bit register files are not checked.
    assert_eq!(validate_register_delta(false, &Registers::V3A(v3()), &Registers::V3B(v3())), Ok(()));
}

#[test]
fn seeds_and_ranges() {
    assert_eq!(register_seed(0, 0, 0), 0x8000_0000);
    assert_eq!(register_seed(0xFF, 1, 2), 0xFF ^ (1 | (2 << 24) | 0x8000_0000));
    let overrides = [
        SpOverride { opcode: 0x50, min: 0x10, max: 0x20 },
        SpOverride { opcode: 0x50, min: 0x30, max: 0x40 },
    ];
    assert_eq!(sp_range(1, 2, &overrides, 0x50), (0x10, 0x20));
    assert_eq!(sp_range(1, 2, &overrides, 0x51), (1, 2));
    assert_eq!(instruction_address_in_range(0x1_2345, 0xFFFF, [0x1000, 0x3000]), Some(0x2345));
    assert_eq!(instruction_address_in_range(0x1_3000, 0xFFFF, [0x1000, 0x3000]), None);
}
