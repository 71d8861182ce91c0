use test_generator::register_compare::{
    compare_registers, compare_registers16, compare_registers32, MooRegisterName, RegisterMismatch,
};
use test_generator::registers::{MooRegisters, MooRegisters16, MooRegisters32};

fn r16() -> MooRegisters16 {
    MooRegisters16 {
        ax: 1,
        bx: 2,
        cx: 3,
        dx: 4,
        cs: 5,
        ss: 6,
        ds: 7,
        es: 8,
        sp: 9,
        bp: 10,
        si: 11,
        di: 12,
        ip: 13,
        flags: 2,
    }
}

fn r32() -> MooRegisters32 {
    MooRegisters32 {
        cr0: 0x10,
        cr3: 0,
        eax: 1,
        ebx: 2,
        ecx: 3,
        edx: 4,
        esi: 5,
        edi: 6,
        ebp: 7,
        esp: 8,
        cs: 9,
        ds: 10,
        es: 11,
        fs: 12,
        gs: 13,
        ss: 14,
        eip: 15,
        eflags: 2,
        dr6: 0,
        dr7: 0,
    }
}

#[test]
fn equal_files_have_no_mismatch() {
    assert!(compare_registers16(&r16(), &r16()).is_empty());
    assert!(compare_registers32(&r32(), &r32()).is_empty());
}

#[test]
fn mismatches_come_in_report_order() {
    let mut b = r16();
    b.flags = 0x46;
    b.ax = 0xFFFF;
    let m = compare_registers16(&r16(), &b);
    assert_eq!(
        m,
        vec![
            RegisterMismatch { register: MooRegisterName::AX, expected: 1, actual: 0xFFFF },
            RegisterMismatch { register: MooRegisterName::FLAGS, expected: 2, actual: 0x46 },
        ]
    );
    let mut c = r32();
    c.dr7 = 0x400;
    c.cr0 = 0x11;
    c.esi = 0x55;
    let m = compare_registers32(&r32(), &c);
    assert_eq!(
        m,
        vec![
            RegisterMismatch { register: MooRegisterName::CR0, expected: 0x10, actual: 0x11 },
            RegisterMismatch { register: MooRegisterName::ESI, expected: 5, actual: 0x55 },
            RegisterMismatch { register: MooRegisterName::DR7, expected: 0, actual: 0x400 },
        ]
    );
}

#[test]
fn files_of_different_width_are_not_compared() {
    assert_eq!(compare_registers(&MooRegisters::Sixteen(r16()), &MooRegisters::ThirtyTwo(r32())), None);
    let mut b = r16();
    b.ip = 0x20;
    assert_eq!(
        compare_registers(&MooRegisters::Sixteen(r16()), &MooRegisters::Sixteen(b)),
        Some(vec![RegisterMismatch { register: MooRegisterName::IP, expected: 13, actual: 0x20 }])
    );
}
