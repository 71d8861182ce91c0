//! Register-by-register comparison of two stored register files, giving the
//! registers whose values differ, in the order a report lists them.

use crate::registers::{MooRegisters, MooRegisters16, MooRegisters32};
use vstd::prelude::*;

verus! {

/// The registers of a stored register file, named as a report names them.
#[allow(non_camel_case_types)]
#[derive(Copy, Clone, Debug, PartialEq, Eq, Structural)]
pub enum MooRegisterName {
    AX,
    BX,
    CX,
    DX,
    SP,
    BP,
    SI,
    DI,
    CS,
    DS,
    ES,
    FS,
    GS,
    SS,
    IP,
    FLAGS,
    CR0,
    CR3,
    EAX,
    EBX,
    ECX,
    EDX,
    ESP,
    EBP,
    ESI,
    EDI,
    EIP,
    EFLAGS,
    DR6,
    DR7,
}

/// One register with the value of the first file (`expected`) and of the
/// second (`actual`).
#[derive(Copy, Clone, Debug, PartialEq, Eq, Structural)]
pub struct RegisterMismatch {
    pub register: MooRegisterName,
    pub expected: u32,
    pub actual: u32,
}

/// The entries of `entries` whose two values differ, in their order.
pub open spec fn mismatches(entries: Seq<RegisterMismatch>) -> Seq<RegisterMismatch>
    decreases entries.len(),
{
    if entries.len() == 0 {
        Seq::empty()
    } else {
        let rest = mismatches(entries.drop_last());
        if entries.last().expected != entries.last().actual {
            rest.push(entries.last())
        } else {
            rest
        }
    }
}

/// A register paired with its values in two files.
pub open spec fn entry(register: MooRegisterName, expected: u32, actual: u32) -> RegisterMismatch {
    RegisterMismatch { register, expected, actual }
}

/// Every register of two 16-bit files, in report order.
pub open spec fn entries16(a: MooRegisters16, b: MooRegisters16) -> Seq<RegisterMismatch> {
    seq![
        entry(MooRegisterName::AX, a.ax as u32, b.ax as u32),
        entry(MooRegisterName::BX, a.bx as u32, b.bx as u32),
        entry(MooRegisterName::CX, a.cx as u32, b.cx as u32),
        entry(MooRegisterName::DX, a.dx as u32, b.dx as u32),
        entry(MooRegisterName::SP, a.sp as u32, b.sp as u32),
        entry(MooRegisterName::BP, a.bp as u32, b.bp as u32),
        entry(MooRegisterName::SI, a.si as u32, b.si as u32),
        entry(MooRegisterName::DI, a.di as u32, b.di as u32),
        entry(MooRegisterName::CS, a.cs as u32, b.cs as u32),
        entry(MooRegisterName::DS, a.ds as u32, b.ds as u32),
        entry(MooRegisterName::ES, a.es as u32, b.es as u32),
        entry(MooRegisterName::SS, a.ss as u32, b.ss as u32),
        entry(MooRegisterName::IP, a.ip as u32, b.ip as u32),
        entry(MooRegisterName::FLAGS, a.flags as u32, b.flags as u32),
    ]
}

/// Every register of two 32-bit files, in report order.
pub open spec fn entries32(a: MooRegisters32, b: MooRegisters32) -> Seq<RegisterMismatch> {
    seq![
        entry(MooRegisterName::CR0, a.cr0, b.cr0),
        entry(MooRegisterName::CR3, a.cr3, b.cr3),
        entry(MooRegisterName::EAX, a.eax, b.eax),
        entry(MooRegisterName::EBX, a.ebx, b.ebx),
        entry(MooRegisterName::ECX, a.ecx, b.ecx),
        entry(MooRegisterName::EDX, a.edx, b.edx),
        entry(MooRegisterName::ESP, a.esp, b.esp),
        entry(MooRegisterName::EBP, a.ebp, b.ebp),
        entry(MooRegisterName::ESI, a.esi, b.esi),
        entry(MooRegisterName::EDI, a.edi, b.edi),
        entry(MooRegisterName::CS, a.cs, b.cs),
        entry(MooRegisterName::DS, a.ds, b.ds),
        entry(MooRegisterName::ES, a.es, b.es),
        entry(MooRegisterName::FS, a.fs, b.fs),
        entry(MooRegisterName::GS, a.gs, b.gs),
        entry(MooRegisterName::SS, a.ss, b.ss),
        entry(MooRegisterName::EIP, a.eip, b.eip),
        entry(MooRegisterName::EFLAGS, a.eflags, b.eflags),
        entry(MooRegisterName::DR6, a.dr6, b.dr6),
        entry(MooRegisterName::DR7, a.dr7, b.dr7),
    ]
}

/// The entries whose two values differ, in their order.
fn keep_mismatches(entries: &Vec<RegisterMismatch>) -> (r: Vec<RegisterMismatch>)
    ensures
        r@ == mismatches(entries@),
{
    let mut out: Vec<RegisterMismatch> = Vec::new();
    let mut i: usize = 0;
    while i < entries.len()
        invariant
            i <= entries.len(),
            out@ == mismatches(entries@.take(i as int)),
        decreases entries.len() - i,
    {
        let e = entries[i];
        assert(entries@.take(i as int + 1).drop_last() =~= entries@.take(i as int));
        if e.expected != e.actual {
            out.push(e);
        }
        i = i + 1;
    }
    assert(entries@.take(entries.len() as int) =~= entries@);
    out
}

/// The registers of two 16-bit files whose values differ, in report order,
/// each with its value in `regs0` and in `regs1`.
pub fn compare_registers16(regs0: &MooRegisters16, regs1: &MooRegisters16) -> (r: Vec<RegisterMismatch>)
    ensures
        r@ == mismatches(entries16(*regs0, *regs1)),
{
    let a = *regs0;
    let b = *regs1;
    let entries: Vec<RegisterMismatch> = vec![
        RegisterMismatch { register: MooRegisterName::AX, expected: a.ax as u32, actual: b.ax as u32 },
        RegisterMismatch { register: MooRegisterName::BX, expected: a.bx as u32, actual: b.bx as u32 },
        RegisterMismatch { register: MooRegisterName::CX, expected: a.cx as u32, actual: b.cx as u32 },
        RegisterMismatch { register: MooRegisterName::DX, expected: a.dx as u32, actual: b.dx as u32 },
        RegisterMismatch { register: MooRegisterName::SP, expected: a.sp as u32, actual: b.sp as u32 },
        RegisterMismatch { register: MooRegisterName::BP, expected: a.bp as u32, actual: b.bp as u32 },
        RegisterMismatch { register: MooRegisterName::SI, expected: a.si as u32, actual: b.si as u32 },
        RegisterMismatch { register: MooRegisterName::DI, expected: a.di as u32, actual: b.di as u32 },
        RegisterMismatch { register: MooRegisterName::CS, expected: a.cs as u32, actual: b.cs as u32 },
        RegisterMismatch { register: MooRegisterName::DS, expected: a.ds as u32, actual: b.ds as u32 },
        RegisterMismatch { register: MooRegisterName::ES, expected: a.es as u32, actual: b.es as u32 },
        RegisterMismatch { register: MooRegisterName::SS, expected: a.ss as u32, actual: b.ss as u32 },
        RegisterMismatch { register: MooRegisterName::IP, expected: a.ip as u32, actual: b.ip as u32 },
        RegisterMismatch {
            register: MooRegisterName::FLAGS,
            expected: a.flags as u32,
            actual: b.flags as u32,
        },
    ];
    assert(entries@ =~= entries16(a, b));
    keep_mismatches(&entries)
}

/// The registers of two 32-bit files whose values differ, in report order,
/// each with its value in `regs0` and in `regs1`.
pub fn compare_registers32(regs0: &MooRegisters32, regs1: &MooRegisters32) -> (r: Vec<RegisterMismatch>)
    ensures
        r@ == mismatches(entries32(*regs0, *regs1)),
{
    let a = *regs0;
    let b = *regs1;
    let entries: Vec<RegisterMismatch> = vec![
        RegisterMismatch { register: MooRegisterName::CR0, expected: a.cr0, actual: b.cr0 },
        RegisterMismatch { register: MooRegisterName::CR3, expected: a.cr3, actual: b.cr3 },
        RegisterMismatch { register: MooRegisterName::EAX, expected: a.eax, actual: b.eax },
        RegisterMismatch { register: MooRegisterName::EBX, expected: a.ebx, actual: b.ebx },
        RegisterMismatch { register: MooRegisterName::ECX, expected: a.ecx, actual: b.ecx },
        RegisterMismatch { register: MooRegisterName::EDX, expected: a.edx, actual: b.edx },
        RegisterMismatch { register: MooRegisterName::ESP, expected: a.esp, actual: b.esp },
        RegisterMismatch { register: MooRegisterName::EBP, expected: a.ebp, actual: b.ebp },
        RegisterMismatch { register: MooRegisterName::ESI, expected: a.esi, actual: b.esi },
        RegisterMismatch { register: MooRegisterName::EDI, expected: a.edi, actual: b.edi },
        RegisterMismatch { register: MooRegisterName::CS, expected: a.cs, actual: b.cs },
        RegisterMismatch { register: MooRegisterName::DS, expected: a.ds, actual: b.ds },
        RegisterMismatch { register: MooRegisterName::ES, expected: a.es, actual: b.es },
        RegisterMismatch { register: MooRegisterName::FS, expected: a.fs, actual: b.fs },
        RegisterMismatch { register: MooRegisterName::GS, expected: a.gs, actual: b.gs },
        RegisterMismatch { register: MooRegisterName::SS, expected: a.ss, actual: b.ss },
        RegisterMismatch { register: MooRegisterName::EIP, expected: a.eip, actual: b.eip },
        RegisterMismatch { register: MooRegisterName::EFLAGS, expected: a.eflags, actual: b.eflags },
        RegisterMismatch { register: MooRegisterName::DR6, expected: a.dr6, actual: b.dr6 },
        RegisterMismatch { register: MooRegisterName::DR7, expected: a.dr7, actual: b.dr7 },
    ];
    assert(entries@ =~= entries32(a, b));
    keep_mismatches(&entries)
}

/// The registers whose values differ between two files of the same width;
/// none where one file is 16-bit and the other 32-bit.
pub fn compare_registers(regs0: &MooRegisters, regs1: &MooRegisters) -> (r: Option<Vec<RegisterMismatch>>)
    ensures
        r matches Some(v) ==> match (*regs0, *regs1) {
            (MooRegisters::Sixteen(a), MooRegisters::Sixteen(b)) => v@ == mismatches(entries16(a, b)),
            (MooRegisters::ThirtyTwo(a), MooRegisters::ThirtyTwo(b)) => v@ == mismatches(entries32(a, b)),
            _ => false,
        },
        r is None <==> match (*regs0, *regs1) {
            (MooRegisters::Sixteen(_), MooRegisters::Sixteen(_)) => false,
            (MooRegisters::ThirtyTwo(_), MooRegisters::ThirtyTwo(_)) => false,
            _ => true,
        },
{
    match (regs0, regs1) {
        (MooRegisters::Sixteen(a), MooRegisters::Sixteen(b)) => Some(compare_registers16(a, b)),
        (MooRegisters::ThirtyTwo(a), MooRegisters::ThirtyTwo(b)) => Some(compare_registers32(a, b)),
        _ => None,
    }
}

} // verus!
