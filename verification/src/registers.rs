//! The register files that the test server loads into and reads back from
//! the CPU, in each of its register-set layouts.

use crate::cpu_common::{Register16, Register32};
use crate::enums::SegmentSize;
use vstd::prelude::*;

verus! {

/// The hidden part of a segment register: base address, limit and default size.
#[derive(Copy, Clone, Debug)]
pub struct SegmentDescriptor {
    pub base: u32,
    pub limit: u32,
    pub size: SegmentSize,
}

/// The register set of the 8088/8086 family.
#[derive(Copy, Clone, Debug)]
pub struct RemoteCpuRegistersV1 {
    pub ax: u16,
    pub bx: u16,
    pub cx: u16,
    pub dx: u16,
    pub ss: u16,
    pub cs: u16,
    pub ds: u16,
    pub es: u16,
    pub sp: u16,
    pub bp: u16,
    pub si: u16,
    pub di: u16,
    pub ip: u16,
    pub flags: u16,
}

/// The 80286 register set, with the descriptor caches of its four segments.
#[derive(Copy, Clone, Debug)]
pub struct RemoteCpuRegistersV2 {
    pub ax: u16,
    pub bx: u16,
    pub cx: u16,
    pub dx: u16,
    pub ss: u16,
    pub cs: u16,
    pub ds: u16,
    pub es: u16,
    pub sp: u16,
    pub bp: u16,
    pub si: u16,
    pub di: u16,
    pub ip: u16,
    pub flags: u16,
    pub msw: u16,
    pub cs_desc: SegmentDescriptor,
    pub ds_desc: SegmentDescriptor,
    pub es_desc: SegmentDescriptor,
    pub ss_desc: SegmentDescriptor,
}

/// The 80386 register set, with the descriptor caches of its six segments.
#[derive(Copy, Clone, Debug)]
pub struct RemoteCpuRegisters32 {
    pub cr0: u32,
    pub cr3: u32,
    pub eax: u32,
    pub ebx: u32,
    pub ecx: u32,
    pub edx: u32,
    pub esi: u32,
    pub edi: u32,
    pub ebp: u32,
    pub esp: u32,
    pub cs: u16,
    pub ds: u16,
    pub es: u16,
    pub fs: u16,
    pub gs: u16,
    pub ss: u16,
    pub eip: u32,
    pub eflags: u32,
    pub dr6: u32,
    pub dr7: u32,
    pub cs_desc: SegmentDescriptor,
    pub ds_desc: SegmentDescriptor,
    pub es_desc: SegmentDescriptor,
    pub fs_desc: SegmentDescriptor,
    pub gs_desc: SegmentDescriptor,
    pub ss_desc: SegmentDescriptor,
}

/// A register file in one of the server's layouts: V3A is loaded into an
/// 80386, V3B is read back from one.
#[derive(Copy, Clone, Debug)]
pub enum Registers {
    V1(RemoteCpuRegistersV1),
    V2(RemoteCpuRegistersV2),
    V3A(RemoteCpuRegisters32),
    V3B(RemoteCpuRegisters32),
}

/// A 16-bit register file as a test file stores it.
#[derive(Copy, Clone, Debug, PartialEq, Eq, Structural)]
pub struct MooRegisters16 {
    pub ax: u16,
    pub bx: u16,
    pub cx: u16,
    pub dx: u16,
    pub cs: u16,
    pub ss: u16,
    pub ds: u16,
    pub es: u16,
    pub sp: u16,
    pub bp: u16,
    pub si: u16,
    pub di: u16,
    pub ip: u16,
    pub flags: u16,
}

/// A 32-bit register file as a test file stores it.
#[derive(Copy, Clone, Debug, PartialEq, Eq, Structural)]
pub struct MooRegisters32 {
    pub cr0: u32,
    pub cr3: u32,
    pub eax: u32,
    pub ebx: u32,
    pub ecx: u32,
    pub edx: u32,
    pub esi: u32,
    pub edi: u32,
    pub ebp: u32,
    pub esp: u32,
    pub cs: u32,
    pub ds: u32,
    pub es: u32,
    pub fs: u32,
    pub gs: u32,
    pub ss: u32,
    pub eip: u32,
    pub eflags: u32,
    pub dr6: u32,
    pub dr7: u32,
}

/// A register file of either width as a test file stores it.
#[derive(Copy, Clone, Debug, PartialEq, Eq, Structural)]
pub enum MooRegisters {
    Sixteen(MooRegisters16),
    ThirtyTwo(MooRegisters32),
}

/// Why register files could not be converted or checked.
#[derive(Copy, Clone, Debug, PartialEq, Eq, Structural)]
pub enum RegisterError {
    /// The register-set layout has no form of the requested width.
    UnsupportedVersion,
    /// The always-set bit 1 of the flags is clear.
    ReservedFlagClear,
    /// Each of the segment and general registers holds the initial value of
    /// its neighbour in the store order, as a shifted register dump would.
    OffByOneStore,
}

/// The real-mode base address of a segment selector.
pub open spec fn real_base(selector: u16) -> u32 {
    (selector as u32 * 16) as u32
}

/// The descriptor that a register file holds for a segment register, if it
/// holds one.
pub open spec fn spec_descriptor(regs: Registers, segment: Register16) -> Option<SegmentDescriptor> {
    match regs {
        Registers::V1(_) => None,
        Registers::V2(r) => match segment {
            Register16::DS => Some(r.ds_desc),
            Register16::ES => Some(r.es_desc),
            Register16::SS => Some(r.ss_desc),
            Register16::CS => Some(r.cs_desc),
            _ => None,
        },
        Registers::V3A(r) | Registers::V3B(r) => match segment {
            Register16::DS => Some(r.ds_desc),
            Register16::ES => Some(r.es_desc),
            Register16::FS => Some(r.fs_desc),
            Register16::GS => Some(r.gs_desc),
            Register16::SS => Some(r.ss_desc),
            Register16::CS => Some(r.cs_desc),
            _ => None,
        },
    }
}

/// The selector that a register file holds for a segment register, if the
/// layout has segment descriptors.
pub open spec fn spec_selector(regs: Registers, segment: Register16) -> Option<u16> {
    match regs {
        Registers::V1(_) => None,
        Registers::V2(r) => match segment {
            Register16::DS => Some(r.ds),
            Register16::ES => Some(r.es),
            Register16::SS => Some(r.ss),
            Register16::CS => Some(r.cs),
            _ => None,
        },
        Registers::V3A(r) | Registers::V3B(r) => match segment {
            Register16::DS => Some(r.ds),
            Register16::ES => Some(r.es),
            Register16::FS => Some(r.fs),
            Register16::GS => Some(r.gs),
            Register16::SS => Some(r.ss),
            Register16::CS => Some(r.cs),
            _ => None,
        },
    }
}

/// The base address of one of the segments CS, DS, ES, SS: the real-mode
/// base of the selector on the 8086 family, the descriptor base otherwise;
/// FS and GS have base 0 where the layout has no such segment.
pub open spec fn spec_segment_base(regs: Registers, segment: Register16) -> u32 {
    match regs {
        Registers::V1(r) => match segment {
            Register16::CS => real_base(r.cs),
            Register16::DS => real_base(r.ds),
            Register16::ES => real_base(r.es),
            Register16::SS => real_base(r.ss),
            _ => 0,
        },
        Registers::V2(_) => match segment {
            Register16::CS | Register16::DS | Register16::ES | Register16::SS =>
                spec_descriptor(regs, segment).unwrap().base,
            _ => 0,
        },
        Registers::V3A(_) | Registers::V3B(_) => match segment {
            Register16::CS | Register16::DS | Register16::ES | Register16::SS | Register16::FS
            | Register16::GS => spec_descriptor(regs, segment).unwrap().base,
            _ => 0,
        },
    }
}

/// The instruction pointer of a register file, truncated to 16 bits.
pub open spec fn spec_ip16(regs: Registers) -> u16 {
    match regs {
        Registers::V1(x) => x.ip,
        Registers::V2(x) => x.ip,
        Registers::V3A(x) | Registers::V3B(x) => x.eip as u16,
    }
}

/// CX of a register file (the low 16 bits of ECX on the 80386 layouts).
pub open spec fn spec_cx16(regs: Registers) -> u16 {
    match regs {
        Registers::V1(x) => x.cx,
        Registers::V2(x) => x.cx,
        Registers::V3A(x) | Registers::V3B(x) => x.ecx as u16,
    }
}

/// The count register of a register file, widened to 32 bits.
pub open spec fn spec_ecx(regs: Registers) -> u32 {
    match regs {
        Registers::V1(x) => x.cx as u32,
        Registers::V2(x) => x.cx as u32,
        Registers::V3A(x) | Registers::V3B(x) => x.ecx,
    }
}

/// A register file with CX replaced; on the 80386 layouts the high half of
/// ECX is kept.
pub open spec fn spec_with_cx(regs: Registers, value: u16) -> Registers {
    match regs {
        Registers::V1(o) => Registers::V1(RemoteCpuRegistersV1 { cx: value, ..o }),
        Registers::V2(o) => Registers::V2(RemoteCpuRegistersV2 { cx: value, ..o }),
        Registers::V3A(o) => Registers::V3A(
            RemoteCpuRegisters32 { ecx: ((o.ecx / 0x10000) * 0x10000 + value) as u32, ..o },
        ),
        Registers::V3B(o) => Registers::V3B(
            RemoteCpuRegisters32 { ecx: ((o.ecx / 0x10000) * 0x10000 + value) as u32, ..o },
        ),
    }
}

/// A register file with ECX replaced; the 16-bit layouts keep its low half
/// as CX.
pub open spec fn spec_with_ecx(regs: Registers, value: u32) -> Registers {
    match regs {
        Registers::V1(o) => Registers::V1(RemoteCpuRegistersV1 { cx: value as u16, ..o }),
        Registers::V2(o) => Registers::V2(RemoteCpuRegistersV2 { cx: value as u16, ..o }),
        Registers::V3A(o) => Registers::V3A(RemoteCpuRegisters32 { ecx: value, ..o }),
        Registers::V3B(o) => Registers::V3B(RemoteCpuRegisters32 { ecx: value, ..o }),
    }
}

/// What is written to the count register reads back: CX after setting CX
/// (the 80386 layouts keeping the high half of ECX), and ECX after setting
/// ECX, cut to 16 bits on the 16-bit layouts.
pub proof fn law_counter_reads_back(regs: Registers, cx: u16, ecx: u32)
    ensures
        spec_cx16(spec_with_cx(regs, cx)) == cx,
        spec_ecx(spec_with_cx(regs, cx)) / 0x10000 == (if regs is V3A || regs is V3B {
            spec_ecx(regs) / 0x10000
        } else {
            0
        }),
        spec_ecx(spec_with_ecx(regs, ecx)) == (if regs is V3A || regs is V3B {
            ecx
        } else {
            ecx as u16 as u32
        }),
        spec_cx16(spec_with_ecx(regs, ecx)) == ecx as u16,
{
    match regs {
        Registers::V3A(o) | Registers::V3B(o) => {
            let e = o.ecx;
            assert((((e / 0x10000) * 0x10000 + cx) as u32) as u16 == cx && (((e / 0x10000) * 0x10000
                + cx) as u32) / 0x10000 == e / 0x10000) by (bit_vector);
        },
        _ => {
            assert((cx as u32) / 0x10000 == 0) by (bit_vector);
        },
    }
}

/// The stack pointer of a register file, widened to 32 bits.
pub open spec fn spec_stack_pointer(regs: Registers) -> u32 {
    match regs {
        Registers::V1(r) => r.sp as u32,
        Registers::V2(r) => r.sp as u32,
        Registers::V3A(r) | Registers::V3B(r) => r.esp,
    }
}

/// The flags of a register file, widened to 32 bits.
pub open spec fn spec_flags32(regs: Registers) -> u32 {
    match regs {
        Registers::V1(r) => r.flags as u32,
        Registers::V2(r) => r.flags as u32,
        Registers::V3A(r) | Registers::V3B(r) => r.eflags,
    }
}

/// The 16-bit form of a register file, for the 16-bit layouts.
pub open spec fn spec_moo16(regs: Registers) -> Option<MooRegisters16> {
    match regs {
        Registers::V1(r) => Some(
            MooRegisters16 {
                ax: r.ax,
                bx: r.bx,
                cx: r.cx,
                dx: r.dx,
                cs: r.cs,
                ss: r.ss,
                ds: r.ds,
                es: r.es,
                sp: r.sp,
                bp: r.bp,
                si: r.si,
                di: r.di,
                ip: r.ip,
                flags: r.flags,
            },
        ),
        Registers::V2(r) => Some(
            MooRegisters16 {
                ax: r.ax,
                bx: r.bx,
                cx: r.cx,
                dx: r.dx,
                cs: r.cs,
                ss: r.ss,
                ds: r.ds,
                es: r.es,
                sp: r.sp,
                bp: r.bp,
                si: r.si,
                di: r.di,
                ip: r.ip,
                flags: r.flags,
            },
        ),
        _ => None,
    }
}

/// The 32-bit form of a register file, for the 32-bit layouts; the loaded
/// layout carries no CR3 and stores 0 for it.
pub open spec fn spec_moo32(regs: Registers) -> Option<MooRegisters32> {
    match regs {
        Registers::V3A(r) => Some(moo32_of(r, 0)),
        Registers::V3B(r) => Some(moo32_of(r, r.cr3)),
        _ => None,
    }
}

/// The 32-bit test-file form of a register file with the given CR3.
pub open spec fn moo32_of(r: RemoteCpuRegisters32, cr3: u32) -> MooRegisters32 {
    MooRegisters32 {
        cr0: r.cr0,
        cr3,
        eax: r.eax,
        ebx: r.ebx,
        ecx: r.ecx,
        edx: r.edx,
        esi: r.esi,
        edi: r.edi,
        ebp: r.ebp,
        esp: r.esp,
        cs: r.cs as u32,
        ds: r.ds as u32,
        es: r.es as u32,
        fs: r.fs as u32,
        gs: r.gs as u32,
        ss: r.ss as u32,
        eip: r.eip,
        eflags: r.eflags,
        dr6: r.dr6,
        dr7: r.dr7,
    }
}

/// A register takes over the initial value of the next register in store
/// order, where the two differed.
pub open spec fn shifted(init_a: u16, init_b: u16, final_a: u16) -> bool {
    init_a != init_b && final_a == init_b
}

/// Whether the final 16-bit registers look like the initial ones shifted by
/// one place in the store order AX CX DX BX SP BP SI DI ES CS SS DS.
pub open spec fn spec_off_by_one(i: MooRegisters16, f: MooRegisters16) -> bool {
    ||| shifted(i.ax, i.cx, f.ax)
    ||| shifted(i.cx, i.dx, f.cx)
    ||| shifted(i.dx, i.bx, f.dx)
    ||| shifted(i.bx, i.sp, f.bx)
    ||| shifted(i.sp, i.bp, f.sp)
    ||| shifted(i.bp, i.si, f.bp)
    ||| shifted(i.si, i.di, f.si)
    ||| shifted(i.di, i.es, f.di)
    ||| shifted(i.es, i.cs, f.es)
    ||| shifted(i.cs, i.ss, f.cs)
    ||| shifted(i.ss, i.ds, f.ss)
}

/// The real-mode base address of a selector: the selector shifted left by four.
fn real_base_of(selector: u16) -> (r: u32)
    ensures
        r == real_base(selector),
{
    assert((selector as u32) << 4 == (selector as u32 * 16) as u32) by (bit_vector);
    (selector as u32) << 4
}

impl Registers {
    /// Flags that a POPF or IRET may load: carry, parity, auxiliary carry,
    /// zero, sign, interrupt, direction, overflow and the I/O privilege level
    /// (the trap flag is left out).
    pub const POP_FLAGS_MASK: u32 = 0b0000111011010111;

    /// Size in bytes of the layout's buffer on the server.
    pub fn buf_len(&self) -> (r: usize)
        ensures
            r == match *self {
                Registers::V1(_) => 28usize,
                Registers::V2(_) => 102usize,
                Registers::V3A(_) => 204usize,
                Registers::V3B(_) => 208usize,
            },
    {
        match self {
            Registers::V1(_) => 28,
            Registers::V2(_) => 102,
            Registers::V3A(_) => 204,
            Registers::V3B(_) => 208,
        }
    }

    /// The instruction pointer, truncated to 16 bits.
    pub fn ip(&self) -> (r: u16)
        ensures
            r == spec_ip16(*self),
    {
        match self {
            Registers::V1(regs) => regs.ip,
            Registers::V2(regs) => regs.ip,
            Registers::V3A(regs) => regs.eip as u16,
            Registers::V3B(regs) => regs.eip as u16,
        }
    }

    /// The instruction pointer, widened to 32 bits for the 16-bit sets.
    pub open spec fn spec_eip(&self) -> u32 {
        match *self {
            Registers::V1(x) => x.ip as u32,
            Registers::V2(x) => x.ip as u32,
            Registers::V3A(x) | Registers::V3B(x) => x.eip,
        }
    }

    /// The instruction pointer, widened to 32 bits.
    pub fn eip(&self) -> (r: u32)
        ensures
            r == self.spec_eip(),
    {
        match self {
            Registers::V1(regs) => regs.ip as u32,
            Registers::V2(regs) => regs.ip as u32,
            Registers::V3A(regs) => regs.eip,
            Registers::V3B(regs) => regs.eip,
        }
    }

    /// The code segment selector.
    pub fn cs(&self) -> (r: u16)
        ensures
            r == match *self {
                Registers::V1(x) => x.cs,
                Registers::V2(x) => x.cs,
                Registers::V3A(x) | Registers::V3B(x) => x.cs,
            },
    {
        match self {
            Registers::V1(regs) => regs.cs,
            Registers::V2(regs) => regs.cs,
            Registers::V3A(regs) => regs.cs,
            Registers::V3B(regs) => regs.cs,
        }
    }

    /// The stack segment selector.
    pub fn ss(&self) -> (r: u16)
        ensures
            r == match *self {
                Registers::V1(x) => x.ss,
                Registers::V2(x) => x.ss,
                Registers::V3A(x) | Registers::V3B(x) => x.ss,
            },
    {
        match self {
            Registers::V1(regs) => regs.ss,
            Registers::V2(regs) => regs.ss,
            Registers::V3A(regs) => regs.ss,
            Registers::V3B(regs) => regs.ss,
        }
    }

    /// Base address of the code segment.
    pub fn cs_base(&self) -> (r: u32)
        ensures
            r == spec_segment_base(*self, Register16::CS),
    {
        match self {
            Registers::V1(regs) => real_base_of(regs.cs),
            Registers::V2(regs) => regs.cs_desc.base,
            Registers::V3A(regs) => regs.cs_desc.base,
            Registers::V3B(regs) => regs.cs_desc.base,
        }
    }

    /// Base address of the data segment.
    pub fn ds_base(&self) -> (r: u32)
        ensures
            r == spec_segment_base(*self, Register16::DS),
    {
        match self {
            Registers::V1(regs) => real_base_of(regs.ds),
            Registers::V2(regs) => regs.ds_desc.base,
            Registers::V3A(regs) => regs.ds_desc.base,
            Registers::V3B(regs) => regs.ds_desc.base,
        }
    }

    /// Base address of the extra segment.
    pub fn es_base(&self) -> (r: u32)
        ensures
            r == spec_segment_base(*self, Register16::ES),
    {
        match self {
            Registers::V1(regs) => real_base_of(regs.es),
            Registers::V2(regs) => regs.es_desc.base,
            Registers::V3A(regs) => regs.es_desc.base,
            Registers::V3B(regs) => regs.es_desc.base,
        }
    }

    /// Base address of the FS segment; 0 where the layout has none.
    pub fn fs_base(&self) -> (r: u32)
        ensures
            r == spec_segment_base(*self, Register16::FS),
    {
        match self {
            Registers::V1(_) => 0,
            Registers::V2(_) => 0,
            Registers::V3A(regs) => regs.fs_desc.base,
            Registers::V3B(regs) => regs.fs_desc.base,
        }
    }

    /// Base address of the GS segment; 0 where the layout has none.
    pub fn gs_base(&self) -> (r: u32)
        ensures
            r == spec_segment_base(*self, Register16::GS),
    {
        match self {
            Registers::V1(_) => 0,
            Registers::V2(_) => 0,
            Registers::V3A(regs) => regs.gs_desc.base,
            Registers::V3B(regs) => regs.gs_desc.base,
        }
    }

    /// Base address of the stack segment.
    pub fn ss_base(&self) -> (r: u32)
        ensures
            r == spec_segment_base(*self, Register16::SS),
    {
        match self {
            Registers::V1(regs) => real_base_of(regs.ss),
            Registers::V2(regs) => regs.ss_desc.base,
            Registers::V3A(regs) => regs.ss_desc.base,
            Registers::V3B(regs) => regs.ss_desc.base,
        }
    }

    /// The descriptor cache of a segment register, where the loaded layout
    /// holds one.
    fn descriptor(&self, segment: Register16) -> (r: Option<SegmentDescriptor>)
        ensures
            r == spec_descriptor(*self, segment),
    {
        match self {
            Registers::V1(_) => None,
            Registers::V2(regs) => match segment {
                Register16::DS => Some(regs.ds_desc),
                Register16::ES => Some(regs.es_desc),
                Register16::SS => Some(regs.ss_desc),
                Register16::CS => Some(regs.cs_desc),
                _ => None,
            },
            Registers::V3A(regs) | Registers::V3B(regs) => match segment {
                Register16::DS => Some(regs.ds_desc),
                Register16::ES => Some(regs.es_desc),
                Register16::FS => Some(regs.fs_desc),
                Register16::GS => Some(regs.gs_desc),
                Register16::SS => Some(regs.ss_desc),
                Register16::CS => Some(regs.cs_desc),
                _ => None,
            },
        }
    }

    /// The limit of a segment, where the loaded layout holds its descriptor
    /// (not the read-back 80386 layout).
    pub fn segment_limit(&self, segment: Register16) -> (r: Option<u32>)
        ensures
            r == match *self {
                Registers::V1(_) | Registers::V3B(_) => None,
                _ => match spec_descriptor(*self, segment) {
                    Some(d) => Some(d.limit),
                    None => None,
                },
            },
    {
        match self {
            Registers::V1(_) | Registers::V3B(_) => None,
            _ => match self.descriptor(segment) {
                Some(d) => Some(d.limit),
                None => None,
            },
        }
    }

    /// The base address of a segment, where the layout holds its descriptor.
    pub fn segment_base(&self, segment: Register16) -> (r: Option<u32>)
        ensures
            r == match spec_descriptor(*self, segment) {
                Some(d) => Some(d.base),
                None => None,
            },
    {
        match self.descriptor(segment) {
            Some(d) => Some(d.base),
            None => None,
        }
    }

    /// The selector of a segment register, where the layout has descriptors.
    pub fn segment_selector(&self, segment: Register16) -> (r: Option<u16>)
        ensures
            r == spec_selector(*self, segment),
    {
        match self {
            Registers::V1(_) => None,
            Registers::V2(regs) => match segment {
                Register16::DS => Some(regs.ds),
                Register16::ES => Some(regs.es),
                Register16::SS => Some(regs.ss),
                Register16::CS => Some(regs.cs),
                _ => None,
            },
            Registers::V3A(regs) | Registers::V3B(regs) => match segment {
                Register16::DS => Some(regs.ds),
                Register16::ES => Some(regs.es),
                Register16::FS => Some(regs.fs),
                Register16::GS => Some(regs.gs),
                Register16::SS => Some(regs.ss),
                Register16::CS => Some(regs.cs),
                _ => None,
            },
        }
    }

    /// The default size of a segment: 16 bits on the 16-bit layouts and for
    /// non-segment registers, the descriptor's size on the loaded 80386
    /// layout. The read-back 80386 layout carries no sizes.
    pub fn segment_size(&self, segment: Register16) -> (r: SegmentSize)
        requires
            !(*self is V3B),
        ensures
            r == match spec_descriptor(*self, segment) {
                Some(d) => if *self is V3A {
                    d.size
                } else {
                    SegmentSize::Sixteen
                },
                None => SegmentSize::Sixteen,
            },
    {
        match self {
            Registers::V3A(_) => match self.descriptor(segment) {
                Some(d) => d.size,
                None => SegmentSize::Sixteen,
            },
            _ => SegmentSize::Sixteen,
        }
    }

    /// CX, the low 16 bits of ECX on the 80386 layouts.
    pub fn cx(&self) -> (r: u16)
        ensures
            r == spec_cx16(*self),
    {
        match self {
            Registers::V1(regs) => regs.cx,
            Registers::V2(regs) => regs.cx,
            Registers::V3A(regs) => regs.ecx as u16,
            Registers::V3B(regs) => regs.ecx as u16,
        }
    }

    /// Set CX; on the 80386 layouts the high half of ECX is kept.
    pub fn set_cx(&mut self, value: u16)
        ensures
            *final(self) == spec_with_cx(*old(self), value),
    {
        match self {
            Registers::V1(regs) => regs.cx = value,
            Registers::V2(regs) => regs.cx = value,
            Registers::V3A(regs) => {
                let e = regs.ecx;
                assert((e & 0xFFFF_0000) | value as u32 == (e / 0x10000) * 0x10000 + value)
                    by (bit_vector);
                regs.ecx = (regs.ecx & 0xFFFF_0000) | value as u32;
            },
            Registers::V3B(regs) => {
                let e = regs.ecx;
                assert((e & 0xFFFF_0000) | value as u32 == (e / 0x10000) * 0x10000 + value)
                    by (bit_vector);
                regs.ecx = (regs.ecx & 0xFFFF_0000) | value as u32;
            },
        }
    }

    /// ECX, CX zero-extended on the 16-bit layouts.
    pub fn ecx(&self) -> (r: u32)
        ensures
            r == spec_ecx(*self),
    {
        match self {
            Registers::V1(regs) => regs.cx as u32,
            Registers::V2(regs) => regs.cx as u32,
            Registers::V3A(regs) => regs.ecx,
            Registers::V3B(regs) => regs.ecx,
        }
    }

    /// Set ECX; the 16-bit layouts keep its low half.
    pub fn set_ecx(&mut self, value: u32)
        ensures
            *final(self) == spec_with_ecx(*old(self), value),
    {
        match self {
            Registers::V1(regs) => regs.cx = value as u16,
            Registers::V2(regs) => regs.cx = value as u16,
            Registers::V3A(regs) => regs.ecx = value,
            Registers::V3B(regs) => regs.ecx = value,
        }
    }

    /// DX, the low 16 bits of EDX on the 80386 layouts.
    pub fn dx(&self) -> (r: u16)
        ensures
            r == match *self {
                Registers::V1(x) => x.dx,
                Registers::V2(x) => x.dx,
                Registers::V3A(x) | Registers::V3B(x) => x.edx as u16,
            },
    {
        match self {
            Registers::V1(regs) => regs.dx,
            Registers::V2(regs) => regs.dx,
            Registers::V3A(regs) => regs.edx as u16,
            Registers::V3B(regs) => regs.edx as u16,
        }
    }

    /// EDX, DX zero-extended on the 16-bit layouts.
    pub fn edx(&self) -> (r: u32)
        ensures
            r == match *self {
                Registers::V1(x) => x.dx as u32,
                Registers::V2(x) => x.dx as u32,
                Registers::V3A(x) | Registers::V3B(x) => x.edx,
            },
    {
        match self {
            Registers::V1(regs) => regs.dx as u32,
            Registers::V2(regs) => regs.dx as u32,
            Registers::V3A(regs) => regs.edx,
            Registers::V3B(regs) => regs.edx,
        }
    }

    /// SP, the low 16 bits of ESP on the 80386 layouts.
    pub fn sp(&self) -> (r: u16)
        ensures
            r == spec_stack_pointer(*self) as u16,
    {
        match self {
            Registers::V1(regs) => regs.sp,
            Registers::V2(regs) => regs.sp,
            Registers::V3A(regs) => regs.esp as u16,
            Registers::V3B(regs) => regs.esp as u16,
        }
    }

    /// The flags, the low 16 bits of EFLAGS on the 80386 layouts.
    pub fn flags(&self) -> (r: u16)
        ensures
            r == spec_flags32(*self) as u16,
    {
        match self {
            Registers::V1(regs) => regs.flags,
            Registers::V2(regs) => regs.flags,
            Registers::V3A(regs) => regs.eflags as u16,
            Registers::V3B(regs) => regs.eflags as u16,
        }
    }

    /// The linear address of the top of the stack: the stack segment's base
    /// plus the stack pointer, wrapping at 32 bits.
    pub fn stack_address(&self) -> (r: u32)
        ensures
            r == spec_segment_base(*self, Register16::SS).wrapping_add(spec_stack_pointer(*self)),
    {
        let base = self.ss_base();
        match self {
            Registers::V1(regs) => base.wrapping_add(regs.sp as u32),
            Registers::V2(regs) => base.wrapping_add(regs.sp as u32),
            Registers::V3A(regs) => base.wrapping_add(regs.esp),
            Registers::V3B(regs) => base.wrapping_add(regs.esp),
        }
    }

    /// The base address of a segment named by a 16-bit register; 0 for a
    /// register that is not a segment register.
    pub fn segment_base16(&self, segment: Register16) -> (r: u32)
        ensures
            r == spec_segment_base(*self, segment),
    {
        match segment {
            Register16::CS => self.cs_base(),
            Register16::DS => self.ds_base(),
            Register16::ES => self.es_base(),
            Register16::SS => self.ss_base(),
            Register16::FS => self.fs_base(),
            Register16::GS => self.gs_base(),
            _ => {
                assert(spec_segment_base(*self, segment) == 0);
                0
            },
        }
    }

    /// The base address of a segment named by a 32-bit register; 0 for a
    /// register that is not a segment register.
    pub fn segment_base32(&self, segment: Register32) -> (r: u32)
        ensures
            r == match segment {
                Register32::CS => spec_segment_base(*self, Register16::CS),
                Register32::DS => spec_segment_base(*self, Register16::DS),
                Register32::ES => spec_segment_base(*self, Register16::ES),
                Register32::SS => spec_segment_base(*self, Register16::SS),
                Register32::FS => spec_segment_base(*self, Register16::FS),
                Register32::GS => spec_segment_base(*self, Register16::GS),
                _ => 0u32,
            },
    {
        match segment {
            Register32::CS => self.cs_base(),
            Register32::DS => self.ds_base(),
            Register32::ES => self.es_base(),
            Register32::SS => self.ss_base(),
            Register32::FS => self.fs_base(),
            Register32::GS => self.gs_base(),
            _ => 0,
        }
    }

    /// Check a register file: the always-set flags bit 1 must be set.
    pub fn validate(&self) -> (r: Result<(), RegisterError>)
        ensures
            r is Ok <==> spec_flags32(*self) & 2 != 0,
            r is Err ==> r == Err::<(), RegisterError>(RegisterError::ReservedFlagClear),
    {
        let flags: u32 = match self {
            Registers::V1(regs) => regs.flags as u32,
            Registers::V2(regs) => regs.flags as u32,
            Registers::V3A(regs) => regs.eflags,
            Registers::V3B(regs) => regs.eflags,
        };
        if flags & 0x0002 == 0 {
            Err(RegisterError::ReservedFlagClear)
        } else {
            Ok(())
        }
    }
}

/// The 16-bit test-file form of a 16-bit register file given register by register.
fn moo16_from(
    ax: u16, bx: u16, cx: u16, dx: u16, cs: u16, ss: u16, ds: u16, es: u16,
    sp: u16, bp: u16, si: u16, di: u16, ip: u16, flags: u16,
) -> (r: MooRegisters16)
    ensures
        r == (MooRegisters16 { ax, bx, cx, dx, cs, ss, ds, es, sp, bp, si, di, ip, flags }),
{
    MooRegisters16 { ax, bx, cx, dx, cs, ss, ds, es, sp, bp, si, di, ip, flags }
}

impl MooRegisters16 {
    /// The 16-bit test-file form of a register file; only the 16-bit layouts have one.
    pub fn try_from_registers(regs: &Registers) -> (r: Result<MooRegisters16, RegisterError>)
        ensures
            match spec_moo16(*regs) {
                Some(m) => r == Ok::<MooRegisters16, RegisterError>(m),
                None => r == Err::<MooRegisters16, RegisterError>(RegisterError::UnsupportedVersion),
            },
    {
        match regs {
            Registers::V1(v) => Ok(moo16_from(v.ax, v.bx, v.cx, v.dx, v.cs, v.ss, v.ds, v.es, v.sp, v.bp, v.si, v.di, v.ip, v.flags)),
            Registers::V2(v) => Ok(moo16_from(v.ax, v.bx, v.cx, v.dx, v.cs, v.ss, v.ds, v.es, v.sp, v.bp, v.si, v.di, v.ip, v.flags)),
            _ => Err(RegisterError::UnsupportedVersion),
        }
    }
}

/// The 32-bit test-file form of an 80386 register file.
fn moo32_from(r: &RemoteCpuRegisters32, cr3: u32) -> (m: MooRegisters32)
    ensures
        m == moo32_of(*r, cr3),
{
    MooRegisters32 {
        cr0: r.cr0,
        cr3,
        eax: r.eax,
        ebx: r.ebx,
        ecx: r.ecx,
        edx: r.edx,
        esi: r.esi,
        edi: r.edi,
        ebp: r.ebp,
        esp: r.esp,
        cs: r.cs as u32,
        ds: r.ds as u32,
        es: r.es as u32,
        fs: r.fs as u32,
        gs: r.gs as u32,
        ss: r.ss as u32,
        eip: r.eip,
        eflags: r.eflags,
        dr6: r.dr6,
        dr7: r.dr7,
    }
}

impl MooRegisters32 {
    /// The 32-bit test-file form of a register file; only the 80386 layouts
    /// have one, and the loaded layout stores CR3 as 0.
    pub fn try_from_registers(regs: &Registers) -> (r: Result<MooRegisters32, RegisterError>)
        ensures
            match spec_moo32(*regs) {
                Some(m) => r == Ok::<MooRegisters32, RegisterError>(m),
                None => r == Err::<MooRegisters32, RegisterError>(RegisterError::UnsupportedVersion),
            },
    {
        match regs {
            Registers::V3A(v) => Ok(moo32_from(v, 0)),
            Registers::V3B(v) => Ok(moo32_from(v, v.cr3)),
            _ => Err(RegisterError::UnsupportedVersion),
        }
    }
}

impl MooRegisters {
    /// The test-file form of a register file, of the layout's width.
    pub fn from_registers(regs: &Registers) -> (r: MooRegisters)
        ensures
            match spec_moo16(*regs) {
                Some(m) => r == MooRegisters::Sixteen(m),
                None => r == MooRegisters::ThirtyTwo(spec_moo32(*regs).unwrap()),
            },
    {
        match regs {
            Registers::V1(v) => MooRegisters::Sixteen(moo16_from(v.ax, v.bx, v.cx, v.dx, v.cs, v.ss, v.ds, v.es, v.sp, v.bp, v.si, v.di, v.ip, v.flags)),
            Registers::V2(v) => MooRegisters::Sixteen(moo16_from(v.ax, v.bx, v.cx, v.dx, v.cs, v.ss, v.ds, v.es, v.sp, v.bp, v.si, v.di, v.ip, v.flags)),
            Registers::V3A(v) => MooRegisters::ThirtyTwo(moo32_from(v, 0)),
            Registers::V3B(v) => MooRegisters::ThirtyTwo(moo32_from(v, v.cr3)),
        }
    }
}

/// Check the registers a 16-bit CPU stored after a test for the shift that a
/// register dump misaligned by one word produces: for any instruction but
/// XCHG, a register that now holds the initial value of its neighbour in the
/// store order, where the two differed, is an error. 32-bit register files
/// are not checked.
pub fn validate_register_delta(is_xchg: bool, initial_regs: &Registers, final_regs: &Registers) -> (r: Result<(), RegisterError>)
    ensures
        r is Err <==> (!is_xchg && match (spec_moo16(*initial_regs), spec_moo16(*final_regs)) {
            (Some(i), Some(f)) => spec_off_by_one(i, f),
            _ => false,
        }),
        r is Err ==> r == Err::<(), RegisterError>(RegisterError::OffByOneStore),
{
    let mut error = false;
    if let (Ok(i), Ok(f)) = (MooRegisters16::try_from_registers(initial_regs), MooRegisters16::try_from_registers(final_regs)) {
        if !is_xchg {
            if (i.ax != i.cx) && (f.ax == i.cx) {
                error = true;
            }
            if (i.cx != i.dx) && (f.cx == i.dx) {
                error = true;
            }
            if (i.dx != i.bx) && (f.dx == i.bx) {
                error = true;
            }
            if (i.bx != i.sp) && (f.bx == i.sp) {
                error = true;
            }
            if (i.sp != i.bp) && (f.sp == i.bp) {
                error = true;
            }
            if (i.bp != i.si) && (f.bp == i.si) {
                error = true;
            }
            if (i.si != i.di) && (f.si == i.di) {
                error = true;
            }
            if (i.di != i.es) && (f.di == i.es) {
                error = true;
            }
            if (i.es != i.cs) && (f.es == i.cs) {
                error = true;
            }
            if (i.cs != i.ss) && (f.cs == i.ss) {
                error = true;
            }
            if (i.ss != i.ds) && (f.ss == i.ds) {
                error = true;
            }
        }
    }
    if error {
        Err(RegisterError::OffByOneStore)
    } else {
        Ok(())
    }
}


/// A register file generated for a test, the seed it was drawn from, and the
/// linear address its code starts at.
#[derive(Copy, Clone, Debug)]
pub struct TestRegisters {
    pub regs: Registers,
    pub reg_seed: u64,
    pub instruction_address: u32,
}

/// A stack pointer range that applies to one opcode.
#[derive(Copy, Clone, Debug)]
pub struct SpOverride {
    pub opcode: u8,
    pub min: u16,
    pub max: u16,
}

/// The seed of a test's registers: the file seed xor-ed with the test
/// number, the generation count from bit 24 up, and bit 31 set (so that it
/// differs from the instruction's seed).
pub open spec fn spec_register_seed(file_seed: u64, test_num: u64, gen_number: u64) -> u64 {
    file_seed ^ (test_num | (gen_number << 24u64) | 0x8000_0000u64)
}

/// The seed of a test's registers.
pub fn register_seed(file_seed: u64, test_num: usize, gen_number: usize) -> (r: u64)
    ensures
        r == spec_register_seed(file_seed, test_num as u64, gen_number as u64),
{
    file_seed ^ ((test_num as u64) | ((gen_number as u64) << 24u64) | 0x8000_0000u64)
}

/// The stack pointer range for an opcode: that of the first override for
/// it, else the default range.
pub open spec fn spec_sp_range(sp_min: u16, sp_max: u16, overrides: Seq<SpOverride>, opcode: u8) -> (u16, u16)
    decreases overrides.len(),
{
    if overrides.len() == 0 {
        (sp_min, sp_max)
    } else if overrides[0].opcode == opcode {
        (overrides[0].min, overrides[0].max)
    } else {
        spec_sp_range(sp_min, sp_max, overrides.drop_first(), opcode)
    }
}

/// The stack pointer range to draw a test's SP from.
pub fn sp_range(sp_min: u16, sp_max: u16, sp_overrides: &[SpOverride], opcode: u8) -> (r: (u16, u16))
    ensures
        r == spec_sp_range(sp_min, sp_max, sp_overrides@, opcode),
{
    let mut i: usize = 0;
    assert(sp_overrides@.skip(0) == sp_overrides@);
    while i < sp_overrides.len()
        invariant
            i <= sp_overrides@.len(),
            spec_sp_range(sp_min, sp_max, sp_overrides@.skip(i as int), opcode) == spec_sp_range(
                sp_min,
                sp_max,
                sp_overrides@,
                opcode,
            ),
        decreases sp_overrides.len() - i,
    {
        assert(sp_overrides@.skip(i as int)[0] == sp_overrides@[i as int]);
        if sp_overrides[i].opcode == opcode {
            return (sp_overrides[i].min, sp_overrides[i].max);
        }
        assert(sp_overrides@.skip(i as int).drop_first() == sp_overrides@.skip(i as int + 1));
        i += 1;
    }
    (sp_min, sp_max)
}

/// The masked code address of a register file, if it lies in the allowed
/// half-open range; register files whose code lies elsewhere are drawn again.
pub fn instruction_address_in_range(code_address: u32, address_mask: u32, range: [u32; 2]) -> (r: Option<u32>)
    ensures
        r == (if range[0] <= code_address & address_mask < range[1] {
            Some(code_address & address_mask)
        } else {
            None
        }),
{
    let a = code_address & address_mask;
    if range[0] <= a && a < range[1] {
        Some(a)
    } else {
        None
    }
}

/// The 16-bit registers in the order a register dump stores them: AX CX DX
/// BX SP BP SI DI ES CS SS DS.
pub open spec fn store_order(m: MooRegisters16) -> Seq<u16> {
    seq![m.ax, m.cx, m.dx, m.bx, m.sp, m.bp, m.si, m.di, m.es, m.cs, m.ss, m.ds]
}

/// A register file looks shifted by one store exactly when some register
/// holds, after the run, the initial value of the register that follows it
/// in the store order, where those two initial values differed. Each
/// register is compared with its successor only.
pub proof fn law_off_by_one_is_successor_shift(i: MooRegisters16, f: MooRegisters16)
    ensures
        spec_off_by_one(i, f) <==> exists|k: int|
            0 <= k < 11 && #[trigger] store_order(f)[k] == store_order(i)[k + 1] && store_order(i)[k]
                != store_order(i)[k + 1],
{
    if exists|k: int|
        0 <= k < 11 && #[trigger] store_order(f)[k] == store_order(i)[k + 1] && store_order(i)[k]
            != store_order(i)[k + 1] {
        let k = choose|k: int|
            0 <= k < 11 && #[trigger] store_order(f)[k] == store_order(i)[k + 1] && store_order(i)[k]
                != store_order(i)[k + 1];
        if k == 0 {
            assert(shifted(store_order(i)[0], store_order(i)[1], store_order(f)[0]));
        } else if k == 1 {
            assert(shifted(store_order(i)[1], store_order(i)[2], store_order(f)[1]));
        } else if k == 2 {
            assert(shifted(store_order(i)[2], store_order(i)[3], store_order(f)[2]));
        } else if k == 3 {
            assert(shifted(store_order(i)[3], store_order(i)[4], store_order(f)[3]));
        } else if k == 4 {
            assert(shifted(store_order(i)[4], store_order(i)[5], store_order(f)[4]));
        } else if k == 5 {
            assert(shifted(store_order(i)[5], store_order(i)[6], store_order(f)[5]));
        } else if k == 6 {
            assert(shifted(store_order(i)[6], store_order(i)[7], store_order(f)[6]));
        } else if k == 7 {
            assert(shifted(store_order(i)[7], store_order(i)[8], store_order(f)[7]));
        } else if k == 8 {
            assert(shifted(store_order(i)[8], store_order(i)[9], store_order(f)[8]));
        } else if k == 9 {
            assert(shifted(store_order(i)[9], store_order(i)[10], store_order(f)[9]));
        } else if k == 10 {
            assert(shifted(store_order(i)[10], store_order(i)[11], store_order(f)[10]));
        }
    }
    if shifted(i.ax, i.cx, f.ax) {
        assert(store_order(i)[0] != store_order(i)[1] && store_order(f)[0] == store_order(i)[1]);
    }
    if shifted(i.cx, i.dx, f.cx) {
        assert(store_order(i)[1] != store_order(i)[2] && store_order(f)[1] == store_order(i)[2]);
    }
    if shifted(i.dx, i.bx, f.dx) {
        assert(store_order(i)[2] != store_order(i)[3] && store_order(f)[2] == store_order(i)[3]);
    }
    if shifted(i.bx, i.sp, f.bx) {
        assert(store_order(i)[3] != store_order(i)[4] && store_order(f)[3] == store_order(i)[4]);
    }
    if shifted(i.sp, i.bp, f.sp) {
        assert(store_order(i)[4] != store_order(i)[5] && store_order(f)[4] == store_order(i)[5]);
    }
    if shifted(i.bp, i.si, f.bp) {
        assert(store_order(i)[5] != store_order(i)[6] && store_order(f)[5] == store_order(i)[6]);
    }
    if shifted(i.si, i.di, f.si) {
        assert(store_order(i)[6] != store_order(i)[7] && store_order(f)[6] == store_order(i)[7]);
    }
    if shifted(i.di, i.es, f.di) {
        assert(store_order(i)[7] != store_order(i)[8] && store_order(f)[7] == store_order(i)[8]);
    }
    if shifted(i.es, i.cs, f.es) {
        assert(store_order(i)[8] != store_order(i)[9] && store_order(f)[8] == store_order(i)[9]);
    }
    if shifted(i.cs, i.ss, f.cs) {
        assert(store_order(i)[9] != store_order(i)[10] && store_order(f)[9] == store_order(i)[10]);
    }
    if shifted(i.ss, i.ds, f.ss) {
        assert(store_order(i)[10] != store_order(i)[11] && store_order(f)[10] == store_order(i)[11]);
    }
}

/// A run that changes a single register of the store order, to a value that
/// is not the initial value of the register after it, is not taken for a
/// shifted dump, whatever other register's initial value it takes.
pub proof fn law_single_change_off_successor_accepted(i: MooRegisters16, f: MooRegisters16, k: int)
    requires
        0 <= k < 12,
        forall|j: int| 0 <= j < 12 && j != k ==> #[trigger] store_order(f)[j] == store_order(i)[j],
        k < 11 ==> store_order(f)[k] != store_order(i)[k + 1],
    ensures
        !spec_off_by_one(i, f),
{
    law_off_by_one_is_successor_shift(i, f);
    if spec_off_by_one(i, f) {
        let j = choose|j: int|
            0 <= j < 11 && #[trigger] store_order(f)[j] == store_order(i)[j + 1] && store_order(i)[j]
                != store_order(i)[j + 1];
        if j != k {
            assert(store_order(f)[j] == store_order(i)[j]);
        }
    }
}

} // verus!
