//! Bits of the x86 FLAGS register.

use vstd::prelude::*;

verus! {

pub const CPU_FLAG_CARRY: u16 = 0b0000_0000_0000_0001;
pub const CPU_FLAG_RESERVED1: u16 = 0b0000_0000_0000_0010;
pub const CPU_FLAG_PARITY: u16 = 0b0000_0000_0000_0100;
pub const CPU_FLAG_RESERVED3: u16 = 0b0000_0000_0000_1000;
pub const CPU_FLAG_AUX_CARRY: u16 = 0b0000_0000_0001_0000;
pub const CPU_FLAG_RESERVED5: u16 = 0b0000_0000_0010_0000;
pub const CPU_FLAG_ZERO: u16 = 0b0000_0000_0100_0000;
pub const CPU_FLAG_SIGN: u16 = 0b0000_0000_1000_0000;
pub const CPU_FLAG_TRAP: u16 = 0b0000_0001_0000_0000;
pub const CPU_FLAG_INT_ENABLE: u16 = 0b0000_0010_0000_0000;
pub const CPU_FLAG_DIRECTION: u16 = 0b0000_0100_0000_0000;
pub const CPU_FLAG_OVERFLOW: u16 = 0b0000_1000_0000_0000;
/// Reserved bit 15.
pub const CPU_FLAG_F15: u16 = 0b1000_0000_0000_0000;
pub const CPU_FLAG_MODE: u16 = 0b1000_0000_0000_0000;
/// Nested task.
pub const CPU_FLAG_NT: u16 = 0b0100_0000_0000_0000;
/// I/O privilege level, low bit.
pub const CPU_FLAG_IOPL0: u16 = 0b0001_0000_0000_0000;
/// I/O privilege level, high bit.
pub const CPU_FLAG_IOPL1: u16 = 0b0010_0000_0000_0000;

} // verus!
