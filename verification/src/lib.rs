//! Verified core of an x86 CPU test generator: the byte-level memory model
//! that replays bus cycles, ModR/M and SIB decoding, bus operation analysis,
//! initial/final memory state reconstruction and test batching.

pub mod hash_memory;
pub mod cpu_common;
pub mod cycles;
pub mod disassembly;
pub mod effective_address;
pub mod generate_util;
pub mod gen_test;
pub mod operand_masks;
pub mod register_compare;
pub mod registers;
pub mod modrm;
pub mod batch;
pub mod instruction;
pub mod bus_ops;
pub mod state;
pub mod text;
pub mod validate;
pub mod enums;
pub mod size_prefix;
pub mod instruction_name;
pub mod generation_stats;
pub mod config;
pub mod flags;
pub mod iced_codes;
