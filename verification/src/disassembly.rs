//! The decoded form of a test instruction: the operand values that the
//! generator reads and rewrites, and its displacement as the instruction
//! bytes encode it.

use crate::cpu_common::Displacement;
use crate::enums::SegmentSize;
use crate::hash_memory::{dword_of, lemma_dword_join, lemma_word_join, word_of};
use crate::registers::Registers;
use iced_x86::Formatter;
use vstd::prelude::*;

verus! {

/// The values iced-x86 decodes from an instruction that the generator reads:
/// `code`, `mnemonic`, operand kinds, memory segment and memory size are the
/// numeric values of the iced-x86 enums of those names.
#[derive(Copy, Clone, Debug, PartialEq, Eq, Structural)]
pub struct DecodedInstruction {
    pub len: usize,
    pub code: u16,
    pub mnemonic: u16,
    pub op0_kind: u8,
    pub op1_kind: u8,
    pub memory_segment: u8,
    pub memory_size: u8,
    pub memory_displ_size: u32,
    pub memory_displacement32: u32,
    pub immediate8: u8,
    pub immediate16: u16,
    pub immediate32: u32,
    pub near_branch16: u16,
    pub near_branch32: u32,
    pub far_branch32: u32,
}

/// A decoded instruction with the displacement found in its bytes, and the
/// offset of that displacement.
#[derive(Copy, Clone, Debug)]
pub struct IcedDisassembly {
    pub decoded: DecodedInstruction,
    pub disp: Option<Displacement>,
    pub disp_offset: usize,
}

/// Whether a displacement of the given size at the given offset lies inside
/// the bytes, where the offset is inside them.
pub open spec fn displacement_fits(len: int, d_offset: int, d_size: int) -> bool {
    d_offset < len ==> (d_size == 2 ==> d_offset + 2 <= len) && (d_size == 4 ==> d_offset + 4 <= len)
}

/// The displacement that `bytes` holds at `d_offset`, read little-endian in
/// the given size (1, 2 or 4 bytes), and the offset it was read from; none,
/// at offset 0, for any other size or an offset outside the bytes.
pub open spec fn spec_displacement(bytes: Seq<u8>, d_offset: int, d_size: int) -> (Option<Displacement>, usize) {
    if d_offset >= bytes.len() {
        (None, 0)
    } else if d_size == 1 {
        (Some(Displacement::Disp8(bytes[d_offset] as i8)), d_offset as usize)
    } else if d_size == 2 {
        (Some(Displacement::Disp16(word_of(bytes[d_offset], bytes[d_offset + 1]) as i16)), d_offset as usize)
    } else if d_size == 4 {
        (
            Some(
                Displacement::Disp32(
                    dword_of(
                        bytes[d_offset],
                        bytes[d_offset + 1],
                        bytes[d_offset + 2],
                        bytes[d_offset + 3],
                    ) as i32,
                ),
            ),
            d_offset as usize,
        )
    } else {
        (None, 0)
    }
}

/// What iced-x86 decodes from the start of `bytes` for a CPU of the given
/// bitness, at instruction pointer `ip` and with the given decoder options.
pub uninterp spec fn iced_decoded(bitness: u32, bytes: Seq<u8>, ip: u64, options: u32) -> DecodedInstruction;

/// The offset and size of the displacement of that instruction, as iced-x86
/// reports them in its constant offsets.
pub uninterp spec fn iced_displacement_at(bitness: u32, bytes: Seq<u8>, ip: u64, options: u32) -> (
    usize,
    usize,
);

/// Decodes the first instruction of `bytes` with `iced_x86::Decoder::decode`
/// and reads back the values the generator works on; each iced-x86 enum is
/// kept as its numeric value. The contract claims only that the result is a
/// function of the arguments. `Decoder::with_ip` panics for a bitness other
/// than 16, 32 or 64, which `requires` leaves out, and for a slice whose end
/// lies within 15 bytes of the top of the address space, which is not stated.
#[verifier::external_body]
fn decode_instruction(bitness: u32, bytes: &[u8], ip: u64, options: u32) -> (r: DecodedInstruction)
    requires
        bitness == 16 || bitness == 32 || bitness == 64,
    ensures
        r == iced_decoded(bitness, bytes@, ip, options),
{
    let mut decoder = iced_x86::Decoder::with_ip(bitness, bytes, ip, options);
    let i = decoder.decode();
    DecodedInstruction {
        len: i.len(), code: i.code() as u16, mnemonic: i.mnemonic() as u16,
        op0_kind: i.op0_kind() as u8, op1_kind: i.op1_kind() as u8,
        memory_segment: i.memory_segment() as u8, memory_size: i.memory_size() as u8,
        memory_displ_size: i.memory_displ_size(), memory_displacement32: i.memory_displacement32(),
        immediate8: i.immediate8(), immediate16: i.immediate16(), immediate32: i.immediate32(),
        near_branch16: i.near_branch16(), near_branch32: i.near_branch32(),
        far_branch32: i.far_branch32(),
    }
}

/// Decodes the first instruction of `bytes` as `decode_instruction` does and
/// returns the displacement offset and size that
/// `iced_x86::Decoder::get_constant_offsets` reports for it. The contract
/// claims only that the result is a function of the arguments; the panics
/// are those of `decode_instruction`.
#[verifier::external_body]
fn displacement_location(bitness: u32, bytes: &[u8], ip: u64, options: u32) -> (r: (usize, usize))
    requires
        bitness == 16 || bitness == 32 || bitness == 64,
    ensures
        r == iced_displacement_at(bitness, bytes@, ip, options),
{
    let mut decoder = iced_x86::Decoder::with_ip(bitness, bytes, ip, options);
    let i = decoder.decode();
    let offsets = decoder.get_constant_offsets(&i);
    (offsets.displacement_offset(), offsets.displacement_size())
}

/// The opcode information iced-x86 gives for the first instruction of
/// `bytes`: the opcode value, its opcode table and the kind of its first
/// operand in the opcode encoding, each as its numeric value.
pub uninterp spec fn iced_opcode_info(bitness: u32, bytes: Seq<u8>, ip: u64, options: u32) -> (u16, u8, u8);

/// Decodes the first instruction of `bytes` as `decode_instruction` does and
/// reads `Instruction::op_code()`: `OpCodeInfo::op_code` (the opcode byte or
/// bytes, at most two, so it fits 16 bits), `table` and `op0_kind`, as their
/// numeric values. The contract claims only that the result is a function of
/// the arguments; the panics are those of `decode_instruction`.
#[verifier::external_body]
pub(crate) fn opcode_info(bitness: u32, bytes: &[u8], ip: u64, options: u32) -> (r: (u16, u8, u8))
    requires
        bitness == 16 || bitness == 32 || bitness == 64,
    ensures
        r == iced_opcode_info(bitness, bytes@, ip, options),
{
    let i = iced_x86::Decoder::with_ip(bitness, bytes, ip, options).decode();
    let info = i.op_code();
    (info.op_code() as u16, info.table() as u8, info.op0_kind() as u8)
}

/// The memory operands iced-x86's `InstructionInfoFactory` reports for the
/// first instruction of `bytes`, in its order: for each, its segment, base
/// and index registers as numeric values of `Register`.
pub uninterp spec fn iced_used_memory(bitness: u32, bytes: Seq<u8>, ip: u64, options: u32) -> Seq<(u8, u8, u8)>;

/// Decodes the first instruction of `bytes` as `decode_instruction` does and
/// reads `InstructionInfoFactory::info(..).used_memory()`, taking each
/// entry's `segment`, `base` and `index` (the enum has 256 values, so each
/// fits a byte). The contract claims only that the result is a function of
/// the arguments; the panics are those of `decode_instruction`.
#[verifier::external_body]
pub(crate) fn used_memory(bitness: u32, bytes: &[u8], ip: u64, options: u32) -> (r: Vec<(u8, u8, u8)>)
    requires
        bitness == 16 || bitness == 32 || bitness == 64,
    ensures
        r@ == iced_used_memory(bitness, bytes@, ip, options),
{
    let i = iced_x86::Decoder::with_ip(bitness, bytes, ip, options).decode();
    let mut factory = iced_x86::InstructionInfoFactory::new();
    let info = factory.info(&i);
    info.used_memory().iter().map(|m| (m.segment() as u8, m.base() as u8, m.index() as u8)).collect()
}

/// The NASM text and the mnemonic (without prefixes) that iced-x86's
/// `NasmFormatter` writes for the first instruction of `bytes`, with segment
/// registers always shown, no leading zero on hex numbers and the scale
/// always shown.
pub uninterp spec fn iced_nasm(bitness: u32, bytes: Seq<u8>, ip: u64, options: u32) -> (Seq<char>, Seq<char>);

/// Decodes the first instruction of `bytes` as `decode_instruction` does and
/// formats it with `NasmFormatter::format` and `format_mnemonic_options`
/// (`NO_PREFIXES`) under the options named above. The contract claims only
/// that the two strings are a function of the arguments; the panics are those
/// of `decode_instruction`.
#[verifier::external_body]
fn nasm_text(bitness: u32, bytes: &[u8], ip: u64, options: u32) -> (r: (String, String))
    requires
        bitness == 16 || bitness == 32 || bitness == 64,
    ensures
        r.0@ == iced_nasm(bitness, bytes@, ip, options).0,
        r.1@ == iced_nasm(bitness, bytes@, ip, options).1,
{
    let i = iced_x86::Decoder::with_ip(bitness, bytes, ip, options).decode();
    let mut f = iced_x86::NasmFormatter::new();
    f.options_mut().set_always_show_segment_register(true);
    f.options_mut().set_add_leading_zero_to_hex_numbers(false);
    f.options_mut().set_always_show_scale(true);
    let (mut text, mut mnemonic) = (String::new(), String::new());
    f.format(&i, &mut text);
    f.format_mnemonic_options(&i, &mut mnemonic, iced_x86::FormatMnemonicOptions::NO_PREFIXES);
    (text, mnemonic)
}

/// An operand value to write into a decoded instruction before encoding it
/// again.
#[derive(Copy, Clone, Debug, PartialEq, Eq, Structural)]
pub enum OperandRewrite {
    /// The 32-bit memory displacement.
    Displacement32(u32),
    /// The 8-bit immediate.
    Immediate8(u8),
    /// The sign-extended 8-bit immediate (as 16 bits).
    Immediate8to16(i16),
    /// The 16-bit immediate.
    Immediate16(u16),
    /// The 32-bit immediate.
    Immediate32(u32),
    /// The 16-bit near branch target.
    NearBranch16(u16),
    /// The 32-bit near branch target.
    NearBranch32(u32),
    /// The 32-bit far branch offset.
    FarBranch32(u32),
}

/// The bytes iced-x86's `Encoder` produces for the first instruction of
/// `bytes` with its 32-bit memory displacement replaced by `value`; none where the encoder
/// refuses the instruction.
pub uninterp spec fn iced_encoded_displacement32(bitness: u32, bytes: Seq<u8>, ip: u64, options: u32, value: u32) -> Option<Seq<u8>>;

/// Decodes the first instruction of `bytes` as `decode_instruction` does,
/// sets its 32-bit memory displacement with `Instruction::set_memory_displacement32`, and encodes it with
/// `Encoder::new(bitness)` and `Encoder::encode` at `ip`, taking the buffer.
/// An encoder error gives none. The contract claims only that the result is
/// a function of the arguments; `Encoder::new` panics for the same bitness
/// values as the decoder, which `requires` leaves out.
#[verifier::external_body]
fn encode_with_displacement32(bitness: u32, bytes: &[u8], ip: u64, options: u32, value: u32) -> (r: Option<Vec<u8>>)
    requires
        bitness == 16 || bitness == 32 || bitness == 64,
    ensures
        match r {
            Some(v) => iced_encoded_displacement32(bitness, bytes@, ip, options, value) == Some(v@),
            None => iced_encoded_displacement32(bitness, bytes@, ip, options, value) is None,
        },
{
    let mut i = iced_x86::Decoder::with_ip(bitness, bytes, ip, options).decode();
    i.set_memory_displacement32(value);
    let mut e = iced_x86::Encoder::new(bitness);
    match e.encode(&i, ip) {
        Ok(_) => Some(e.take_buffer()),
        Err(_) => None,
    }
}

/// The bytes iced-x86's `Encoder` produces for the first instruction of
/// `bytes` with its 8-bit immediate replaced by `value`; none where the encoder
/// refuses the instruction.
pub uninterp spec fn iced_encoded_immediate8(bitness: u32, bytes: Seq<u8>, ip: u64, options: u32, value: u8) -> Option<Seq<u8>>;

/// Decodes the first instruction of `bytes` as `decode_instruction` does,
/// sets its 8-bit immediate with `Instruction::set_immediate8`, and encodes it with
/// `Encoder::new(bitness)` and `Encoder::encode` at `ip`, taking the buffer.
/// An encoder error gives none. The contract claims only that the result is
/// a function of the arguments; `Encoder::new` panics for the same bitness
/// values as the decoder, which `requires` leaves out.
#[verifier::external_body]
fn encode_with_immediate8(bitness: u32, bytes: &[u8], ip: u64, options: u32, value: u8) -> (r: Option<Vec<u8>>)
    requires
        bitness == 16 || bitness == 32 || bitness == 64,
    ensures
        match r {
            Some(v) => iced_encoded_immediate8(bitness, bytes@, ip, options, value) == Some(v@),
            None => iced_encoded_immediate8(bitness, bytes@, ip, options, value) is None,
        },
{
    let mut i = iced_x86::Decoder::with_ip(bitness, bytes, ip, options).decode();
    i.set_immediate8(value);
    let mut e = iced_x86::Encoder::new(bitness);
    match e.encode(&i, ip) {
        Ok(_) => Some(e.take_buffer()),
        Err(_) => None,
    }
}

/// The bytes iced-x86's `Encoder` produces for the first instruction of
/// `bytes` with its sign-extended 8-bit immediate (as 16 bits) replaced by `value`; none where the encoder
/// refuses the instruction.
pub uninterp spec fn iced_encoded_immediate8to16(bitness: u32, bytes: Seq<u8>, ip: u64, options: u32, value: i16) -> Option<Seq<u8>>;

/// Decodes the first instruction of `bytes` as `decode_instruction` does,
/// sets its sign-extended 8-bit immediate (as 16 bits) with `Instruction::set_immediate8to16`, and encodes it with
/// `Encoder::new(bitness)` and `Encoder::encode` at `ip`, taking the buffer.
/// An encoder error gives none. The contract claims only that the result is
/// a function of the arguments; `Encoder::new` panics for the same bitness
/// values as the decoder, which `requires` leaves out.
#[verifier::external_body]
fn encode_with_immediate8to16(bitness: u32, bytes: &[u8], ip: u64, options: u32, value: i16) -> (r: Option<Vec<u8>>)
    requires
        bitness == 16 || bitness == 32 || bitness == 64,
    ensures
        match r {
            Some(v) => iced_encoded_immediate8to16(bitness, bytes@, ip, options, value) == Some(v@),
            None => iced_encoded_immediate8to16(bitness, bytes@, ip, options, value) is None,
        },
{
    let mut i = iced_x86::Decoder::with_ip(bitness, bytes, ip, options).decode();
    i.set_immediate8to16(value);
    let mut e = iced_x86::Encoder::new(bitness);
    match e.encode(&i, ip) {
        Ok(_) => Some(e.take_buffer()),
        Err(_) => None,
    }
}

/// The bytes iced-x86's `Encoder` produces for the first instruction of
/// `bytes` with its 16-bit immediate replaced by `value`; none where the encoder
/// refuses the instruction.
pub uninterp spec fn iced_encoded_immediate16(bitness: u32, bytes: Seq<u8>, ip: u64, options: u32, value: u16) -> Option<Seq<u8>>;

/// Decodes the first instruction of `bytes` as `decode_instruction` does,
/// sets its 16-bit immediate with `Instruction::set_immediate16`, and encodes it with
/// `Encoder::new(bitness)` and `Encoder::encode` at `ip`, taking the buffer.
/// An encoder error gives none. The contract claims only that the result is
/// a function of the arguments; `Encoder::new` panics for the same bitness
/// values as the decoder, which `requires` leaves out.
#[verifier::external_body]
fn encode_with_immediate16(bitness: u32, bytes: &[u8], ip: u64, options: u32, value: u16) -> (r: Option<Vec<u8>>)
    requires
        bitness == 16 || bitness == 32 || bitness == 64,
    ensures
        match r {
            Some(v) => iced_encoded_immediate16(bitness, bytes@, ip, options, value) == Some(v@),
            None => iced_encoded_immediate16(bitness, bytes@, ip, options, value) is None,
        },
{
    let mut i = iced_x86::Decoder::with_ip(bitness, bytes, ip, options).decode();
    i.set_immediate16(value);
    let mut e = iced_x86::Encoder::new(bitness);
    match e.encode(&i, ip) {
        Ok(_) => Some(e.take_buffer()),
        Err(_) => None,
    }
}

/// The bytes iced-x86's `Encoder` produces for the first instruction of
/// `bytes` with its 32-bit immediate replaced by `value`; none where the encoder
/// refuses the instruction.
pub uninterp spec fn iced_encoded_immediate32(bitness: u32, bytes: Seq<u8>, ip: u64, options: u32, value: u32) -> Option<Seq<u8>>;

/// Decodes the first instruction of `bytes` as `decode_instruction` does,
/// sets its 32-bit immediate with `Instruction::set_immediate32`, and encodes it with
/// `Encoder::new(bitness)` and `Encoder::encode` at `ip`, taking the buffer.
/// An encoder error gives none. The contract claims only that the result is
/// a function of the arguments; `Encoder::new` panics for the same bitness
/// values as the decoder, which `requires` leaves out.
#[verifier::external_body]
fn encode_with_immediate32(bitness: u32, bytes: &[u8], ip: u64, options: u32, value: u32) -> (r: Option<Vec<u8>>)
    requires
        bitness == 16 || bitness == 32 || bitness == 64,
    ensures
        match r {
            Some(v) => iced_encoded_immediate32(bitness, bytes@, ip, options, value) == Some(v@),
            None => iced_encoded_immediate32(bitness, bytes@, ip, options, value) is None,
        },
{
    let mut i = iced_x86::Decoder::with_ip(bitness, bytes, ip, options).decode();
    i.set_immediate32(value);
    let mut e = iced_x86::Encoder::new(bitness);
    match e.encode(&i, ip) {
        Ok(_) => Some(e.take_buffer()),
        Err(_) => None,
    }
}

/// The bytes iced-x86's `Encoder` produces for the first instruction of
/// `bytes` with its 16-bit near branch target replaced by `value`; none where the encoder
/// refuses the instruction.
pub uninterp spec fn iced_encoded_near_branch16(bitness: u32, bytes: Seq<u8>, ip: u64, options: u32, value: u16) -> Option<Seq<u8>>;

/// Decodes the first instruction of `bytes` as `decode_instruction` does,
/// sets its 16-bit near branch target with `Instruction::set_near_branch16`, and encodes it with
/// `Encoder::new(bitness)` and `Encoder::encode` at `ip`, taking the buffer.
/// An encoder error gives none. The contract claims only that the result is
/// a function of the arguments; `Encoder::new` panics for the same bitness
/// values as the decoder, which `requires` leaves out.
#[verifier::external_body]
fn encode_with_near_branch16(bitness: u32, bytes: &[u8], ip: u64, options: u32, value: u16) -> (r: Option<Vec<u8>>)
    requires
        bitness == 16 || bitness == 32 || bitness == 64,
    ensures
        match r {
            Some(v) => iced_encoded_near_branch16(bitness, bytes@, ip, options, value) == Some(v@),
            None => iced_encoded_near_branch16(bitness, bytes@, ip, options, value) is None,
        },
{
    let mut i = iced_x86::Decoder::with_ip(bitness, bytes, ip, options).decode();
    i.set_near_branch16(value);
    let mut e = iced_x86::Encoder::new(bitness);
    match e.encode(&i, ip) {
        Ok(_) => Some(e.take_buffer()),
        Err(_) => None,
    }
}

/// The bytes iced-x86's `Encoder` produces for the first instruction of
/// `bytes` with its 32-bit near branch target replaced by `value`; none where the encoder
/// refuses the instruction.
pub uninterp spec fn iced_encoded_near_branch32(bitness: u32, bytes: Seq<u8>, ip: u64, options: u32, value: u32) -> Option<Seq<u8>>;

/// Decodes the first instruction of `bytes` as `decode_instruction` does,
/// sets its 32-bit near branch target with `Instruction::set_near_branch32`, and encodes it with
/// `Encoder::new(bitness)` and `Encoder::encode` at `ip`, taking the buffer.
/// An encoder error gives none. The contract claims only that the result is
/// a function of the arguments; `Encoder::new` panics for the same bitness
/// values as the decoder, which `requires` leaves out.
#[verifier::external_body]
fn encode_with_near_branch32(bitness: u32, bytes: &[u8], ip: u64, options: u32, value: u32) -> (r: Option<Vec<u8>>)
    requires
        bitness == 16 || bitness == 32 || bitness == 64,
    ensures
        match r {
            Some(v) => iced_encoded_near_branch32(bitness, bytes@, ip, options, value) == Some(v@),
            None => iced_encoded_near_branch32(bitness, bytes@, ip, options, value) is None,
        },
{
    let mut i = iced_x86::Decoder::with_ip(bitness, bytes, ip, options).decode();
    i.set_near_branch32(value);
    let mut e = iced_x86::Encoder::new(bitness);
    match e.encode(&i, ip) {
        Ok(_) => Some(e.take_buffer()),
        Err(_) => None,
    }
}

/// The bytes iced-x86's `Encoder` produces for the first instruction of
/// `bytes` with its 32-bit far branch offset replaced by `value`; none where the encoder
/// refuses the instruction.
pub uninterp spec fn iced_encoded_far_branch32(bitness: u32, bytes: Seq<u8>, ip: u64, options: u32, value: u32) -> Option<Seq<u8>>;

/// Decodes the first instruction of `bytes` as `decode_instruction` does,
/// sets its 32-bit far branch offset with `Instruction::set_far_branch32`, and encodes it with
/// `Encoder::new(bitness)` and `Encoder::encode` at `ip`, taking the buffer.
/// An encoder error gives none. The contract claims only that the result is
/// a function of the arguments; `Encoder::new` panics for the same bitness
/// values as the decoder, which `requires` leaves out.
#[verifier::external_body]
fn encode_with_far_branch32(bitness: u32, bytes: &[u8], ip: u64, options: u32, value: u32) -> (r: Option<Vec<u8>>)
    requires
        bitness == 16 || bitness == 32 || bitness == 64,
    ensures
        match r {
            Some(v) => iced_encoded_far_branch32(bitness, bytes@, ip, options, value) == Some(v@),
            None => iced_encoded_far_branch32(bitness, bytes@, ip, options, value) is None,
        },
{
    let mut i = iced_x86::Decoder::with_ip(bitness, bytes, ip, options).decode();
    i.set_far_branch32(value);
    let mut e = iced_x86::Encoder::new(bitness);
    match e.encode(&i, ip) {
        Ok(_) => Some(e.take_buffer()),
        Err(_) => None,
    }
}

/// What the encoder gives for an instruction with one operand rewritten.
pub open spec fn spec_encoded(bitness: u32, bytes: Seq<u8>, ip: u64, options: u32, rewrite: OperandRewrite) -> Option<Seq<u8>> {
    match rewrite {
        OperandRewrite::Displacement32(v) => iced_encoded_displacement32(bitness, bytes, ip, options, v),
        OperandRewrite::Immediate8(v) => iced_encoded_immediate8(bitness, bytes, ip, options, v),
        OperandRewrite::Immediate8to16(v) => iced_encoded_immediate8to16(bitness, bytes, ip, options, v),
        OperandRewrite::Immediate16(v) => iced_encoded_immediate16(bitness, bytes, ip, options, v),
        OperandRewrite::Immediate32(v) => iced_encoded_immediate32(bitness, bytes, ip, options, v),
        OperandRewrite::NearBranch16(v) => iced_encoded_near_branch16(bitness, bytes, ip, options, v),
        OperandRewrite::NearBranch32(v) => iced_encoded_near_branch32(bitness, bytes, ip, options, v),
        OperandRewrite::FarBranch32(v) => iced_encoded_far_branch32(bitness, bytes, ip, options, v),
    }
}

/// Encode the first instruction of `bytes` again with one operand
/// rewritten.
pub fn encode_rewritten(bitness: u32, bytes: &[u8], ip: u64, options: u32, rewrite: OperandRewrite) -> (r: Option<Vec<u8>>)
    requires
        bitness == 16 || bitness == 32 || bitness == 64,
    ensures
        match r {
            Some(v) => spec_encoded(bitness, bytes@, ip, options, rewrite) == Some(v@),
            None => spec_encoded(bitness, bytes@, ip, options, rewrite) is None,
        },
{
    match rewrite {
        OperandRewrite::Displacement32(v) => encode_with_displacement32(bitness, bytes, ip, options, v),
        OperandRewrite::Immediate8(v) => encode_with_immediate8(bitness, bytes, ip, options, v),
        OperandRewrite::Immediate8to16(v) => encode_with_immediate8to16(bitness, bytes, ip, options, v),
        OperandRewrite::Immediate16(v) => encode_with_immediate16(bitness, bytes, ip, options, v),
        OperandRewrite::Immediate32(v) => encode_with_immediate32(bitness, bytes, ip, options, v),
        OperandRewrite::NearBranch16(v) => encode_with_near_branch16(bitness, bytes, ip, options, v),
        OperandRewrite::NearBranch32(v) => encode_with_near_branch32(bitness, bytes, ip, options, v),
        OperandRewrite::FarBranch32(v) => encode_with_far_branch32(bitness, bytes, ip, options, v),
    }
}

/// The characters of "notrack ", which the NASM text of some indirect
/// branches carries although the CPUs under test know no such prefix.
pub open spec fn notrack_chars() -> Seq<char> {
    seq!['n', 'o', 't', 'r', 'a', 'c', 'k', ' ']
}

/// A text with every "notrack " removed, scanning from the left.
pub open spec fn without_notrack(s: Seq<char>) -> Seq<char>
    decreases s.len(),
{
    if s.len() == 0 {
        s
    } else if s.len() >= 8 && s.take(8) == notrack_chars() {
        without_notrack(s.skip(8))
    } else {
        seq![s[0]] + without_notrack(s.skip(1))
    }
}

/// Remove every "notrack " from a text, scanning from the left.
pub fn strip_notrack(text: &str) -> (r: String)
    ensures
        r@ == without_notrack(text@),
{
    let n = text.unicode_len();
    let mut out = String::new();
    let mut i: usize = 0;
    proof {
        assert(text@.skip(0) =~= text@);
    }
    while i < n
        invariant
            n == text@.len(),
            i <= n,
            out@ + without_notrack(text@.skip(i as int)) == without_notrack(text@),
        decreases n - i,
    {
        let rest = Ghost(text@.skip(i as int));
        let is_notrack = n - i >= 8 && text.get_char(i) == 'n' && text.get_char(i + 1) == 'o'
            && text.get_char(i + 2) == 't' && text.get_char(i + 3) == 'r' && text.get_char(i + 4) == 'a'
            && text.get_char(i + 5) == 'c' && text.get_char(i + 6) == 'k' && text.get_char(i + 7) == ' ';
        if is_notrack {
            proof {
                assert(rest@.take(8) =~= notrack_chars());
                assert(rest@.skip(8) =~= text@.skip(i as int + 8));
            }
            i = i + 8;
        } else {
            proof {
                if rest@.len() >= 8 && rest@.take(8) == notrack_chars() {
                    assert(rest@.take(8)[0] == 'n');
                    assert(rest@.take(8)[1] == 'o');
                    assert(rest@.take(8)[2] == 't');
                    assert(rest@.take(8)[3] == 'r');
                    assert(rest@.take(8)[4] == 'a');
                    assert(rest@.take(8)[5] == 'c');
                    assert(rest@.take(8)[6] == 'k');
                    assert(rest@.take(8)[7] == ' ');
                }
                assert(rest@.skip(1) =~= text@.skip(i as int + 1));
            }
            let c = text.substring_char(i, i + 1);
            proof {
                assert(c@ =~= seq![rest@[0]]);
            }
            let ghost before = out@;
            out.append(c);
            proof {
                assert(out@ + without_notrack(text@.skip(i as int + 1)) =~= before + (seq![rest@[0]]
                    + without_notrack(rest@.skip(1))));
            }
            i = i + 1;
        }
    }
    proof {
        assert(text@.skip(n as int) =~= Seq::<char>::empty());
        assert(out@ + Seq::<char>::empty() =~= out@);
    }
    out
}

/// The decoder bitness of a code segment size.
pub open spec fn spec_bitness(size: SegmentSize) -> u32 {
    match size {
        SegmentSize::Sixteen => 16,
        SegmentSize::ThirtyTwo => 32,
    }
}

/// The disassembly built from a decoded instruction and the location of its
/// displacement: none where the displacement does not lie inside the bytes.
pub open spec fn spec_from_decoded(decoded: DecodedInstruction, d_offset: usize, d_size: usize, bytes: Seq<u8>) -> Option<IcedDisassembly> {
    if displacement_fits(bytes.len() as int, d_offset as int, d_size as int) {
        let (disp, disp_offset) = spec_displacement(bytes, d_offset as int, d_size as int);
        Some(IcedDisassembly { decoded, disp, disp_offset })
    } else {
        None
    }
}

impl IcedDisassembly {
    /// Decode the first instruction of `bytes` for a code segment of the given
    /// size, at the instruction pointer of `regs`, and read its displacement
    /// from the bytes.
    pub fn disassemble(code_segment_size: SegmentSize, bytes: &[u8], regs: &Registers, decoder_options: u32) -> (r: Option<IcedDisassembly>)
        ensures
            ({
                let bitness = spec_bitness(code_segment_size);
                let ip = regs.spec_eip() as u64;
                let (d_offset, d_size) = iced_displacement_at(bitness, bytes@, ip, decoder_options);
                r == spec_from_decoded(iced_decoded(bitness, bytes@, ip, decoder_options), d_offset, d_size, bytes@)
            }),
    {
        let bitness: u32 = match code_segment_size {
            SegmentSize::Sixteen => 16,
            SegmentSize::ThirtyTwo => 32,
        };
        let ip = regs.eip() as u64;
        let decoded = decode_instruction(bitness, bytes, ip, decoder_options);
        let (d_offset, d_size) = displacement_location(bitness, bytes, ip, decoder_options);
        IcedDisassembly::from_decoded(decoded, d_offset, d_size, bytes)
    }

    /// The NASM text of the first instruction of `bytes`, with any "notrack "
    /// removed, and its mnemonic, for a code segment of the given size at the
    /// instruction pointer of `regs`.
    pub fn format(code_segment_size: SegmentSize, bytes: &[u8], regs: &Registers, decoder_options: u32) -> (r: (String, String))
        ensures
            ({
                let n = iced_nasm(spec_bitness(code_segment_size), bytes@, regs.spec_eip() as u64, decoder_options);
                r.0@ == without_notrack(n.0) && r.1@ == n.1
            }),
    {
        let bitness: u32 = match code_segment_size {
            SegmentSize::Sixteen => 16,
            SegmentSize::ThirtyTwo => 32,
        };
        let (text, mnemonic) = nasm_text(bitness, bytes, regs.eip() as u64, decoder_options);
        (strip_notrack(text.as_str()), mnemonic)
    }

    /// The disassembly of a decoded instruction whose displacement the decoder
    /// located at `d_offset` with size `d_size`; none where a displacement of
    /// that size does not fit in `bytes` from that offset.
    pub fn from_decoded(decoded: DecodedInstruction, d_offset: usize, d_size: usize, bytes: &[u8]) -> (r: Option<IcedDisassembly>)
        ensures
            r == spec_from_decoded(decoded, d_offset, d_size, bytes@),
    {
        let fits = d_offset >= bytes.len() || ((d_size != 2 || bytes.len() - d_offset >= 2) && (
        d_size != 4 || bytes.len() - d_offset >= 4));
        if !fits {
            return None;
        }
        let (disp, disp_offset) = IcedDisassembly::get_displacement(d_offset, d_size, bytes);
        Some(IcedDisassembly { decoded, disp, disp_offset })
    }

    /// Read the displacement of an instruction from its bytes, given the
    /// offset and size at which the decoder found it.
    pub fn get_displacement(d_offset: usize, d_size: usize, bytes: &[u8]) -> (r: (Option<Displacement>, usize))
        requires
            displacement_fits(bytes@.len() as int, d_offset as int, d_size as int),
        ensures
            r == spec_displacement(bytes@, d_offset as int, d_size as int),
    {
        if d_offset >= bytes.len() {
            return (None, 0);
        }
        match d_size {
            1 => (Some(Displacement::Disp8(bytes[d_offset] as i8)), d_offset),
            2 => {
                let b0 = bytes[d_offset];
                let b1 = bytes[d_offset + 1];
                let w: u16 = ((b1 as u16) << 8) | (b0 as u16);
                proof {
                    lemma_word_join(b0, b1);
                }
                (Some(Displacement::Disp16(w as i16)), d_offset)
            },
            4 => {
                let b0 = bytes[d_offset];
                let b1 = bytes[d_offset + 1];
                let b2 = bytes[d_offset + 2];
                let b3 = bytes[d_offset + 3];
                let d: u32 = ((b3 as u32) << 24) | ((b2 as u32) << 16) | ((b1 as u32) << 8) | (b0
                    as u32);
                proof {
                    lemma_dword_join(b0, b1, b2, b3);
                }
                (Some(Displacement::Disp32(d as i32)), d_offset)
            },
            _ => (None, 0),
        }
    }

    /// Whether iced-x86 decoded a valid instruction (its code is not INVALID).
    pub fn is_valid(&self) -> (r: bool)
        ensures
            r == (self.decoded.code != 0),
    {
        self.decoded.code != 0
    }

    /// Length of the decoded instruction in bytes.
    pub fn len(&self) -> (r: usize)
        ensures
            r == self.decoded.len,
    {
        self.decoded.len
    }

    /// The displacement of the instruction's memory operand, if it has one.
    pub fn disp(&self) -> (r: Option<Displacement>)
        ensures
            r == self.disp,
    {
        self.disp
    }
}

} // verus!
