//! Test instructions: the byte-level helpers that build them (prefix
//! counting, ModR/M construction, prefix insertion), the addressing mode of
//! their memory operand, and the rewriting of their operands.

use crate::cpu_common::{AddressOffset32, AddressingMode, AddressingMode16, AddressingMode32, Displacement};
use crate::disassembly::{
    encode_rewritten, iced_decoded, iced_displacement_at, iced_nasm, iced_opcode_info, iced_used_memory, opcode_info,
    spec_bitness, used_memory,
    spec_encoded, spec_from_decoded, without_notrack, DecodedInstruction, IcedDisassembly, OperandRewrite,
};
use crate::enums::SegmentSize;
use crate::registers::Registers;
use crate::enums::{AddressSize, InstructionSize, TerminationCondition};
use crate::iced_codes::{
    register16_of, register32_of, spec_register16_of, spec_register32_of, CODE_IRETD, CODE_IRETW,
    CODE_RETFD, CODE_RETFD_IMM16, CODE_RETFW, CODE_RETFW_IMM16, CODE_RETND, CODE_RETND_IMM16,
    CODE_INVALID, CODE_RETNW, CODE_RETNW_IMM16, OPCODE_OPERAND_R16_OPCODE, OPCODE_OPERAND_R32_OPCODE,
    OPCODE_OPERAND_R8_OPCODE, OPCODE_TABLE_T0F, MEMORY_SIZE_DWORD_OFFSET, MEMORY_SIZE_SEG_PTR16,
    MEMORY_SIZE_SEG_PTR32, MEMORY_SIZE_WORD_OFFSET, OPKIND_IMMEDIATE16, OPKIND_IMMEDIATE32,
    OPKIND_IMMEDIATE32TO64, OPKIND_IMMEDIATE64, OPKIND_IMMEDIATE8, OPKIND_IMMEDIATE8TO16,
    OPKIND_IMMEDIATE8TO32, OPKIND_IMMEDIATE8TO64, OPKIND_MEMORY, OPKIND_NEAR_BRANCH16,
    OPKIND_NEAR_BRANCH32, REGISTER_NONE,
};
use crate::instruction_name::InstructionName;
use crate::size_prefix::{has_address_override, has_operand_override, TestOpcodeSizePrefix};
use crate::modrm::{
    mod_field, reg_field, rm_field, spec_fill16, spec_fill32, spec_fill_sib, spec_offset16,
    spec_offset32, spec_sib_offset, ModRmByte16, ModRmByte32, SibByte,
};
use vstd::prelude::*;

verus! {

/// Whether a byte is an instruction prefix (LOCK, REP/REPNE, a segment
/// override, or an operand- or address-size override).
pub open spec fn is_prefix_byte(b: u8) -> bool {
    b == 0xF0 || b == 0xF2 || b == 0xF3 || b == 0x2E || b == 0x36 || b == 0x3E || b == 0x26
        || b == 0x64 || b == 0x65 || b == 0x66 || b == 0x67
}

/// The number of prefix bytes at the start of a byte sequence.
pub open spec fn prefix_count(bytes: Seq<u8>) -> nat
    decreases bytes.len(),
{
    if bytes.len() > 0 && is_prefix_byte(bytes[0]) {
        1 + prefix_count(bytes.skip(1))
    } else {
        0
    }
}

/// The number of prefix bytes at the start of `bytes`.
pub fn count_prefixes(bytes: &[u8]) -> (count: usize)
    ensures
        count == prefix_count(bytes@),
        count <= bytes.len(),
        forall|j: int| 0 <= j < count ==> is_prefix_byte(#[trigger] bytes[j]),
        count < bytes.len() ==> !is_prefix_byte(bytes[count as int]),
{
    let mut count: usize = 0;
    assert(bytes@.skip(0) =~= bytes@);
    while count < bytes.len()
        invariant
            count <= bytes.len(),
            forall|j: int| 0 <= j < count ==> is_prefix_byte(#[trigger] bytes[j]),
            prefix_count(bytes@) == count + prefix_count(bytes@.skip(count as int)),
        decreases bytes.len() - count,
    {
        let b = bytes[count];
        assert(bytes@.skip(count as int)[0] == b);
        match b {
            0xF0 | 0xF2 | 0xF3 | 0x2E | 0x36 | 0x3E | 0x26 | 0x64 | 0x65 | 0x66 | 0x67 => {
                assert(bytes@.skip(count as int).skip(1) =~= bytes@.skip(count as int + 1));
                count += 1;
            },
            _ => {
                return count;
            },
        }
    }
    assert(bytes@.skip(count as int).len() == 0);
    count
}

/// A ModR/M byte with its REG field replaced by an opcode extension.
pub open spec fn spec_apply_extension(modrm: u8, opcode_ext: Option<u8>) -> u8 {
    match opcode_ext {
        Some(ext) => (mod_field(modrm) * 64 + (ext % 8) * 8 + rm_field(modrm)) as u8,
        None => modrm,
    }
}

/// Set the REG field of `modrm` to the opcode extension, if there is one.
pub fn apply_extension(modrm: u8, opcode_ext: Option<u8>) -> (r: u8)
    ensures
        r == spec_apply_extension(modrm, opcode_ext),
{
    if let Some(ext) = opcode_ext {
        assert((modrm & 0b1100_0111) | ((ext & 0x07) << 3) == ((modrm / 64) * 64 + (ext % 8) * 8
            + modrm % 8) as u8) by (bit_vector);
        (modrm & 0b1100_0111) | ((ext & 0x07) << 3)
    } else {
        modrm
    }
}

/// Whether a ModR/M byte in 32-bit addressing is followed by a SIB byte.
pub open spec fn spec_has_sib(modrm: u8) -> bool {
    mod_field(modrm) != 3 && rm_field(modrm) == 4
}

/// Whether a ModR/M byte in 32-bit addressing is followed by a SIB byte:
/// a memory form (MOD not 11) whose R/M field is 100.
pub fn has_sib(modrm: u8) -> (r: bool)
    ensures
        r == spec_has_sib(modrm),
{
    if modrm / 64 != 0b11 && modrm % 8 == 0b100 {
        true
    } else {
        false
    }
}

/// Applying an opcode extension sets the REG field to the extension's low
/// three bits and leaves the MOD and R/M fields alone; without an extension
/// the byte is unchanged.
pub proof fn law_apply_extension_fields(modrm: u8, ext: u8)
    ensures
        reg_field(spec_apply_extension(modrm, Some(ext))) == ext % 8,
        mod_field(spec_apply_extension(modrm, Some(ext))) == mod_field(modrm),
        rm_field(spec_apply_extension(modrm, Some(ext))) == rm_field(modrm),
        spec_apply_extension(modrm, None) == modrm,
{
    let r = spec_apply_extension(modrm, Some(ext));
    assert(((modrm / 64) * 64 + (ext % 8) * 8 + modrm % 8) < 256) by (nonlinear_arith);
    assert(r == ((modrm / 64) * 64 + (ext % 8) * 8 + modrm % 8) as u8);
    assert(r / 64 == modrm / 64 && (r / 8) % 8 == ext % 8 && r % 8 == modrm % 8) by (nonlinear_arith)
        requires
            r as int == (modrm / 64) * 64 + (ext % 8) * 8 + modrm % 8,
    ;
}

/// A SIB byte follows a ModR/M byte exactly when its decoded 32-bit
/// addressing mode is waiting for one, and an opcode extension never changes
/// whether it does.
pub proof fn law_has_sib_agrees(modrm: u8, ext: Option<u8>)
    ensures
        spec_has_sib(modrm) == (mod_field(modrm) != 3 && rm_field(modrm) == 4),
        spec_has_sib(spec_apply_extension(modrm, ext)) == spec_has_sib(modrm),
{
    match ext {
        Some(e) => law_apply_extension_fields(modrm, e),
        None => {},
    }
}

/// Which disassembler named the instruction.
#[derive(Copy, Clone, Debug, PartialEq, Eq, Structural)]
pub enum DisassemblyProvider {
    IcedX86,
    MartyDasm,
}

impl Default for DisassemblyProvider {
    /// iced-x86.
    fn default() -> (r: Self)
        ensures
            r == DisassemblyProvider::IcedX86,
    {
        DisassemblyProvider::IcedX86
    }
}

/// Why a test instruction could not be finished.
#[derive(Copy, Clone, Debug, PartialEq, Eq, Structural)]
pub enum InstructionError {
    /// The decoded instruction is longer than the bytes generated for it.
    InvalidLength,
}

/// The seed of one test: the file seed xor-ed with the test number, with the
/// generation count placed from bit 24 up.
pub open spec fn spec_test_seed(file_seed: u64, test_num: u64, gen_number: u64) -> u64 {
    file_seed ^ (test_num | (gen_number << 24u64))
}

/// The seed of one test, from which its random choices are drawn.
pub fn test_seed(file_seed: u64, test_num: usize, gen_number: usize) -> (r: u64)
    ensures
        r == spec_test_seed(file_seed, test_num as u64, gen_number as u64),
{
    file_seed ^ ((test_num as u64) | ((gen_number as u64) << 24u64))
}

/// A 32-bit operand value restricted by `mask`; with sign extension, a
/// negative value gets all bits outside the mask set.
pub open spec fn spec_masked32(value: u32, mask: u32, sign_extend: bool) -> u32 {
    if sign_extend && value & 0x8000_0000 != 0 {
        (value & mask) | !mask
    } else {
        value & mask
    }
}

/// Restrict a 32-bit operand value by `mask`, optionally sign-extending.
pub fn mask_value32(value: u32, mask: u32, sign_extend: bool) -> (r: u32)
    ensures
        r == spec_masked32(value, mask, sign_extend),
{
    let negative = value & 0x8000_0000 != 0;
    let mut masked = value & mask;
    if sign_extend && negative {
        masked |= !mask;
    }
    masked
}

/// Masking is idempotent: a value once masked is left alone by the same
/// mask, so an operand rewritten by masking needs no second rewrite.
pub proof fn law_mask_idempotent(value: u32, mask: u32, sign_extend: bool)
    ensures
        spec_masked32(spec_masked32(value, mask, sign_extend), mask, sign_extend) == spec_masked32(
            value,
            mask,
            sign_extend,
        ),
{
    assert((((value & mask) | !mask) & 0x8000_0000 != 0 ==> (((value & mask) | !mask) & mask)
        | !mask == (value & mask) | !mask) && (value & 0x8000_0000 != 0 ==> ((value & mask) | !mask)
        & 0x8000_0000 != 0) && (value & 0x8000_0000 == 0 ==> (value & mask) & 0x8000_0000 == 0) && (
    value & mask) & mask == value & mask) by (bit_vector);
}

/// Masking keeps a value's bits under the mask, and outside the mask sets
/// every bit of a sign-extended negative value and clears every bit of any
/// other value; so an unextended result never exceeds the mask.
pub proof fn law_mask_keeps_bits_under_mask(value: u32, mask: u32, sign_extend: bool)
    ensures
        spec_masked32(value, mask, sign_extend) & mask == value & mask,
        spec_masked32(value, mask, sign_extend) & !mask == (if sign_extend && value & 0x8000_0000 != 0 {
            !mask
        } else {
            0
        }),
        !sign_extend ==> spec_masked32(value, mask, sign_extend) <= mask,
{
    assert(((value & mask) | !mask) & mask == value & mask && ((value & mask) | !mask) & !mask == !mask
        && (value & mask) & mask == value & mask && (value & mask) & !mask == 0 && value & mask
        <= mask) by (bit_vector);
}

/// The size in bytes of an immediate operand of the given iced-x86 operand kind.
pub open spec fn spec_immediate_size(kind: u8) -> Option<usize> {
    if kind == OPKIND_IMMEDIATE8 || kind == OPKIND_IMMEDIATE8TO16 || kind == OPKIND_IMMEDIATE8TO32 {
        Some(1)
    } else if kind == OPKIND_IMMEDIATE16 {
        Some(2)
    } else if kind == OPKIND_IMMEDIATE32 || kind == OPKIND_IMMEDIATE32TO64 {
        Some(4)
    } else if kind == OPKIND_IMMEDIATE64 || kind == OPKIND_IMMEDIATE8TO64 {
        Some(8)
    } else {
        None
    }
}

/// Whether a 32-bit memory offset is formed from a SIB byte.
pub open spec fn is_sib_offset(o: AddressOffset32) -> bool {
    o is Sib || o is SibDisp8 || o is SibDisp32 || o is SibDisp8Ebp || o is SibDisp32Ebp
}

/// The displacement to fill into an addressing mode: none when absent.
pub open spec fn disp_or_none(displacement: Option<Displacement>) -> Displacement {
    match displacement {
        Some(d) => d,
        None => Displacement::NoDisp,
    }
}

/// Whether the bytes can be read as the instruction's ModR/M byte (and SIB
/// byte, where a 32-bit ModR/M byte calls for one).
pub open spec fn modrm_in_bounds(bytes: Seq<u8>, address_size: AddressSize, modrm_offset: int) -> bool {
    &&& modrm_offset < bytes.len()
    &&& (address_size == AddressSize::ThirtyTwo && spec_has_sib(bytes[modrm_offset])) ==> modrm_offset
        + 1 < bytes.len()
}

/// The addressing mode of the memory operand of an instruction that has a
/// ModR/M byte at `modrm_offset`: in 16-bit addressing, the ModR/M byte's
/// offset when it selects memory (none for a register form); in 32-bit
/// addressing, the SIB byte's offset when one follows, else the ModR/M
/// byte's offset. The base is the effective segment, and the displacement is
/// filled in.
pub open spec fn spec_addressing_mode(
    has_modrm: bool,
    bytes: Seq<u8>,
    base_segment: u8,
    displacement: Option<Displacement>,
    address_size: AddressSize,
    modrm_offset: int,
) -> Option<AddressingMode> {
    let d = disp_or_none(displacement);
    if !has_modrm {
        None
    } else {
        let m = bytes[modrm_offset];
        match address_size {
            AddressSize::Sixteen => if mod_field(m) != 3 {
                Some(
                    AddressingMode::Sixteen(
                        AddressingMode16::Address {
                            base: spec_register16_of(base_segment),
                            offset: spec_fill16(spec_offset16(m), d),
                        },
                    ),
                )
            } else {
                None
            },
            AddressSize::ThirtyTwo => Some(
                AddressingMode::ThirtyTwo(
                    AddressingMode32::Address {
                        base: spec_register32_of(base_segment),
                        offset: if spec_has_sib(m) {
                            spec_fill_sib(spec_sib_offset(bytes[modrm_offset + 1], mod_field(m)), d)
                        } else {
                            spec_fill32(spec_offset32(m), d)
                        },
                    },
                ),
            ),
        }
    }
}

/// Whether an instruction has a ModR/M memory operand: its iced-x86 text
/// shows a memory operand in brackets and its opcode is not one of those
/// that show a memory operand without a ModR/M byte.
pub open spec fn spec_has_modrm(instr_text: Seq<char>, opcode: u16, offset_opcodes: Seq<u16>) -> bool {
    instr_text.contains('[') && !offset_opcodes.contains(opcode)
}

/// Whether an instruction has a ModR/M memory operand.
pub fn has_modrm(instr_text: &str, opcode: u16, offset_opcodes: &[u16]) -> (r: bool)
    ensures
        r == spec_has_modrm(instr_text@, opcode, offset_opcodes@),
{
    let n = instr_text.unicode_len();
    let mut found = false;
    let mut i: usize = 0;
    while i < n
        invariant
            n == instr_text@.len(),
            i <= n,
            found == instr_text@.subrange(0, i as int).contains('['),
        decreases n - i,
    {
        let c = instr_text.get_char(i);
        proof {
            let s0 = instr_text@.subrange(0, i as int);
            let s1 = s0.push(c);
            assert(instr_text@.subrange(0, i as int + 1) == s1);
            if s0.contains('[') {
                let k = choose|k: int| 0 <= k < s0.len() && s0[k] == '[';
                assert(s1[k] == '[');
            }
            if c == '[' {
                assert(s1[s0.len() as int] == '[');
            }
            if s1.contains('[') && c != '[' {
                let k = choose|k: int| 0 <= k < s1.len() && s1[k] == '[';
                assert(s0[k] == '[');
            }
        }
        if c == '[' {
            found = true;
        }
        i += 1;
    }
    assert(instr_text@.subrange(0, n as int) == instr_text@);
    found && !crate::size_prefix::slice_contains(offset_opcodes, opcode)
}

/// The addressing mode of an instruction's memory operand; `base_segment`
/// is the iced-x86 register value of its effective segment.
pub fn calculate_addressing_mode(
    has_modrm: bool,
    instruction_bytes: &[u8],
    base_segment: u8,
    displacement: Option<Displacement>,
    address_size: AddressSize,
    modrm_offset: usize,
) -> (r: Option<AddressingMode>)
    requires
        has_modrm ==> modrm_in_bounds(instruction_bytes@, address_size, modrm_offset as int),
    ensures
        r == spec_addressing_mode(
            has_modrm,
            instruction_bytes@,
            base_segment,
            displacement,
            address_size,
            modrm_offset as int,
        ),
{
    let d = match displacement {
        Some(d) => d,
        None => Displacement::NoDisp,
    };
    if !has_modrm {
        return None;
    }
    match address_size {
        AddressSize::Sixteen => {
            let modrm16 = ModRmByte16::read(instruction_bytes[modrm_offset]);
            if modrm16.is_addressing_mode() {
                Some(
                    AddressingMode::Sixteen(
                        AddressingMode16::Address {
                            base: register16_of(base_segment),
                            offset: modrm16.address_offset(d),
                        },
                    ),
                )
            } else {
                None
            }
        },
        AddressSize::ThirtyTwo => {
            let modrm32 = ModRmByte32::read(instruction_bytes[modrm_offset]);
            if modrm32.has_sib() {
                let sib = SibByte::read(instruction_bytes[modrm_offset + 1], modrm32.mod_value());
                Some(
                    AddressingMode::ThirtyTwo(
                        AddressingMode32::Address {
                            base: register32_of(base_segment),
                            offset: sib.address_offset(d),
                        },
                    ),
                )
            } else {
                Some(
                    AddressingMode::ThirtyTwo(
                        AddressingMode32::Address {
                            base: register32_of(base_segment),
                            offset: modrm32.address_offset(d),
                        },
                    ),
                )
            }
        },
    }
}

/// Insert a prefix byte at `index` among the prefixes already placed (or at
/// the front when there are none), moving the ModR/M offset along.
pub fn insert_prefix(
    bytes: &mut Vec<u8>,
    byte: u8,
    index: usize,
    prefix_ct: &mut usize,
    modrm_offset: &mut usize,
)
    requires
        *old(prefix_ct) > 0 ==> index < *old(prefix_ct),
        *old(prefix_ct) <= old(bytes)@.len(),
        *old(modrm_offset) < old(bytes)@.len(),
        old(bytes)@.len() < usize::MAX,
    ensures
        final(bytes)@ == old(bytes)@.insert(if *old(prefix_ct) > 0 { index as int } else { 0 }, byte),
        *final(prefix_ct) == *old(prefix_ct) + 1,
        *final(modrm_offset) == *old(modrm_offset) + 1,
{
    if *prefix_ct > 0 {
        bytes.insert(index, byte);
    } else {
        bytes.insert(0, byte);
    }
    *modrm_offset = *modrm_offset + 1;
    *prefix_ct = *prefix_ct + 1;
}

/// The ModR/M offset after re-encoding: moved back by the number of prefix
/// bytes that the encoder dropped.
pub fn reencoded_modrm_offset(modrm_offset: usize, old_prefix_ct: usize, new_prefix_ct: usize) -> (r: usize)
    ensures
        r as int == (if old_prefix_ct > new_prefix_ct {
            if modrm_offset > old_prefix_ct - new_prefix_ct {
                modrm_offset - (old_prefix_ct - new_prefix_ct)
            } else {
                0
            }
        } else {
            modrm_offset as int
        }),
{
    let size_adjust = old_prefix_ct.saturating_sub(new_prefix_ct);
    modrm_offset.saturating_sub(size_adjust)
}

/// A generated test instruction: its bytes (prefixes, the instruction, and
/// any bytes after it), the ends of the prefix, instruction and executed
/// sequence ranges (all start at 0), where its ModR/M byte is, its names,
/// and the operand values decoded from it.
pub struct TestInstruction {
    pub opcode: u16,
    pub name: InstructionName,
    pub mnemonic: String,
    pub test_seed: u64,
    pub address_size: AddressSize,
    pub operand_size: InstructionSize,
    pub bytes: Vec<u8>,
    pub modrm_offset: usize,
    pub instr_end: usize,
    pub sequence_end: usize,
    pub prefix_end: usize,
    pub addressing_mode: Option<AddressingMode>,
    pub disassembly_provider: DisassemblyProvider,
    pub is_valid: bool,
    pub decoded: DecodedInstruction,
}

/// What re-encoding needs besides the instruction: the code segment size
/// and decoder options it is decoded with, how tests end, and the opcodes
/// whose memory operand has no ModR/M byte.
pub struct EncodeEnv {
    pub code_segment_size: SegmentSize,
    pub decoder_options: u32,
    pub termination: TerminationCondition,
    pub offset_opcodes: Vec<u16>,
}

/// Why an instruction could not be encoded again.
#[derive(Copy, Clone, Debug, PartialEq, Eq, Structural)]
pub enum ReencodeError {
    /// The encoder refused the rewritten instruction.
    EncodeFailed,
    /// The new encoding's displacement does not lie inside its bytes.
    DisplacementOutOfBounds,
    /// The ModR/M (or SIB) byte at the moved offset lies outside the bytes.
    ModrmOutOfBounds,
    /// The new encoding is too long to count.
    InvalidLength,
}

/// The bytes after placing the termination byte, as `handle_termination`
/// does for an instruction of `byte_ct` bytes.
pub open spec fn terminated_bytes(bytes: Seq<u8>, byte_ct: int, condition: TerminationCondition) -> Seq<u8> {
    if condition == TerminationCondition::Halt {
        if byte_ct == bytes.len() {
            bytes.push(0xF4u8)
        } else {
            bytes.update(byte_ct, 0xF4u8)
        }
    } else {
        bytes
    }
}

/// The ModR/M offset after re-encoding, moved back by the prefixes dropped.
pub open spec fn spec_reencoded_modrm_offset(modrm_offset: int, old_prefix_ct: int, new_prefix_ct: int) -> int {
    if old_prefix_ct > new_prefix_ct {
        if modrm_offset > old_prefix_ct - new_prefix_ct {
            modrm_offset - (old_prefix_ct - new_prefix_ct)
        } else {
            0
        }
    } else {
        modrm_offset
    }
}

/// Whether `new` and `r` are what encoding `old` again with `rewrite` gives:
/// the encoder's bytes for the rewritten instruction, decoded and formatted
/// again for the same code segment size, instruction pointer and options;
/// the name is the new NASM text (without "notrack "), the ModR/M offset
/// moves back by the prefixes the encoder dropped, and the termination byte
/// is placed after the new instruction. Each failure leaves `old` as it was.
pub open spec fn re_encoded(
    old: TestInstruction,
    new: TestInstruction,
    r: Result<(), ReencodeError>,
    rewrite: OperandRewrite,
    env: EncodeEnv,
    regs: Registers,
) -> bool {
    let b = spec_bitness(env.code_segment_size);
    let ip = regs.spec_eip() as u64;
    let opts = env.decoder_options;
    match spec_encoded(b, old.bytes@, ip, opts, rewrite) {
        None => r == Err::<(), ReencodeError>(ReencodeError::EncodeFailed) && new == old,
        Some(nb) => {
            let d = iced_decoded(b, nb, ip, opts);
            let at = iced_displacement_at(b, nb, ip, opts);
            match spec_from_decoded(d, at.0, at.1, nb) {
                None => r == Err::<(), ReencodeError>(ReencodeError::DisplacementOutOfBounds) && new == old,
                Some(dis) => {
                    let text = without_notrack(iced_nasm(b, nb, ip, opts).0);
                    let byte_ct = if d.len < nb.len() { d.len as int } else { nb.len() as int };
                    let new_prefix_ct = prefix_count(nb);
                    let m = spec_reencoded_modrm_offset(old.modrm_offset as int, prefix_count(old.bytes@) as int, new_prefix_ct as int);
                    let has = spec_has_modrm(text, old.opcode, env.offset_opcodes@);
                    if has && !modrm_in_bounds(nb, old.address_size, m) {
                        r == Err::<(), ReencodeError>(ReencodeError::ModrmOutOfBounds) && new == old
                    } else if byte_ct == usize::MAX {
                        r == Err::<(), ReencodeError>(ReencodeError::InvalidLength) && new == old
                    } else {
                        &&& r is Ok
                        &&& new.opcode == old.opcode
                        &&& new.mnemonic@ == old.mnemonic@
                        &&& new.test_seed == old.test_seed
                        &&& new.address_size == old.address_size
                        &&& new.operand_size == old.operand_size
                        &&& new.disassembly_provider == old.disassembly_provider
                        &&& new.is_valid == old.is_valid
                        &&& new.name.resolved_view() == text
                        &&& new.name.iced_view() == text
                        &&& new.name.marty_view() == Seq::<char>::empty()
                        &&& new.modrm_offset == m
                        &&& new.instr_end == byte_ct
                        &&& new.prefix_end == new_prefix_ct
                        &&& new.decoded == d
                        &&& new.addressing_mode == spec_addressing_mode(has, nb, d.memory_segment, dis.disp, old.address_size, m)
                        &&& new.bytes@ == terminated_bytes(nb, byte_ct, env.termination)
                        &&& new.sequence_end == (if env.termination == TerminationCondition::Halt { byte_ct + 1 } else { byte_ct })
                    }
                },
            }
        },
    }
}

/// Everything but the bytes, the sequence end and the decoded operands is
/// the same in both instructions.
pub open spec fn same_frame(a: TestInstruction, b: TestInstruction) -> bool {
    &&& a.opcode == b.opcode
    &&& a.name == b.name
    &&& a.mnemonic@ == b.mnemonic@
    &&& a.test_seed == b.test_seed
    &&& a.address_size == b.address_size
    &&& a.operand_size == b.operand_size
    &&& a.modrm_offset == b.modrm_offset
    &&& a.instr_end == b.instr_end
    &&& a.prefix_end == b.prefix_end
    &&& a.addressing_mode == b.addressing_mode
    &&& a.disassembly_provider == b.disassembly_provider
    &&& a.is_valid == b.is_valid
}

impl TestInstruction {
    /// The ranges lie within the bytes.
    pub open spec fn wf(&self) -> bool {
        &&& self.instr_end <= self.bytes@.len()
        &&& self.sequence_end <= self.bytes@.len()
        &&& self.prefix_end <= self.bytes@.len()
    }

    /// The resolved name.
    pub fn name(&self) -> (r: &str)
        ensures
            r@ == self.name.resolved_view(),
    {
        self.name.resolved()
    }

    /// All bytes of the test.
    pub fn bytes(&self) -> (r: &[u8])
        ensures
            r@ == self.bytes@,
    {
        self.bytes.as_slice()
    }

    /// The bytes that the test executes.
    pub fn sequence_bytes(&self) -> (r: &[u8])
        requires
            self.wf(),
        ensures
            r@ == self.bytes@.subrange(0, self.sequence_end as int),
    {
        vstd::slice::slice_subrange(self.bytes.as_slice(), 0, self.sequence_end)
    }

    /// The bytes of the instruction itself.
    pub fn instr_bytes(&self) -> (r: &[u8])
        requires
            self.wf(),
        ensures
            r@ == self.bytes@.subrange(0, self.instr_end as int),
    {
        vstd::slice::slice_subrange(self.bytes.as_slice(), 0, self.instr_end)
    }

    /// The prefix bytes of the instruction.
    pub fn prefix_bytes(&self) -> (r: &[u8])
        requires
            self.wf(),
        ensures
            r@ == self.bytes@.subrange(0, self.prefix_end as int),
    {
        vstd::slice::slice_subrange(self.bytes.as_slice(), 0, self.prefix_end)
    }

    /// The iced-x86 kind of the first operand.
    pub fn op0_kind(&self) -> (r: u8)
        ensures
            r == self.decoded.op0_kind,
    {
        self.decoded.op0_kind
    }

    /// The iced-x86 kind of the second operand.
    pub fn op1_kind(&self) -> (r: u8)
        ensures
            r == self.decoded.op1_kind,
    {
        self.decoded.op1_kind
    }

    /// The mnemonic text.
    pub fn mnemonic(&self) -> (r: &str)
        ensures
            r@ == self.mnemonic@,
    {
        self.mnemonic.as_str()
    }

    /// The size in bytes of the displacement of the memory operand, if any.
    pub fn displacement_size(&self) -> (r: Option<usize>)
        ensures
            r == (if self.decoded.memory_displ_size == 0 {
                None
            } else {
                Some(self.decoded.memory_displ_size as usize)
            }),
    {
        if self.decoded.memory_displ_size == 0 {
            None
        } else {
            Some(self.decoded.memory_displ_size as usize)
        }
    }

    /// The size in bytes of the second operand when it is an immediate.
    pub fn immediate_size(&self) -> (r: Option<usize>)
        ensures
            r == spec_immediate_size(self.decoded.op1_kind),
    {
        let k = self.decoded.op1_kind;
        if k == OPKIND_IMMEDIATE8 || k == OPKIND_IMMEDIATE8TO16 || k == OPKIND_IMMEDIATE8TO32 {
            Some(1)
        } else if k == OPKIND_IMMEDIATE16 {
            Some(2)
        } else if k == OPKIND_IMMEDIATE32 || k == OPKIND_IMMEDIATE32TO64 {
            Some(4)
        } else if k == OPKIND_IMMEDIATE64 || k == OPKIND_IMMEDIATE8TO64 {
            Some(8)
        } else {
            None
        }
    }

    /// The addressing mode of the memory operand, if any.
    pub fn addressing_mode(&self) -> (r: &Option<AddressingMode>)
        ensures
            *r == self.addressing_mode,
    {
        &self.addressing_mode
    }

    /// An indirect near jump or call: a memory operand holding an offset.
    pub fn is_near_indirect(&self) -> (r: bool)
        ensures
            r == (self.decoded.op0_kind == OPKIND_MEMORY && (self.decoded.memory_size
                == MEMORY_SIZE_WORD_OFFSET || self.decoded.memory_size == MEMORY_SIZE_DWORD_OFFSET)),
    {
        self.decoded.op0_kind == OPKIND_MEMORY && (self.decoded.memory_size == MEMORY_SIZE_WORD_OFFSET
            || self.decoded.memory_size == MEMORY_SIZE_DWORD_OFFSET)
    }

    /// An indirect far jump or call: a memory operand holding a segment and offset.
    pub fn is_far_indirect(&self) -> (r: bool)
        ensures
            r == (self.decoded.op0_kind == OPKIND_MEMORY && (self.decoded.memory_size
                == MEMORY_SIZE_SEG_PTR16 || self.decoded.memory_size == MEMORY_SIZE_SEG_PTR32)),
    {
        self.decoded.op0_kind == OPKIND_MEMORY && (self.decoded.memory_size == MEMORY_SIZE_SEG_PTR16
            || self.decoded.memory_size == MEMORY_SIZE_SEG_PTR32)
    }

    /// A far return (RETF, with or without an immediate).
    pub fn is_far_return(&self) -> (r: bool)
        ensures
            r == (self.decoded.code == CODE_RETFW || self.decoded.code == CODE_RETFD
                || self.decoded.code == CODE_RETFW_IMM16 || self.decoded.code == CODE_RETFD_IMM16),
    {
        let c = self.decoded.code;
        c == CODE_RETFW || c == CODE_RETFD || c == CODE_RETFW_IMM16 || c == CODE_RETFD_IMM16
    }

    /// A near return (RET, with or without an immediate).
    pub fn is_near_return(&self) -> (r: bool)
        ensures
            r == (self.decoded.code == CODE_RETNW || self.decoded.code == CODE_RETND
                || self.decoded.code == CODE_RETNW_IMM16 || self.decoded.code == CODE_RETND_IMM16),
    {
        let c = self.decoded.code;
        c == CODE_RETNW || c == CODE_RETND || c == CODE_RETNW_IMM16 || c == CODE_RETND_IMM16
    }

    /// A near or far return.
    pub fn is_return(&self) -> (r: bool)
        ensures
            r == (self.decoded.code == CODE_RETNW || self.decoded.code == CODE_RETND
                || self.decoded.code == CODE_RETNW_IMM16 || self.decoded.code == CODE_RETND_IMM16
                || self.decoded.code == CODE_RETFW || self.decoded.code == CODE_RETFD
                || self.decoded.code == CODE_RETFW_IMM16 || self.decoded.code == CODE_RETFD_IMM16),
    {
        self.is_near_return() || self.is_far_return()
    }

    /// An interrupt return.
    pub fn is_iret(&self) -> (r: bool)
        ensures
            r == (self.decoded.code == CODE_IRETW || self.decoded.code == CODE_IRETD),
    {
        self.decoded.code == CODE_IRETW || self.decoded.code == CODE_IRETD
    }

    /// Whether the memory operand is formed from a SIB byte.
    pub fn has_sib(&self) -> (r: bool)
        ensures
            r == match self.addressing_mode {
                Some(AddressingMode::ThirtyTwo(AddressingMode32::Address { offset, .. })) =>
                    is_sib_offset(offset),
                _ => false,
            },
    {
        match &self.addressing_mode {
            Some(AddressingMode::ThirtyTwo(AddressingMode32::Address { offset, .. })) => matches!(
                offset,
                AddressOffset32::Sib(..) | AddressOffset32::SibDisp8(..)
                    | AddressOffset32::SibDisp32(..) | AddressOffset32::SibDisp8Ebp(..)
                    | AddressOffset32::SibDisp32Ebp(..)
            ),
            _ => false,
        }
    }

    /// Whether the instruction has a ModR/M addressing mode.
    pub fn has_modrm(&self) -> (r: bool)
        ensures
            r == self.addressing_mode is Some,
    {
        self.addressing_mode.is_some()
    }

    /// Whether the ModR/M byte selects a register operand.
    pub fn has_modrm_register_mode(&self) -> (r: bool)
        ensures
            r == (self.addressing_mode == Some(AddressingMode::Sixteen(AddressingMode16::RegisterMode))
                || self.addressing_mode == Some(
                AddressingMode::ThirtyTwo(AddressingMode32::RegisterMode),
            )),
    {
        match &self.addressing_mode {
            Some(AddressingMode::Sixteen(AddressingMode16::RegisterMode)) => true,
            Some(AddressingMode::ThirtyTwo(AddressingMode32::RegisterMode)) => true,
            _ => false,
        }
    }

    /// Whether the ModR/M byte selects a memory operand.
    pub fn has_modrm_address_mode(&self) -> (r: bool)
        ensures
            r == match self.addressing_mode {
                Some(AddressingMode::Sixteen(AddressingMode16::Address { .. })) => true,
                Some(AddressingMode::ThirtyTwo(AddressingMode32::Address { .. })) => true,
                _ => false,
            },
    {
        match &self.addressing_mode {
            Some(AddressingMode::Sixteen(AddressingMode16::Address { .. })) => true,
            Some(AddressingMode::ThirtyTwo(AddressingMode32::Address { .. })) => true,
            _ => false,
        }
    }

    /// The address size the instruction is generated with.
    pub fn address_size(&self) -> (r: AddressSize)
        ensures
            r == self.address_size,
    {
        self.address_size
    }

    /// The operand size the instruction is generated with.
    pub fn operand_size(&self) -> (r: InstructionSize)
        ensures
            r == self.operand_size,
    {
        self.operand_size
    }

    /// The opcode the instruction was generated for.
    pub fn opcode(&self) -> (r: u16)
        ensures
            r == self.opcode,
    {
        self.opcode
    }

    /// Whether a near branch goes to an odd address; none for other first operands.
    pub fn branch_is_odd(&self) -> (r: Option<bool>)
        ensures
            r == (if self.decoded.op0_kind == OPKIND_NEAR_BRANCH16 {
                Some(self.decoded.near_branch16 % 2 == 1)
            } else if self.decoded.op0_kind == OPKIND_NEAR_BRANCH32 {
                Some(self.decoded.near_branch32 % 2 == 1)
            } else {
                None
            }),
    {
        if self.decoded.op0_kind == OPKIND_NEAR_BRANCH16 {
            Some(self.decoded.near_branch16 % 2 == 1)
        } else if self.decoded.op0_kind == OPKIND_NEAR_BRANCH32 {
            Some(self.decoded.near_branch32 % 2 == 1)
        } else {
            None
        }
    }

    /// End the test sequence where the decoded instruction ends: under the
    /// HALT termination condition, a HLT byte is appended when the
    /// instruction uses all the bytes, or written over the first byte after
    /// it otherwise, and the sequence grows by one; an instruction longer
    /// than the bytes is an error. Other conditions change nothing.
    pub fn handle_termination(&mut self, condition: TerminationCondition, new_byte_ct: usize) -> (r: Result<(), InstructionError>)
        requires
            old(self).sequence_end < usize::MAX,
        ensures
            same_frame(*old(self), *final(self)),
            final(self).decoded == old(self).decoded,
            condition != TerminationCondition::Halt ==> r is Ok && final(self).bytes@ == old(
                self,
            ).bytes@ && final(self).sequence_end == old(self).sequence_end,
            condition == TerminationCondition::Halt ==> {
                let len = old(self).bytes@.len();
                &&& new_byte_ct == len ==> r is Ok && final(self).bytes@ == old(self).bytes@.push(
                    0xF4u8,
                ) && final(self).sequence_end == old(self).sequence_end + 1
                &&& new_byte_ct < len ==> r is Ok && final(self).bytes@ == old(self).bytes@.update(
                    new_byte_ct as int,
                    0xF4u8,
                ) && final(self).sequence_end == old(self).sequence_end + 1
                &&& new_byte_ct > len ==> r == Err::<(), InstructionError>(
                    InstructionError::InvalidLength,
                ) && final(self).bytes@ == old(self).bytes@ && final(self).sequence_end == old(
                    self,
                ).sequence_end
            },
    {
        match condition {
            TerminationCondition::Halt => {
                if new_byte_ct == self.bytes.len() {
                    self.sequence_end = self.sequence_end + 1;
                    self.bytes.push(0xF4);
                    Ok(())
                } else if new_byte_ct < self.bytes.len() {
                    self.sequence_end = self.sequence_end + 1;
                    self.bytes.set(new_byte_ct, 0xF4);
                    Ok(())
                } else {
                    Err(InstructionError::InvalidLength)
                }
            },
            _ => Ok(()),
        }
    }

    /// Encode the instruction again with one operand rewritten, and take
    /// the new bytes, decoding, name, prefix count, ModR/M offset and
    /// addressing mode from the encoding; the termination byte is placed as
    /// for a new instruction. On an error nothing changes.
    pub fn re_encode(&mut self, rewrite: OperandRewrite, env: &EncodeEnv, regs: &Registers) -> (r: Result<(), ReencodeError>)
        ensures
            re_encoded(*old(self), *final(self), r, rewrite, *env, *regs),
    {
        let bitness: u32 = match env.code_segment_size {
            SegmentSize::Sixteen => 16,
            SegmentSize::ThirtyTwo => 32,
        };
        let ip = regs.eip() as u64;
        let nb = match encode_rewritten(bitness, self.bytes.as_slice(), ip, env.decoder_options, rewrite) {
            Some(v) => v,
            None => {
                return Err(ReencodeError::EncodeFailed);
            },
        };
        let dis = match IcedDisassembly::disassemble(env.code_segment_size, nb.as_slice(), regs, env.decoder_options) {
            Some(d) => d,
            None => {
                return Err(ReencodeError::DisplacementOutOfBounds);
            },
        };
        let (text, _mnemonic) = IcedDisassembly::format(env.code_segment_size, nb.as_slice(), regs, env.decoder_options);
        let byte_ct = if dis.len() < nb.len() {
            dis.len()
        } else {
            nb.len()
        };
        let old_prefix_ct = count_prefixes(self.bytes.as_slice());
        let new_prefix_ct = count_prefixes(nb.as_slice());
        let m = reencoded_modrm_offset(self.modrm_offset, old_prefix_ct, new_prefix_ct);
        let has = has_modrm(text.as_str(), self.opcode, env.offset_opcodes.as_slice());
        if has {
            let in_bounds = m < nb.len() && (!(matches!(self.address_size, AddressSize::ThirtyTwo) && has_sib(nb[m]))
                || nb.len() - m > 1);
            if !in_bounds {
                return Err(ReencodeError::ModrmOutOfBounds);
            }
        }
        if byte_ct == usize::MAX {
            return Err(ReencodeError::InvalidLength);
        }
        let am = calculate_addressing_mode(has, nb.as_slice(), dis.decoded.memory_segment, dis.disp, self.address_size, m);
        self.name = InstructionName::from_iced(text.as_str());
        self.modrm_offset = m;
        self.instr_end = byte_ct;
        self.sequence_end = byte_ct;
        self.prefix_end = new_prefix_ct;
        self.bytes = nb;
        self.decoded = dis.decoded;
        self.addressing_mode = am;
        match self.handle_termination(env.termination, byte_ct) {
            Ok(()) => Ok(()),
            Err(_) => Err(ReencodeError::InvalidLength),
        }
    }

    /// Restrict a 32-bit displacement by `mask`, optionally sign-extending
    /// it, and encode the instruction again when the displacement changed;
    /// otherwise nothing changes.
    pub fn mask_displacement32(&mut self, sign_extend: bool, mask: u32, env: &EncodeEnv, regs: &Registers) -> (r: Result<(), ReencodeError>)
        ensures
            ({
                let d = old(self).decoded;
                let new_disp = spec_masked32(d.memory_displacement32, mask, sign_extend);
                if d.memory_displ_size == 4 && new_disp != d.memory_displacement32 {
                    re_encoded(*old(self), *final(self), r, OperandRewrite::Displacement32(new_disp), *env, *regs)
                } else {
                    r is Ok && *final(self) == *old(self)
                }
            }),
    {
        if self.decoded.memory_displ_size == 4 {
            let disp32 = mask_value32(self.decoded.memory_displacement32, mask, sign_extend);
            if disp32 != self.decoded.memory_displacement32 {
                return self.re_encode(OperandRewrite::Displacement32(disp32), env, regs);
            }
        }
        Ok(())
    }

    /// Restrict a 32-bit immediate second operand by `mask`, sign-extending
    /// it, and encode the instruction again when the immediate changed;
    /// otherwise nothing changes.
    pub fn mask_immediate32(&mut self, mask: u32, env: &EncodeEnv, regs: &Registers) -> (r: Result<(), ReencodeError>)
        ensures
            ({
                let d = old(self).decoded;
                let new_imm = spec_masked32(d.immediate32, mask, true);
                if d.op1_kind == OPKIND_IMMEDIATE32 && new_imm != d.immediate32 {
                    re_encoded(*old(self), *final(self), r, OperandRewrite::Immediate32(new_imm), *env, *regs)
                } else {
                    r is Ok && *final(self) == *old(self)
                }
            }),
    {
        if self.decoded.op1_kind == OPKIND_IMMEDIATE32 {
            let imm32 = mask_value32(self.decoded.immediate32, mask, true);
            if imm32 != self.decoded.immediate32 {
                return self.re_encode(OperandRewrite::Immediate32(imm32), env, regs);
            }
        }
        Ok(())
    }

    /// Restrict a 32-bit near branch target by `mask`, sign-extending it,
    /// and encode the instruction again when the target changed; otherwise
    /// nothing changes.
    pub fn mask_nearbranch32(&mut self, mask: u32, env: &EncodeEnv, regs: &Registers) -> (r: Result<(), ReencodeError>)
        ensures
            ({
                let d = old(self).decoded;
                let new_target = spec_masked32(d.near_branch32, mask, true);
                if d.op0_kind == OPKIND_NEAR_BRANCH32 && new_target != d.near_branch32 {
                    re_encoded(*old(self), *final(self), r, OperandRewrite::NearBranch32(new_target), *env, *regs)
                } else {
                    r is Ok && *final(self) == *old(self)
                }
            }),
    {
        if self.decoded.op0_kind == OPKIND_NEAR_BRANCH32 {
            let target = mask_value32(self.decoded.near_branch32, mask, true);
            if target != self.decoded.near_branch32 {
                return self.re_encode(OperandRewrite::NearBranch32(target), env, regs);
            }
        }
        Ok(())
    }
}


/// The bytes of a generated instruction before LOCK and REP prefixes: the
/// segment override prefixes, then the size prefixes (each group in the
/// reverse of the order it was drawn, as each byte goes to the front), the
/// opcode, the ModR/M byte and the padding bytes.
pub open spec fn spec_assembled(
    segment_prefixes: Seq<u8>,
    size_prefixes: Seq<u8>,
    opcode_bytes: Seq<u8>,
    modrm: u8,
    pad: Seq<u8>,
) -> Seq<u8> {
    segment_prefixes.reverse() + size_prefixes.reverse() + opcode_bytes + seq![modrm] + pad
}

/// Push the bytes of a slice onto a vector, last byte first.
fn push_reversed(v: &mut Vec<u8>, bytes: &[u8])
    ensures
        final(v)@ == old(v)@ + bytes@.reverse(),
{
    let ghost start = v@;
    let mut i: usize = bytes.len();
    while i > 0
        invariant
            i <= bytes.len(),
            v@ == start + bytes@.subrange(i as int, bytes@.len() as int).reverse(),
        decreases i,
    {
        i -= 1;
        v.push(bytes[i]);
        assert(bytes@.subrange(i as int, bytes@.len() as int).reverse() =~= bytes@.subrange(
            i as int + 1,
            bytes@.len() as int,
        ).reverse().push(bytes@[i as int]));
    }
    assert(bytes@.subrange(0, bytes@.len() as int) == bytes@);
}

/// Lay out a generated instruction and find its ModR/M byte: the result is
/// the bytes and the offset of the ModR/M byte among them.
pub fn assemble_instruction(
    segment_prefixes: &[u8],
    size_prefixes: &[u8],
    opcode_bytes: &[u8],
    modrm: u8,
    pad: &[u8],
) -> (r: (Vec<u8>, usize))
    requires
        segment_prefixes@.len() + size_prefixes@.len() + opcode_bytes@.len() < usize::MAX,
    ensures
        r.0@ == spec_assembled(segment_prefixes@, size_prefixes@, opcode_bytes@, modrm, pad@),
        r.1 == segment_prefixes@.len() + size_prefixes@.len() + opcode_bytes@.len(),
        r.0@[r.1 as int] == modrm,
{
    let mut v: Vec<u8> = Vec::new();
    push_reversed(&mut v, segment_prefixes);
    push_reversed(&mut v, size_prefixes);
    let mut i: usize = 0;
    let ghost head = v@;
    while i < opcode_bytes.len()
        invariant
            i <= opcode_bytes@.len(),
            v@ == head + opcode_bytes@.take(i as int),
        decreases opcode_bytes.len() - i,
    {
        v.push(opcode_bytes[i]);
        i += 1;
        assert(opcode_bytes@.take(i as int) == opcode_bytes@.take(i as int - 1).push(opcode_bytes@[i as int - 1]));
    }
    assert(opcode_bytes@.take(opcode_bytes@.len() as int) == opcode_bytes@);
    let modrm_offset = v.len();
    v.push(modrm);
    let ghost mid = v@;
    let mut j: usize = 0;
    while j < pad.len()
        invariant
            j <= pad@.len(),
            v@ == mid + pad@.take(j as int),
            mid[modrm_offset as int] == modrm,
            modrm_offset < mid.len(),
        decreases pad.len() - j,
    {
        v.push(pad[j]);
        j += 1;
        assert(pad@.take(j as int) == pad@.take(j as int - 1).push(pad@[j as int - 1]));
    }
    assert(pad@.take(pad@.len() as int) == pad@);
    assert(segment_prefixes@.reverse().len() == segment_prefixes@.len());
    assert(size_prefixes@.reverse().len() == size_prefixes@.len());
    (v, modrm_offset)
}

/// Inserting a prefix among the prefixes in front of the ModR/M byte leaves
/// the ModR/M byte at the offset moved by one.
pub proof fn law_insert_prefix_keeps_modrm(bytes: Seq<u8>, byte: u8, index: int, modrm_offset: int)
    requires
        0 <= index <= modrm_offset < bytes.len(),
    ensures
        bytes.insert(index, byte)[modrm_offset + 1] == bytes[modrm_offset],
        bytes.insert(index, byte).len() == bytes.len() + 1,
{
}

/// Why an opcode cannot be generated.
#[derive(Copy, Clone, Debug, PartialEq, Eq, Structural)]
pub enum OpcodeError {
    /// The configuration excludes the opcode.
    Excluded,
    /// The opcode is a one-byte prefix.
    Prefix,
}

/// Check that an opcode can be generated: it is not excluded, and a
/// one-byte opcode is not a prefix.
pub fn check_opcode(opcode: u16, excluded_opcodes: &[u16], prefixes: &[u16]) -> (r: Result<(), OpcodeError>)
    ensures
        excluded_opcodes@.contains(opcode) ==> r == Err::<(), OpcodeError>(OpcodeError::Excluded),
        !excluded_opcodes@.contains(opcode) && opcode <= 0xFF && prefixes@.contains(opcode) ==> r
            == Err::<(), OpcodeError>(OpcodeError::Prefix),
        !excluded_opcodes@.contains(opcode) && !(opcode <= 0xFF && prefixes@.contains(opcode)) ==> r
            is Ok,
{
    if crate::size_prefix::slice_contains(excluded_opcodes, opcode) {
        return Err(OpcodeError::Excluded);
    }
    if opcode <= 0xFF && crate::size_prefix::slice_contains(prefixes, opcode) {
        return Err(OpcodeError::Prefix);
    }
    Ok(())
}

/// The opcode iced-x86 reports for a decoded instruction: its opcode value,
/// or-ed under 0x0F00 for the two-byte opcode table.
pub open spec fn spec_decoded_opcode(low: u16, two_byte_table: bool) -> u16 {
    if two_byte_table {
        0x0F00u16 | low
    } else {
        low
    }
}

/// The opcode iced-x86 reports for a decoded instruction.
pub fn decoded_opcode(low: u16, two_byte_table: bool) -> (r: u16)
    ensures
        r == spec_decoded_opcode(low, two_byte_table),
{
    if two_byte_table {
        0x0F00u16 | low
    } else {
        low
    }
}

/// Whether a stored test's opcode agrees with the opcode decoded from its
/// bytes.
pub open spec fn spec_decoded_opcode_matches(decoded: u16, raw: u16, register_in_opcode: bool) -> bool {
    ||| decoded == raw
    ||| register_in_opcode && decoded & !7u16 == raw & !7u16
    ||| decoded > 0x0FFF && (decoded >> 8u16) & !0xFFu16 == raw & !0xFFu16
}

/// Whether a stored test's opcode agrees with the opcode decoded from its
/// bytes: they are equal; or the opcode encodes a register in its low three
/// bits and they agree above those; or the decoded opcode is a two-byte one
/// and the stored opcode has no high byte.
pub fn decoded_opcode_matches(decoded: u16, raw: u16, register_in_opcode: bool) -> (r: bool)
    ensures
        r == spec_decoded_opcode_matches(decoded, raw, register_in_opcode),
{
    if decoded == raw {
        return true;
    }
    let mut matches = false;
    if register_in_opcode && (decoded & !0x07u16) == (raw & !0x07u16) {
        matches = true;
    }
    if decoded > 0x0FFF && ((decoded >> 8u16) & !0xFFu16) == (raw & !0xFFu16) {
        matches = true;
    }
    matches
}

/// Whether an operand kind of the opcode encoding puts a register in the
/// low three bits of the opcode.
pub open spec fn register_in_opcode(kind: u8) -> bool {
    kind == OPCODE_OPERAND_R8_OPCODE || kind == OPCODE_OPERAND_R16_OPCODE || kind == OPCODE_OPERAND_R32_OPCODE
}

/// Why a stored test's instruction bytes were refused.
#[derive(Copy, Clone, Debug, PartialEq, Eq, Structural)]
pub enum StoredOpcodeError {
    /// The decoded displacement does not lie inside the bytes.
    DisplacementOutOfBounds,
    /// The bytes decode to a valid instruction of another opcode.
    Mismatch { decoded: u16 },
}

/// The check of a stored test's bytes against its opcode: the bytes are
/// decoded for the code segment size at the instruction pointer of `regs`;
/// a valid instruction whose opcode does not agree with `opcode` is refused,
/// and otherwise its disassembly is the result.
pub open spec fn spec_check_stored_opcode(
    code_segment_size: SegmentSize,
    bytes: Seq<u8>,
    regs: Registers,
    decoder_options: u32,
    opcode: u16,
) -> Result<IcedDisassembly, StoredOpcodeError> {
    let b = spec_bitness(code_segment_size);
    let ip = regs.spec_eip() as u64;
    let d = iced_decoded(b, bytes, ip, decoder_options);
    let at = iced_displacement_at(b, bytes, ip, decoder_options);
    let info = iced_opcode_info(b, bytes, ip, decoder_options);
    let decoded = spec_decoded_opcode(info.0, info.1 == OPCODE_TABLE_T0F);
    match spec_from_decoded(d, at.0, at.1, bytes) {
        None => Err(StoredOpcodeError::DisplacementOutOfBounds),
        Some(dis) => if d.code != CODE_INVALID && !spec_decoded_opcode_matches(
            decoded,
            opcode,
            register_in_opcode(info.2),
        ) {
            Err(StoredOpcodeError::Mismatch { decoded })
        } else {
            Ok(dis)
        },
    }
}

/// Decode the instruction bytes of a stored test and check them against the
/// test's opcode.
pub fn check_stored_opcode(
    code_segment_size: SegmentSize,
    bytes: &[u8],
    regs: &Registers,
    decoder_options: u32,
    opcode: u16,
) -> (r: Result<IcedDisassembly, StoredOpcodeError>)
    ensures
        r == spec_check_stored_opcode(code_segment_size, bytes@, *regs, decoder_options, opcode),
{
    let dis = match IcedDisassembly::disassemble(code_segment_size, bytes, regs, decoder_options) {
        Some(d) => d,
        None => {
            return Err(StoredOpcodeError::DisplacementOutOfBounds);
        },
    };
    let bitness: u32 = match code_segment_size {
        SegmentSize::Sixteen => 16,
        SegmentSize::ThirtyTwo => 32,
    };
    let (low, table, kind) = opcode_info(bitness, bytes, regs.eip() as u64, decoder_options);
    let decoded = decoded_opcode(low, table == OPCODE_TABLE_T0F);
    let in_opcode = kind == OPCODE_OPERAND_R8_OPCODE || kind == OPCODE_OPERAND_R16_OPCODE || kind
        == OPCODE_OPERAND_R32_OPCODE;
    if dis.decoded.code != CODE_INVALID && !decoded_opcode_matches(decoded, opcode, in_opcode) {
        Err(StoredOpcodeError::Mismatch { decoded })
    } else {
        Ok(dis)
    }
}

/// Whether `inst` is the instruction loaded from a stored test whose bytes
/// disassemble to `dis`: the stored opcode, name and bytes; the sizes the
/// size prefixes give in the code segment; the NASM mnemonic; the decoded
/// length (within the bytes) and prefix count; the whole bytes as the
/// sequence; no ModR/M offset, seed or addressing mode.
pub open spec fn is_loaded(
    inst: TestInstruction,
    dis: IcedDisassembly,
    code_segment_size: SegmentSize,
    size_prefix: TestOpcodeSizePrefix,
    opcode: u16,
    name: Seq<char>,
    bytes: Seq<u8>,
    regs: Registers,
    decoder_options: u32,
) -> bool {
    let n = iced_nasm(spec_bitness(code_segment_size), bytes, regs.spec_eip() as u64, decoder_options);
    let sixteen = code_segment_size == SegmentSize::Sixteen;
    &&& inst.opcode == opcode
    &&& inst.name.resolved_view() == name
    &&& inst.name.iced_view() == Seq::<char>::empty()
    &&& inst.name.marty_view() == Seq::<char>::empty()
    &&& inst.mnemonic@ == n.1
    &&& inst.test_seed == 0
    &&& inst.address_size == if sixteen != has_address_override(size_prefix) {
        AddressSize::Sixteen
    } else {
        AddressSize::ThirtyTwo
    }
    &&& inst.operand_size == if sixteen != has_operand_override(size_prefix) {
        InstructionSize::Sixteen
    } else {
        InstructionSize::ThirtyTwo
    }
    &&& inst.bytes@ == bytes
    &&& inst.modrm_offset == 0
    &&& inst.instr_end == if dis.decoded.len < bytes.len() { dis.decoded.len as int } else { bytes.len() as int }
    &&& inst.sequence_end == bytes.len()
    &&& inst.prefix_end == if prefix_count(bytes) < bytes.len() { prefix_count(bytes) } else { bytes.len() }
    &&& inst.addressing_mode is None
    &&& inst.disassembly_provider == DisassemblyProvider::IcedX86
    &&& inst.is_valid == (dis.decoded.code != CODE_INVALID)
    &&& inst.decoded == dis.decoded
}

impl TestInstruction {
    /// Load the instruction of a stored test: its bytes are decoded and
    /// checked against its opcode as `check_stored_opcode` does, and the
    /// instruction keeps the stored name and bytes.
    pub fn load(
        code_segment_size: SegmentSize,
        size_prefix: TestOpcodeSizePrefix,
        opcode: u16,
        name: &str,
        bytes: &[u8],
        regs: &Registers,
        decoder_options: u32,
    ) -> (r: Result<TestInstruction, StoredOpcodeError>)
        ensures
            match spec_check_stored_opcode(code_segment_size, bytes@, *regs, decoder_options, opcode) {
                Err(e) => r == Err::<TestInstruction, StoredOpcodeError>(e),
                Ok(dis) => r matches Ok(inst) && inst.wf() && is_loaded(
                    inst,
                    dis,
                    code_segment_size,
                    size_prefix,
                    opcode,
                    name@,
                    bytes@,
                    *regs,
                    decoder_options,
                ),
            },
    {
        let dis = match check_stored_opcode(code_segment_size, bytes, regs, decoder_options, opcode) {
            Ok(d) => d,
            Err(e) => {
                return Err(e);
            },
        };
        let (_text, mnemonic) = IcedDisassembly::format(code_segment_size, bytes, regs, decoder_options);
        let byte_ct = if dis.len() < bytes.len() {
            dis.len()
        } else {
            bytes.len()
        };
        let prefix_ct = count_prefixes(bytes);
        let prefix_end = if prefix_ct < bytes.len() {
            prefix_ct
        } else {
            bytes.len()
        };
        let is_valid = dis.is_valid();
        Ok(TestInstruction {
            opcode,
            name: InstructionName::from_resolved(name),
            mnemonic,
            test_seed: 0,
            address_size: size_prefix.relative_address_size(code_segment_size),
            operand_size: size_prefix.relative_opcode_size(code_segment_size),
            bytes: vstd::slice::slice_to_vec(bytes),
            modrm_offset: 0,
            instr_end: byte_ct,
            sequence_end: bytes.len(),
            prefix_end,
            addressing_mode: None,
            disassembly_provider: DisassemblyProvider::IcedX86,
            is_valid,
            decoded: dis.decoded,
        })
    }
}

/// The registers that form the addresses of memory operands listed as
/// (segment, base, index): each operand's base, then its index, leaving out
/// "none" and registers already listed, in order.
pub open spec fn spec_ea_registers(used: Seq<(u8, u8, u8)>) -> Seq<u8>
    decreases used.len(),
{
    if used.len() == 0 {
        Seq::empty()
    } else {
        let prev = spec_ea_registers(used.drop_last());
        let m = used.last();
        let with_base = if m.1 != REGISTER_NONE && !prev.contains(m.1) {
            prev.push(m.1)
        } else {
            prev
        };
        if m.2 != REGISTER_NONE && !with_base.contains(m.2) {
            with_base.push(m.2)
        } else {
            with_base
        }
    }
}

/// Whether `v` holds `x`.
fn contains_u8(v: &Vec<u8>, x: u8) -> (r: bool)
    ensures
        r == v@.contains(x),
{
    let mut i: usize = 0;
    while i < v.len()
        invariant
            i <= v.len(),
            forall|j: int| 0 <= j < i ==> v@[j] != x,
        decreases v.len() - i,
    {
        if v[i] == x {
            return true;
        }
        i += 1;
    }
    false
}

impl TestInstruction {
    /// The segment register of each memory operand of the instruction, as
    /// iced-x86 reports them for its bytes decoded in the code segment at the
    /// instruction pointer of `regs`.
    pub fn segments(&self, code_segment_size: SegmentSize, regs: &Registers, decoder_options: u32) -> (r: Vec<u8>)
        ensures
            r@ == iced_used_memory(spec_bitness(code_segment_size), self.bytes@, regs.spec_eip() as u64, decoder_options).map_values(
                |m: (u8, u8, u8)| m.0,
            ),
    {
        let bitness: u32 = match code_segment_size {
            SegmentSize::Sixteen => 16,
            SegmentSize::ThirtyTwo => 32,
        };
        let used = used_memory(bitness, self.bytes.as_slice(), regs.eip() as u64, decoder_options);
        let mut out: Vec<u8> = Vec::new();
        let mut i: usize = 0;
        while i < used.len()
            invariant
                i <= used.len(),
                out@ == used@.take(i as int).map_values(|m: (u8, u8, u8)| m.0),
            decreases used.len() - i,
        {
            out.push(used[i].0);
            i += 1;
            assert(out@ == used@.take(i as int).map_values(|m: (u8, u8, u8)| m.0));
        }
        assert(used@.take(used@.len() as int) == used@);
        out
    }

    /// The registers the instruction's memory operands form addresses
    /// from, as `spec_ea_registers` lists them.
    pub fn ea_registers(&self, code_segment_size: SegmentSize, regs: &Registers, decoder_options: u32) -> (r: Vec<u8>)
        ensures
            r@ == spec_ea_registers(
                iced_used_memory(spec_bitness(code_segment_size), self.bytes@, regs.spec_eip() as u64, decoder_options),
            ),
    {
        let bitness: u32 = match code_segment_size {
            SegmentSize::Sixteen => 16,
            SegmentSize::ThirtyTwo => 32,
        };
        let used = used_memory(bitness, self.bytes.as_slice(), regs.eip() as u64, decoder_options);
        let mut out: Vec<u8> = Vec::new();
        let mut i: usize = 0;
        while i < used.len()
            invariant
                i <= used.len(),
                out@ == spec_ea_registers(used@.take(i as int)),
            decreases used.len() - i,
        {
            assert(used@.take(i as int + 1).drop_last() == used@.take(i as int));
            let (_, base, index) = used[i];
            if base != REGISTER_NONE && !contains_u8(&out, base) {
                out.push(base);
            }
            if index != REGISTER_NONE && !contains_u8(&out, index) {
                out.push(index);
            }
            i += 1;
        }
        assert(used@.take(used@.len() as int) == used@);
        out
    }
}

} // verus!
