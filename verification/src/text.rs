//! The text of registers, displacements and addressing modes, in the syntax
//! that the NASM formatter of iced-x86 prints inside a memory operand's
//! brackets, and the check of a disassembly against it.

use crate::cpu_common::{
    offset16_base, offset16_index, AddressOffset16, AddressOffset32, AddressingMode, AddressingMode16, AddressingMode32,
    BaseRegister, Displacement, Register16, Register32, ScaledIndex, SibScale,
};
use crate::size_prefix::slice_contains;
use vstd::prelude::*;
use vstd::string::*;

verus! {

/// The upper-case hexadecimal digit of a value below 16.
pub open spec fn hex_digit_text(d: int) -> Seq<char> {
    if d == 0 {
        "0"@
    } else if d == 1 {
        "1"@
    } else if d == 2 {
        "2"@
    } else if d == 3 {
        "3"@
    } else if d == 4 {
        "4"@
    } else if d == 5 {
        "5"@
    } else if d == 6 {
        "6"@
    } else if d == 7 {
        "7"@
    } else if d == 8 {
        "8"@
    } else if d == 9 {
        "9"@
    } else if d == 10 {
        "A"@
    } else if d == 11 {
        "B"@
    } else if d == 12 {
        "C"@
    } else if d == 13 {
        "D"@
    } else if d == 14 {
        "E"@
    } else {
        "F"@
    }
}

/// A value in upper-case hexadecimal without leading zeros.
pub open spec fn hex_text(n: nat) -> Seq<char>
    decreases n,
{
    if n < 16 {
        hex_digit_text(n as int)
    } else {
        hex_text(n / 16) + hex_digit_text((n % 16) as int)
    }
}

/// The sign of a nonzero displacement.
pub open spec fn sign_text(v: int) -> Seq<char> {
    if v < 0 {
        "-"@
    } else {
        "+"@
    }
}

/// The magnitude of a value.
pub open spec fn magnitude(v: int) -> nat {
    if v < 0 {
        (-v) as nat
    } else {
        v as nat
    }
}

/// A displacement added to a register: nothing for zero, a signed digit
/// below 10, else the sign, the magnitude in hexadecimal and `h`.
pub open spec fn signed_hex_text(v: int) -> Seq<char> {
    let mag = magnitude(v);
    if mag == 0 {
        Seq::empty()
    } else if mag < 10 {
        sign_text(v) + hex_digit_text(mag as int)
    } else {
        sign_text(v) + hex_text(mag) + "h"@
    }
}

/// The text of a 16-bit register.
pub open spec fn reg16_text(r: Register16) -> Seq<char> {
    match r {
        Register16::AX => "ax"@,
        Register16::CX => "cx"@,
        Register16::DX => "dx"@,
        Register16::BX => "bx"@,
        Register16::SP => "sp"@,
        Register16::BP => "bp"@,
        Register16::SI => "si"@,
        Register16::DI => "di"@,
        Register16::ES => "es"@,
        Register16::CS => "cs"@,
        Register16::SS => "ss"@,
        Register16::DS => "ds"@,
        Register16::FS => "fs"@,
        Register16::GS => "gs"@,
        Register16::PC => "ip"@,
        Register16::InvalidRegister => "invalid"@,
    }
}

/// The text of a 32-bit register.
pub open spec fn reg32_text(r: Register32) -> Seq<char> {
    match r {
        Register32::EAX => "eax"@,
        Register32::ECX => "ecx"@,
        Register32::EDX => "edx"@,
        Register32::EBX => "ebx"@,
        Register32::ESP => "esp"@,
        Register32::EBP => "ebp"@,
        Register32::ESI => "esi"@,
        Register32::EDI => "edi"@,
        Register32::ES => "es"@,
        Register32::CS => "cs"@,
        Register32::SS => "ss"@,
        Register32::DS => "ds"@,
        Register32::FS => "fs"@,
        Register32::GS => "gs"@,
        Register32::PC => "eip"@,
        Register32::InvalidRegister => "invalid"@,
    }
}

/// The text of a SIB scale.
pub open spec fn scale_text(s: SibScale) -> Seq<char> {
    match s {
        SibScale::One => "*1"@,
        SibScale::Two => "*2"@,
        SibScale::Four => "*4"@,
        SibScale::Eight => "*8"@,
    }
}

/// The text of a SIB base: empty without one.
pub open spec fn base_text(b: BaseRegister) -> Seq<char> {
    match b {
        BaseRegister::NoBase => Seq::empty(),
        BaseRegister::Base(r) => reg32_text(r),
    }
}

/// The text of a SIB index: empty without one.
pub open spec fn index_text(i: ScaledIndex) -> Seq<char> {
    match i {
        ScaledIndex::NoIndex => Seq::empty(),
        ScaledIndex::EaxScaled(s) => "eax"@ + scale_text(s),
        ScaledIndex::EcxScaled(s) => "ecx"@ + scale_text(s),
        ScaledIndex::EdxScaled(s) => "edx"@ + scale_text(s),
        ScaledIndex::EbxScaled(s) => "ebx"@ + scale_text(s),
        ScaledIndex::EbpScaled(s) => "ebp"@ + scale_text(s),
        ScaledIndex::EsiScaled(s) => "esi"@ + scale_text(s),
        ScaledIndex::EdiScaled(s) => "edi"@ + scale_text(s),
    }
}

/// The text of a displacement standing alone.
pub open spec fn displacement_text(d: Displacement) -> Seq<char> {
    match d {
        Displacement::NoDisp => "[None]"@,
        Displacement::Pending8 => "PENDING8"@,
        Displacement::Pending16 => "PENDING16"@,
        Displacement::Pending32 => "PENDING32"@,
        Displacement::Disp8(v) => sign_text(v as int) + hex_text(magnitude(v as int)) + "h"@,
        Displacement::Disp16(v) => sign_text(v as int) + hex_text(magnitude(v as int)) + "h"@,
        Displacement::Disp32(v) => sign_text(v as int) + hex_text(magnitude(v as int)) + "h"@,
    }
}

/// The text of a 16-bit offset.
pub open spec fn offset16_text(o: AddressOffset16) -> Seq<char> {
    match o {
        AddressOffset16::NoOffset => Seq::empty(),
        AddressOffset16::BxSi => "bx+si"@,
        AddressOffset16::BxDi => "bx+di"@,
        AddressOffset16::BpSi => "bp+si"@,
        AddressOffset16::BpDi => "bp+di"@,
        AddressOffset16::Si => "si"@,
        AddressOffset16::Di => "di"@,
        AddressOffset16::Disp16(d) => hex_text((d as u16) as nat) + "h"@,
        AddressOffset16::Bx => "bx"@,
        AddressOffset16::BxSiDisp8(d) => "bx+si"@ + signed_hex_text(d as int),
        AddressOffset16::BxDiDisp8(d) => "bx+di"@ + signed_hex_text(d as int),
        AddressOffset16::BpSiDisp8(d) => "bp+si"@ + signed_hex_text(d as int),
        AddressOffset16::BpDiDisp8(d) => "bp+di"@ + signed_hex_text(d as int),
        AddressOffset16::SiDisp8(d) => "si"@ + signed_hex_text(d as int),
        AddressOffset16::DiDisp8(d) => "di"@ + signed_hex_text(d as int),
        AddressOffset16::BpDisp8(d) => "bp"@ + signed_hex_text(d as int),
        AddressOffset16::BxDisp8(d) => "bx"@ + signed_hex_text(d as int),
        AddressOffset16::BxSiDisp16(d) => "bx+si"@ + signed_hex_text(d as int),
        AddressOffset16::BxDiDisp16(d) => "bx+di"@ + signed_hex_text(d as int),
        AddressOffset16::BpSiDisp16(d) => "bp+si"@ + signed_hex_text(d as int),
        AddressOffset16::BpDiDisp16(d) => "bp+di"@ + signed_hex_text(d as int),
        AddressOffset16::SiDisp16(d) => "si"@ + signed_hex_text(d as int),
        AddressOffset16::DiDisp16(d) => "di"@ + signed_hex_text(d as int),
        AddressOffset16::BpDisp16(d) => "bp"@ + signed_hex_text(d as int),
        AddressOffset16::BxDisp16(d) => "bx"@ + signed_hex_text(d as int),
    }
}

/// The `+` between a SIB base and index, when both are present.
pub open spec fn sib_plus_text(b: BaseRegister, i: ScaledIndex) -> Seq<char> {
    if !(b is NoBase) && !(i is NoIndex) {
        "+"@
    } else {
        Seq::empty()
    }
}

/// The text of a SIB offset without its displacement.
pub open spec fn sib_text(b: BaseRegister, i: ScaledIndex) -> Seq<char> {
    base_text(b) + sib_plus_text(b, i) + index_text(i)
}

/// The text of a 32-bit offset.
pub open spec fn offset32_text(o: AddressOffset32) -> Seq<char> {
    match o {
        AddressOffset32::NoOffset => Seq::empty(),
        AddressOffset32::Eax => "eax"@,
        AddressOffset32::Ecx => "ecx"@,
        AddressOffset32::Edx => "edx"@,
        AddressOffset32::Ebx => "ebx"@,
        AddressOffset32::Disp32(d) => hex_text((d as u32) as nat) + "h"@,
        AddressOffset32::Ebp => "ebp"@,
        AddressOffset32::Esi => "esi"@,
        AddressOffset32::Edi => "edi"@,
        AddressOffset32::EaxDisp8(d) => "eax"@ + signed_hex_text(d as int),
        AddressOffset32::EcxDisp8(d) => "ecx"@ + signed_hex_text(d as int),
        AddressOffset32::EdxDisp8(d) => "edx"@ + signed_hex_text(d as int),
        AddressOffset32::EbxDisp8(d) => "ebx"@ + signed_hex_text(d as int),
        AddressOffset32::EspDisp8(d) => "esp"@ + signed_hex_text(d as int),
        AddressOffset32::EbpDisp8(d) => "ebp"@ + signed_hex_text(d as int),
        AddressOffset32::EsiDisp8(d) => "esi"@ + signed_hex_text(d as int),
        AddressOffset32::EdiDisp8(d) => "edi"@ + signed_hex_text(d as int),
        AddressOffset32::EaxDisp32(d) => "eax"@ + signed_hex_text(d as int),
        AddressOffset32::EcxDisp32(d) => "ecx"@ + signed_hex_text(d as int),
        AddressOffset32::EdxDisp32(d) => "edx"@ + signed_hex_text(d as int),
        AddressOffset32::EbxDisp32(d) => "ebx"@ + signed_hex_text(d as int),
        AddressOffset32::EspDisp32(d) => "esp"@ + signed_hex_text(d as int),
        AddressOffset32::EbpDisp32(d) => "ebp"@ + signed_hex_text(d as int),
        AddressOffset32::EsiDisp32(d) => "esi"@ + signed_hex_text(d as int),
        AddressOffset32::EdiDisp32(d) => "edi"@ + signed_hex_text(d as int),
        AddressOffset32::SibPending => "**INVALID**"@,
        AddressOffset32::Sib(b, i) => sib_text(b, i),
        AddressOffset32::SibDisp8(b, i, d) => sib_text(b, i) + signed_hex_text(d as int),
        AddressOffset32::SibDisp32(b, i, d) => sib_text(b, i) + signed_hex_text(d as int),
        AddressOffset32::SibDisp8Ebp(b, i, d) => sib_text(b, i) + signed_hex_text(d as int),
        AddressOffset32::SibDisp32Ebp(b, i, d) => sib_text(b, i) + signed_hex_text(d as int),
    }
}

/// The text of an addressing mode: `[Reg]` for a register form, else the
/// segment and offset in brackets.
pub open spec fn addressing_mode_text(m: AddressingMode) -> Seq<char> {
    match m {
        AddressingMode::Sixteen(AddressingMode16::RegisterMode)
        | AddressingMode::ThirtyTwo(AddressingMode32::RegisterMode) => "[Reg]"@,
        AddressingMode::Sixteen(AddressingMode16::Address { base, offset }) => "["@ + reg16_text(
            base,
        ) + ":"@ + offset16_text(offset) + "]"@,
        AddressingMode::ThirtyTwo(AddressingMode32::Address { base, offset }) => "["@ + reg32_text(
            base,
        ) + ":"@ + offset32_text(offset) + "]"@,
    }
}

/// The hexadecimal digit of a value below 16.
fn hex_digit_str(d: u32) -> (r: &'static str)
    requires
        d < 16,
    ensures
        r@ == hex_digit_text(d as int),
{
    match d {
        0 => "0",
        1 => "1",
        2 => "2",
        3 => "3",
        4 => "4",
        5 => "5",
        6 => "6",
        7 => "7",
        8 => "8",
        9 => "9",
        10 => "A",
        11 => "B",
        12 => "C",
        13 => "D",
        14 => "E",
        _ => "F",
    }
}

/// The hexadecimal text of the digits from `digits[i]` down to `digits[0]`.
spec fn digits_text(digits: Seq<u32>, i: int) -> Seq<char>
    decreases i,
{
    if i <= 0 {
        Seq::empty()
    } else {
        hex_digit_text(digits[i - 1] as int) + digits_text(digits, i - 1)
    }
}

/// A value in upper-case hexadecimal without leading zeros.
pub fn hex_upper(n: u32) -> (r: String)
    ensures
        r@ == hex_text(n as nat),
{
    let mut digits: Vec<u32> = Vec::new();
    let mut m: u32 = n;
    while m >= 16
        invariant
            hex_text(n as nat) == hex_text(m as nat) + digits_text(digits@, digits@.len() as int),
            forall|k: int| 0 <= k < digits@.len() ==> digits@[k] < 16,
        decreases m,
    {
        let d = m % 16;
        proof {
            assert(digits_text(digits@.push(d), digits@.len() as int + 1) == hex_digit_text(d as int)
                + digits_text(digits@.push(d), digits@.len() as int));
            lemma_digits_text_prefix(digits@, d, digits@.len() as int);
        }
        digits.push(d);
        m = m / 16;
    }
    let mut s = String::new();
    s.append(hex_digit_str(m));
    let mut i: usize = digits.len();
    while i > 0
        invariant
            i <= digits@.len(),
            forall|k: int| 0 <= k < digits@.len() ==> digits@[k] < 16,
            hex_text(n as nat) == hex_text(m as nat) + digits_text(digits@, digits@.len() as int),
            m < 16,
            s@ + digits_text(digits@, i as int) == hex_text(n as nat),
        decreases i,
    {
        i -= 1;
        s.append(hex_digit_str(digits[i]));
    }
    s
}

proof fn lemma_digits_text_prefix(digits: Seq<u32>, d: u32, i: int)
    requires
        0 <= i <= digits.len(),
    ensures
        digits_text(digits.push(d), i) == digits_text(digits, i),
    decreases i,
{
    if i > 0 {
        lemma_digits_text_prefix(digits, d, i - 1);
    }
}

/// The text of a displacement added to a register.
pub fn signed_hex(v: i32) -> (r: String)
    ensures
        r@ == signed_hex_text(v as int),
{
    let neg = v < 0;
    let mag: u32 = if neg {
        (-(v as i64)) as u32
    } else {
        v as u32
    };
    let mut s = String::new();
    if mag == 0 {
        return s;
    }
    if neg {
        s.append("-");
    } else {
        s.append("+");
    }
    if mag < 10 {
        s.append(hex_digit_str(mag));
    } else {
        let h = hex_upper(mag);
        s.append(h.as_str());
        s.append("h");
    }
    s
}

/// The text of a value in hexadecimal followed by `h`.
fn hex_h(n: u32) -> (r: String)
    ensures
        r@ == hex_text(n as nat) + "h"@,
{
    let mut s = hex_upper(n);
    s.append("h");
    s
}

/// The text of a signed displacement standing alone: its sign, its
/// magnitude in hexadecimal, and `h`.
fn sign_hex_h(v: i32) -> (r: String)
    ensures
        r@ == sign_text(v as int) + hex_text(magnitude(v as int)) + "h"@,
{
    let mag: u32 = if v < 0 {
        (-(v as i64)) as u32
    } else {
        v as u32
    };
    let mut s = String::new();
    if v < 0 {
        s.append("-");
    } else {
        s.append("+");
    }
    let h = hex_h(mag);
    s.append(h.as_str());
    s
}

/// A register text or literal followed by a signed displacement.
fn with_signed(prefix: &str, v: i32) -> (r: String)
    ensures
        r@ == prefix@ + signed_hex_text(v as int),
{
    let mut s = String::new();
    s.append(prefix);
    let d = signed_hex(v);
    s.append(d.as_str());
    s
}

impl Register16 {
    /// The register's name.
    pub fn to_string(&self) -> (r: String)
        ensures
            r@ == reg16_text(*self),
    {
        let t = match self {
            Register16::AX => "ax",
            Register16::CX => "cx",
            Register16::DX => "dx",
            Register16::BX => "bx",
            Register16::SP => "sp",
            Register16::BP => "bp",
            Register16::SI => "si",
            Register16::DI => "di",
            Register16::ES => "es",
            Register16::CS => "cs",
            Register16::SS => "ss",
            Register16::DS => "ds",
            Register16::FS => "fs",
            Register16::GS => "gs",
            Register16::PC => "ip",
            Register16::InvalidRegister => "invalid",
        };
        String::from_str(t)
    }
}

impl Register32 {
    /// The register's name.
    pub fn to_string(&self) -> (r: String)
        ensures
            r@ == reg32_text(*self),
    {
        let t = match self {
            Register32::EAX => "eax",
            Register32::ECX => "ecx",
            Register32::EDX => "edx",
            Register32::EBX => "ebx",
            Register32::ESP => "esp",
            Register32::EBP => "ebp",
            Register32::ESI => "esi",
            Register32::EDI => "edi",
            Register32::ES => "es",
            Register32::CS => "cs",
            Register32::SS => "ss",
            Register32::DS => "ds",
            Register32::FS => "fs",
            Register32::GS => "gs",
            Register32::PC => "eip",
            Register32::InvalidRegister => "invalid",
        };
        String::from_str(t)
    }
}

impl SibScale {
    /// The scale as `*1`, `*2`, `*4` or `*8`.
    pub fn to_string(&self) -> (r: String)
        ensures
            r@ == scale_text(*self),
    {
        let t = match self {
            SibScale::One => "*1",
            SibScale::Two => "*2",
            SibScale::Four => "*4",
            SibScale::Eight => "*8",
        };
        String::from_str(t)
    }
}

impl BaseRegister {
    /// The base register's name; empty without one.
    pub fn to_string(&self) -> (r: String)
        ensures
            r@ == base_text(*self),
    {
        match self {
            BaseRegister::NoBase => String::new(),
            BaseRegister::Base(reg) => reg.to_string(),
        }
    }
}

impl ScaledIndex {
    /// The index register's name and scale; empty without one.
    pub fn to_string(&self) -> (r: String)
        ensures
            r@ == index_text(*self),
    {
        let (name, scale) = match self {
            ScaledIndex::NoIndex => {
                return String::new();
            },
            ScaledIndex::EaxScaled(s) => ("eax", s),
            ScaledIndex::EcxScaled(s) => ("ecx", s),
            ScaledIndex::EdxScaled(s) => ("edx", s),
            ScaledIndex::EbxScaled(s) => ("ebx", s),
            ScaledIndex::EbpScaled(s) => ("ebp", s),
            ScaledIndex::EsiScaled(s) => ("esi", s),
            ScaledIndex::EdiScaled(s) => ("edi", s),
        };
        let mut t = String::from_str(name);
        let st = scale.to_string();
        t.append(st.as_str());
        t
    }
}

impl Displacement {
    /// The displacement standing alone: `[None]`, a pending marker, or the
    /// sign and magnitude in hexadecimal with `h`.
    pub fn to_string(&self) -> (r: String)
        ensures
            r@ == displacement_text(*self),
    {
        match self {
            Displacement::NoDisp => String::from_str("[None]"),
            Displacement::Pending8 => String::from_str("PENDING8"),
            Displacement::Pending16 => String::from_str("PENDING16"),
            Displacement::Pending32 => String::from_str("PENDING32"),
            Displacement::Disp8(v) => sign_hex_h(*v as i32),
            Displacement::Disp16(v) => sign_hex_h(*v as i32),
            Displacement::Disp32(v) => sign_hex_h(*v),
        }
    }
}

impl AddressOffset16 {
    /// The offset as the disassembler prints it.
    pub fn to_string(&self) -> (r: String)
        ensures
            r@ == offset16_text(*self),
    {
        match *self {
            AddressOffset16::NoOffset => String::new(),
            AddressOffset16::BxSi => String::from_str("bx+si"),
            AddressOffset16::BxDi => String::from_str("bx+di"),
            AddressOffset16::BpSi => String::from_str("bp+si"),
            AddressOffset16::BpDi => String::from_str("bp+di"),
            AddressOffset16::Si => String::from_str("si"),
            AddressOffset16::Di => String::from_str("di"),
            AddressOffset16::Disp16(d) => hex_h(d as u16 as u32),
            AddressOffset16::Bx => String::from_str("bx"),
            AddressOffset16::BxSiDisp8(d) => with_signed("bx+si", d as i32),
            AddressOffset16::BxDiDisp8(d) => with_signed("bx+di", d as i32),
            AddressOffset16::BpSiDisp8(d) => with_signed("bp+si", d as i32),
            AddressOffset16::BpDiDisp8(d) => with_signed("bp+di", d as i32),
            AddressOffset16::SiDisp8(d) => with_signed("si", d as i32),
            AddressOffset16::DiDisp8(d) => with_signed("di", d as i32),
            AddressOffset16::BpDisp8(d) => with_signed("bp", d as i32),
            AddressOffset16::BxDisp8(d) => with_signed("bx", d as i32),
            AddressOffset16::BxSiDisp16(d) => with_signed("bx+si", d as i32),
            AddressOffset16::BxDiDisp16(d) => with_signed("bx+di", d as i32),
            AddressOffset16::BpSiDisp16(d) => with_signed("bp+si", d as i32),
            AddressOffset16::BpDiDisp16(d) => with_signed("bp+di", d as i32),
            AddressOffset16::SiDisp16(d) => with_signed("si", d as i32),
            AddressOffset16::DiDisp16(d) => with_signed("di", d as i32),
            AddressOffset16::BpDisp16(d) => with_signed("bp", d as i32),
            AddressOffset16::BxDisp16(d) => with_signed("bx", d as i32),
        }
    }
}

/// The text of a SIB offset without its displacement.
fn sib_string(b: BaseRegister, i: ScaledIndex) -> (r: String)
    ensures
        r@ == sib_text(b, i),
{
    let mut s = b.to_string();
    if b.is_some() && i.is_some() {
        s.append("+");
    }
    let it = i.to_string();
    s.append(it.as_str());
    s
}

/// The text of a SIB offset followed by a signed displacement.
fn sib_disp_string(b: BaseRegister, i: ScaledIndex, d: i32) -> (r: String)
    ensures
        r@ == sib_text(b, i) + signed_hex_text(d as int),
{
    let mut s = sib_string(b, i);
    let ds = signed_hex(d);
    s.append(ds.as_str());
    s
}

impl AddressOffset32 {
    /// The offset as the disassembler prints it.
    pub fn to_string(&self) -> (r: String)
        ensures
            r@ == offset32_text(*self),
    {
        match *self {
            AddressOffset32::NoOffset => String::new(),
            AddressOffset32::Eax => String::from_str("eax"),
            AddressOffset32::Ecx => String::from_str("ecx"),
            AddressOffset32::Edx => String::from_str("edx"),
            AddressOffset32::Ebx => String::from_str("ebx"),
            AddressOffset32::Disp32(d) => hex_h(d as u32),
            AddressOffset32::Ebp => String::from_str("ebp"),
            AddressOffset32::Esi => String::from_str("esi"),
            AddressOffset32::Edi => String::from_str("edi"),
            AddressOffset32::EaxDisp8(d) => with_signed("eax", d as i32),
            AddressOffset32::EcxDisp8(d) => with_signed("ecx", d as i32),
            AddressOffset32::EdxDisp8(d) => with_signed("edx", d as i32),
            AddressOffset32::EbxDisp8(d) => with_signed("ebx", d as i32),
            AddressOffset32::EspDisp8(d) => with_signed("esp", d as i32),
            AddressOffset32::EbpDisp8(d) => with_signed("ebp", d as i32),
            AddressOffset32::EsiDisp8(d) => with_signed("esi", d as i32),
            AddressOffset32::EdiDisp8(d) => with_signed("edi", d as i32),
            AddressOffset32::EaxDisp32(d) => with_signed("eax", d),
            AddressOffset32::EcxDisp32(d) => with_signed("ecx", d),
            AddressOffset32::EdxDisp32(d) => with_signed("edx", d),
            AddressOffset32::EbxDisp32(d) => with_signed("ebx", d),
            AddressOffset32::EspDisp32(d) => with_signed("esp", d),
            AddressOffset32::EbpDisp32(d) => with_signed("ebp", d),
            AddressOffset32::EsiDisp32(d) => with_signed("esi", d),
            AddressOffset32::EdiDisp32(d) => with_signed("edi", d),
            AddressOffset32::SibPending => String::from_str("**INVALID**"),
            AddressOffset32::Sib(b, i) => sib_string(b, i),
            AddressOffset32::SibDisp8(b, i, d) => sib_disp_string(b, i, d as i32),
            AddressOffset32::SibDisp32(b, i, d) => sib_disp_string(b, i, d),
            AddressOffset32::SibDisp8Ebp(b, i, d) => sib_disp_string(b, i, d as i32),
            AddressOffset32::SibDisp32Ebp(b, i, d) => sib_disp_string(b, i, d),
        }
    }
}

impl AddressingMode {
    /// The addressing mode as the disassembler prints a memory operand.
    pub fn to_string(&self) -> (r: String)
        ensures
            r@ == addressing_mode_text(*self),
    {
        let (seg, off) = match *self {
            AddressingMode::Sixteen(AddressingMode16::RegisterMode)
            | AddressingMode::ThirtyTwo(AddressingMode32::RegisterMode) => {
                return String::from_str("[Reg]");
            },
            AddressingMode::Sixteen(AddressingMode16::Address { base, offset }) => (
                base.to_string(),
                offset.to_string(),
            ),
            AddressingMode::ThirtyTwo(AddressingMode32::Address { base, offset }) => (
                base.to_string(),
                offset.to_string(),
            ),
        };
        let mut s = String::from_str("[");
        s.append(seg.as_str());
        s.append(":");
        s.append(off.as_str());
        s.append("]");
        s
    }
}

/// Why a disassembly was rejected.
#[derive(Copy, Clone, Debug, PartialEq, Eq, Structural)]
pub enum DisassemblyError {
    /// The memory operand in the disassembly differs from the computed
    /// addressing mode.
    Mismatch,
    /// The disassembly shows a memory operand but no addressing mode was
    /// computed.
    MissingAddressingMode,
}

/// Whether `pat` occurs in `s`.
pub open spec fn occurs_in(s: Seq<char>, pat: Seq<char>) -> bool {
    exists|i: int| 0 <= i && i + pat.len() <= s.len() && #[trigger] s.subrange(i, i + pat.len()) == pat
}

/// The position of the first occurrence of a character, if any.
pub open spec fn first_index(s: Seq<char>, c: char) -> Option<int> {
    if s.contains(c) {
        Some(choose|i: int| 0 <= i < s.len() && s[i] == c && forall|j: int| 0 <= j < i ==> s[j] != c)
    } else {
        None
    }
}

/// Whether a disassembly is acceptable, and the error when it is not: a
/// `(bad)` disassembly is not acceptable; an opcode that shows a memory
/// operand without a ModR/M byte is; otherwise the text between the first
/// `[` and the first `]` after it, brackets included, must be the text of the
/// computed addressing mode, which must exist.
pub open spec fn spec_validate_disassembly(
    name: Seq<char>,
    opcode: u16,
    offset_opcodes: Seq<u16>,
    mode: Option<AddressingMode>,
) -> Result<bool, DisassemblyError> {
    if occurs_in(name, bad_marker()) {
        Ok(false)
    } else if offset_opcodes.contains(opcode) {
        Ok(true)
    } else {
        match (first_index(name, '['), first_index(name, ']')) {
            (Some(start), Some(end)) => if start < end {
                match mode {
                    Some(m) => if name.subrange(start, end + 1) == addressing_mode_text(m) {
                        Ok(true)
                    } else {
                        Err(DisassemblyError::Mismatch)
                    },
                    None => Err(DisassemblyError::MissingAddressingMode),
                }
            } else {
                Ok(true)
            },
            _ => Ok(true),
        }
    }
}

/// Find the first occurrence of a character.
fn find_char(s: &str, c: char) -> (r: Option<usize>)
    ensures
        match r {
            Some(i) => first_index(s@, c) == Some(i as int) && i < s@.len() && i < usize::MAX,
            None => first_index(s@, c) is None,
        },
{
    let n = s.unicode_len();
    let mut i: usize = 0;
    while i < n
        invariant
            n == s@.len(),
            i <= n,
            forall|j: int| 0 <= j < i ==> s@[j] != c,
        decreases n - i,
    {
        if s.get_char(i) == c {
            proof {
                assert(s@[i as int] == c);
                assert(s@.contains(c));
                let k = choose|k: int| 0 <= k < s@.len() && s@[k] == c && forall|j: int| 0 <= j < k ==> s@[j] != c;
                assert(k == i as int) by {
                    if k > i {
                        assert(s@[i as int] == c);
                    }
                }
            }
            return Some(i);
        }
        i += 1;
    }
    None
}

/// The marker the disassembler prints for an undecodable instruction.
pub open spec fn bad_marker() -> Seq<char> {
    seq!['(', 'b', 'a', 'd', ')']
}

/// Whether `(bad)` occurs in the text.
fn contains_bad(s: &str) -> (r: bool)
    ensures
        r == occurs_in(s@, bad_marker()),
{
    let n = s.unicode_len();
    if n < 5 {
        assert forall|i: int| 0 <= i && i + 5 <= s@.len() implies #[trigger] s@.subrange(i, i + 5) != bad_marker() by {}
        return false;
    }
    let mut i: usize = 0;
    while i <= n - 5
        invariant
            n == s@.len(),
            n >= 5,
            i <= n - 4,
            forall|k: int| 0 <= k < i ==> #[trigger] s@.subrange(k, k + 5) != bad_marker(),
        decreases n - i,
    {
        let a = s.get_char(i);
        let b = s.get_char(i + 1);
        let c = s.get_char(i + 2);
        let d = s.get_char(i + 3);
        let e = s.get_char(i + 4);
        if a == '(' && b == 'b' && c == 'a' && d == 'd' && e == ')' {
            assert(s@.subrange(i as int, i + 5) =~= bad_marker());
            return true;
        }
        assert(s@.subrange(i as int, i + 5) != bad_marker()) by {
            if s@.subrange(i as int, i + 5) == bad_marker() {
                assert(s@.subrange(i as int, i + 5)[0] == a);
                assert(s@.subrange(i as int, i + 5)[1] == b);
                assert(s@.subrange(i as int, i + 5)[2] == c);
                assert(s@.subrange(i as int, i + 5)[3] == d);
                assert(s@.subrange(i as int, i + 5)[4] == e);
            }
        }
        i += 1;
    }
    false
}

/// Compare the bracketed memory operand of a disassembly with the text of
/// the computed addressing mode.
fn check_operand_text(name: &str, start: usize, end: usize, addressing_mode: Option<AddressingMode>) -> (r: Result<bool, DisassemblyError>)
    requires
        start < end < name@.len(),
        end < usize::MAX,
    ensures
        r == match addressing_mode {
            Some(m) => if name@.subrange(start as int, end + 1) == addressing_mode_text(m) {
                Ok(true)
            } else {
                Err(DisassemblyError::Mismatch)
            },
            None => Err(DisassemblyError::MissingAddressingMode),
        },
{
    match addressing_mode {
        Some(m) => {
            let iced_addr = name.substring_char(start, end + 1);
            let text = m.to_string();
            let iced_string = String::from_str(iced_addr);
            if iced_string == text {
                Ok(true)
            } else {
                Err(DisassemblyError::Mismatch)
            }
        },
        None => Err(DisassemblyError::MissingAddressingMode),
    }
}

/// Check the iced-x86 disassembly of a generated instruction against the
/// addressing mode computed from its ModR/M byte.
pub fn validate_disassembly(
    name: &str,
    opcode: u16,
    offset_opcodes: &[u16],
    addressing_mode: Option<AddressingMode>,
) -> (r: Result<bool, DisassemblyError>)
    ensures
        r == spec_validate_disassembly(name@, opcode, offset_opcodes@, addressing_mode),
{
    if contains_bad(name) {
        return Ok(false);
    }
    if slice_contains(offset_opcodes, opcode) {
        return Ok(true);
    }
    let start = find_char(name, '[');
    let end = find_char(name, ']');
    match (start, end) {
        (Some(start), Some(end)) => {
            if start < end {
                check_operand_text(name, start, end, addressing_mode)
            } else {
                Ok(true)
            }
        },
        _ => Ok(true),
    }
}

/// The register names of a 16-bit addressing mode as its text spells them:
/// the base register, a `+` when there are two, then the index register.
pub open spec fn offset16_register_text(o: AddressOffset16) -> Seq<char> {
    let base = match offset16_base(o) {
        Some(g) => reg16_text(g),
        None => Seq::empty(),
    };
    let index = match offset16_index(o) {
        Some(g) => reg16_text(g),
        None => Seq::empty(),
    };
    base + (if offset16_base(o) is Some && offset16_index(o) is Some {
        "+"@
    } else {
        Seq::empty()
    }) + index
}

/// The text of a 16-bit addressing mode with registers starts with the names
/// of exactly the registers it adds: the registers an offset is computed
/// from are those the disassembly prints.
pub proof fn law_offset16_text_names_registers(o: AddressOffset16)
    requires
        offset16_base(o) is Some || offset16_index(o) is Some,
    ensures
        offset16_text(o).len() >= offset16_register_text(o).len(),
        offset16_text(o).take(offset16_register_text(o).len() as int) == offset16_register_text(o),
{
    reveal_strlit("+");
    reveal_strlit("bp");
    reveal_strlit("bp+di");
    reveal_strlit("bp+si");
    reveal_strlit("bx");
    reveal_strlit("bx+di");
    reveal_strlit("bx+si");
    reveal_strlit("di");
    reveal_strlit("si");
    let t = offset16_register_text(o);
    let rest = offset16_text(o).skip(t.len() as int);
    assert(offset16_text(o) =~= t + rest) by {
        match o {
            AddressOffset16::BxSi | AddressOffset16::BxDi | AddressOffset16::BpSi | AddressOffset16::BpDi
            | AddressOffset16::Si | AddressOffset16::Di | AddressOffset16::Bx => {
                assert(t =~= offset16_text(o));
            },
            _ => {},
        }
    }
    assert((t + rest).take(t.len() as int) =~= t);
}

} // verus!
