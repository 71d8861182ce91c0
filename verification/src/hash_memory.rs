//! A sparse byte-addressed memory, used to replay the bus operations of a test.

use std::collections::HashMap;
use vstd::prelude::*;

verus! {

broadcast use vstd::std_specs::hash::group_hash_axioms;

/// Sparse memory: bytes that were written are held in `memory`; every other
/// address reads as `uninit_byte`.
pub struct HashMemory {
    pub memory: HashMap<u32, u8>,
    pub uninit_byte: u8,
}

/// The byte at `addr` of a memory whose written bytes are `m` and whose
/// unwritten bytes read as `uninit`.
pub open spec fn byte_at(m: Map<u32, u8>, uninit: u8, addr: u32) -> u8 {
    if m.contains_key(addr) {
        m[addr]
    } else {
        uninit
    }
}

/// Little-endian 16-bit value from two bytes.
pub open spec fn word_of(low: u8, high: u8) -> u16 {
    (low as int + 256 * (high as int)) as u16
}

/// Little-endian 32-bit value from four bytes.
pub open spec fn dword_of(b0: u8, b1: u8, b2: u8, b3: u8) -> u32 {
    (b0 as int + 256 * (b1 as int) + 65536 * (b2 as int) + 16777216 * (b3 as int)) as u32
}

/// Low byte of a 16-bit value.
pub open spec fn low_byte(v: u16) -> u8 {
    (v % 256) as u8
}

/// High byte of a 16-bit value.
pub open spec fn high_byte(v: u16) -> u8 {
    (v / 256) as u8
}

/// Byte `i` (0 = least significant) of a 32-bit value.
pub open spec fn dword_byte(v: u32, i: int) -> u8 {
    if i == 0 {
        (v % 256) as u8
    } else if i == 1 {
        ((v / 256) % 256) as u8
    } else if i == 2 {
        ((v / 65536) % 256) as u8
    } else {
        (v / 16777216) as u8
    }
}

/// The even address of the 16-bit bus word that holds `addr`.
pub open spec fn bus_word_address(addr: u32) -> u32 {
    (addr - addr % 2) as u32
}

/// The low and high bytes of a word, by shift and mask, rebuild it.
pub proof fn lemma_word_bytes(v: u16)
    ensures
        word_of(low_byte(v), high_byte(v)) == v,
        (v & 0xFF) as u8 == low_byte(v),
        (v >> 8) as u8 == high_byte(v),
{
    assert((v & 0xFF) as u8 == (v % 256) as u8 && (v >> 8) as u8 == (v / 256) as u8)
        by (bit_vector);
}

/// Joining two bytes by shift and or gives their little-endian word.
pub proof fn lemma_word_join(low: u8, high: u8)
    ensures
        ((high as u16) << 8) | (low as u16) == word_of(low, high),
        low_byte(word_of(low, high)) == low,
        high_byte(word_of(low, high)) == high,
{
    assert(((high as u16) << 8) | (low as u16) == (low as int + 256 * (high as int)) as u16)
        by (bit_vector);
}

/// Joining four bytes by shift and or gives their little-endian double word.
pub proof fn lemma_dword_join(b0: u8, b1: u8, b2: u8, b3: u8)
    ensures
        ((b3 as u32) << 24) | ((b2 as u32) << 16) | ((b1 as u32) << 8) | (b0 as u32)
            == dword_of(b0, b1, b2, b3),
        dword_byte(dword_of(b0, b1, b2, b3), 0) == b0,
        dword_byte(dword_of(b0, b1, b2, b3), 1) == b1,
        dword_byte(dword_of(b0, b1, b2, b3), 2) == b2,
        dword_byte(dword_of(b0, b1, b2, b3), 3) == b3,
{
    assert(((b3 as u32) << 24) | ((b2 as u32) << 16) | ((b1 as u32) << 8) | (b0 as u32)
        == (b0 as int + 256 * (b1 as int) + 65536 * (b2 as int) + 16777216 * (b3 as int)) as u32)
        by (bit_vector);
}

/// The four bytes of a double word, by shift and mask, rebuild it.
pub proof fn lemma_dword_bytes(v: u32)
    ensures
        (v & 0xFF) as u8 == dword_byte(v, 0),
        ((v >> 8) & 0xFF) as u8 == dword_byte(v, 1),
        ((v >> 16) & 0xFF) as u8 == dword_byte(v, 2),
        ((v >> 24) & 0xFF) as u8 == dword_byte(v, 3),
        dword_of(dword_byte(v, 0), dword_byte(v, 1), dword_byte(v, 2), dword_byte(v, 3)) == v,
{
    assert((v & 0xFF) as u8 == (v % 256) as u8 && ((v >> 8) & 0xFF) as u8 == ((v / 256) % 256) as u8
        && ((v >> 16) & 0xFF) as u8 == ((v / 65536) % 256) as u8 && ((v >> 24) & 0xFF) as u8 == (v
        / 16777216) as u8 && ((v % 256) as u8) as int + 256 * (((v / 256) % 256) as u8) as int
        + 65536 * (((v / 65536) % 256) as u8) as int + 16777216 * ((v / 16777216) as u8) as int
        == v as int) by (bit_vector);
}

/// The written-byte map after a 16-bit bus write cycle of `value` at `addr`
/// with byte-high-enable `bhe`: A0 and BHE select the bytes of the even word
/// that are driven; the other byte of the word is stored back as it reads.
pub open spec fn bus16_write(m: Map<u32, u8>, uninit: u8, addr: u32, bhe: bool, value: u16) -> Map<
    u32,
    u8,
> {
    let a = bus_word_address(addr);
    let odd = addr % 2 == 1;
    if odd && bhe {
        m.insert(a, byte_at(m, uninit, a)).insert((a + 1) as u32, high_byte(value))
    } else if !odd && bhe {
        m.insert(a, low_byte(value)).insert((a + 1) as u32, high_byte(value))
    } else if !odd && !bhe {
        m.insert(a, low_byte(value)).insert((a + 1) as u32, byte_at(m, uninit, (a + 1) as u32))
    } else {
        m
    }
}

impl HashMemory {
    /// The byte that a read of `addr` returns.
    pub open spec fn byte(&self, addr: u32) -> u8 {
        byte_at(self.memory@, self.uninit_byte, addr)
    }

    /// An empty memory whose unwritten bytes read as zero.
    pub fn new() -> (r: Self)
        ensures
            r.memory@ == Map::<u32, u8>::empty(),
            r.uninit_byte == 0,
    {
        HashMemory { memory: HashMap::new(), uninit_byte: 0 }
    }

    /// The byte at `addr`, or the uninitialized byte if `addr` was never written.
    pub fn read_u8(&self, addr: u32) -> (r: u8)
        ensures
            r == self.byte(addr),
    {
        match self.memory.get(&addr) {
            Some(v) => *v,
            None => self.uninit_byte,
        }
    }

    /// Store `value` at `addr`.
    pub fn write_u8(&mut self, addr: u32, value: u8)
        ensures
            final(self).memory@ == old(self).memory@.insert(addr, value),
            final(self).uninit_byte == old(self).uninit_byte,
    {
        self.memory.insert(addr, value);
    }

    /// Little-endian 16-bit read of `addr` and `addr + 1`.
    pub fn read_u16(&self, addr: u32) -> (r: u16)
        requires
            addr < u32::MAX,
        ensures
            r == word_of(self.byte(addr), self.byte((addr + 1) as u32)),
    {
        let low = self.read_u8(addr);
        let high = self.read_u8(addr + 1);
        proof {
            lemma_word_join(low, high);
        }
        ((high as u16) << 8) | (low as u16)
    }

    /// Little-endian 16-bit write to `addr` and `addr + 1`.
    pub fn write_u16(&mut self, addr: u32, value: u16)
        requires
            addr < u32::MAX,
        ensures
            final(self).memory@ == old(self).memory@.insert(addr, low_byte(value)).insert(
                (addr + 1) as u32,
                high_byte(value),
            ),
            final(self).uninit_byte == old(self).uninit_byte,
    {
        proof {
            lemma_word_bytes(value);
        }
        self.write_u8(addr, (value & 0xFF) as u8);
        self.write_u8(addr + 1, (value >> 8) as u8);
    }

    /// Little-endian 32-bit read of `addr` through `addr + 3`.
    pub fn read_u32(&self, addr: u32) -> (r: u32)
        requires
            addr <= u32::MAX - 3,
        ensures
            r == dword_of(
                self.byte(addr),
                self.byte((addr + 1) as u32),
                self.byte((addr + 2) as u32),
                self.byte((addr + 3) as u32),
            ),
    {
        let b0 = self.read_u8(addr);
        let b1 = self.read_u8(addr + 1);
        let b2 = self.read_u8(addr + 2);
        let b3 = self.read_u8(addr + 3);
        proof {
            lemma_dword_join(b0, b1, b2, b3);
        }
        ((b3 as u32) << 24) | ((b2 as u32) << 16) | ((b1 as u32) << 8) | (b0 as u32)
    }

    /// Little-endian 32-bit write to `addr` through `addr + 3`.
    pub fn write_u32(&mut self, addr: u32, value: u32)
        requires
            addr <= u32::MAX - 3,
        ensures
            final(self).memory@ == old(self).memory@.insert(addr, dword_byte(value, 0)).insert(
                (addr + 1) as u32,
                dword_byte(value, 1),
            ).insert((addr + 2) as u32, dword_byte(value, 2)).insert(
                (addr + 3) as u32,
                dword_byte(value, 3),
            ),
            final(self).uninit_byte == old(self).uninit_byte,
    {
        proof {
            lemma_dword_bytes(value);
        }
        self.write_u8(addr, (value & 0xFF) as u8);
        self.write_u8(addr + 1, ((value >> 8) & 0xFF) as u8);
        self.write_u8(addr + 2, ((value >> 16) & 0xFF) as u8);
        self.write_u8(addr + 3, ((value >> 24) & 0xFF) as u8);
    }

    /// 16-bit bus read: the word at the even address that holds `addr`.
    pub fn read_bus16(&self, addr: u32) -> (r: u16)
        ensures
            r == word_of(
                self.byte(bus_word_address(addr)),
                self.byte((bus_word_address(addr) + 1) as u32),
            ),
    {
        let addr16 = addr & !0x01u32;
        assert(addr & !0x01u32 == (addr - addr % 2) as u32 && addr & !0x01u32 < u32::MAX)
            by (bit_vector);
        let low = self.read_u8(addr16);
        let high = self.read_u8(addr16 + 1);
        proof {
            lemma_word_join(low, high);
        }
        ((high as u16) << 8) | (low as u16)
    }

    /// 16-bit bus write cycle: A0 and BHE select which bytes of the even word
    /// are written; A0 set without BHE is a refresh cycle and writes nothing.
    pub fn write_bus16(&mut self, addr: u32, bhe: bool, value: u16)
        ensures
            final(self).memory@ == bus16_write(
                old(self).memory@,
                old(self).uninit_byte,
                addr,
                bhe,
                value,
            ),
            final(self).uninit_byte == old(self).uninit_byte,
    {
        let a0 = (addr & 0x01) != 0;
        let addr16 = addr & !0x01u32;
        assert(addr & !0x01u32 == (addr - addr % 2) as u32 && addr & !0x01u32 < u32::MAX)
            by (bit_vector);
        assert((addr & 0x01 != 0) == (addr % 2 == 1)) by (bit_vector);
        let mut word = self.read_u16(addr16);
        let ghost w0 = word;
        if a0 && bhe {
            word = (word & 0x00FF) | (value & 0xFF00);
            assert((w0 & 0x00FF) | (value & 0xFF00) == word_of(low_byte(w0), high_byte(value)))
                by (bit_vector);
        } else if !a0 && bhe {
            word = value;
        } else if !a0 && !bhe {
            word = (word & 0xFF00) | (value & 0x00FF);
            assert((w0 & 0xFF00) | (value & 0x00FF) == word_of(low_byte(value), high_byte(w0)))
                by (bit_vector);
        } else {
            return;
        }
        proof {
            lemma_word_join(low_byte(w0), high_byte(value));
            lemma_word_join(low_byte(value), high_byte(w0));
            lemma_word_join(self.byte(addr16), self.byte((addr16 + 1) as u32));
        }
        self.write_u16(addr16, word);
    }

    /// Forget every written byte.
    pub fn clear(&mut self)
        ensures
            final(self).memory@ == Map::<u32, u8>::empty(),
            final(self).uninit_byte == old(self).uninit_byte,
    {
        self.memory.clear();
    }

    /// Set the value that unwritten bytes read as.
    pub fn set_uninit_byte(&mut self, value: u8)
        ensures
            final(self).memory@ == old(self).memory@,
            final(self).uninit_byte == value,
    {
        self.uninit_byte = value;
    }
}

/// A read of an address returns what the last write to it stored; every other
/// address reads as before.
pub proof fn law_read_after_write_u8(m: Map<u32, u8>, uninit: u8, addr: u32, value: u8, other: u32)
    ensures
        byte_at(m.insert(addr, value), uninit, addr) == value,
        other != addr ==> byte_at(m.insert(addr, value), uninit, other) == byte_at(m, uninit, other),
{
}

/// A 16-bit read gives back what a 16-bit write to the same address stored.
pub proof fn law_read_after_write_u16(m: Map<u32, u8>, uninit: u8, addr: u32, value: u16)
    requires
        addr < u32::MAX,
    ensures
        ({
            let m2 = m.insert(addr, low_byte(value)).insert((addr + 1) as u32, high_byte(value));
            word_of(byte_at(m2, uninit, addr), byte_at(m2, uninit, (addr + 1) as u32)) == value
        }),
{
    lemma_word_bytes(value);
}

/// A 32-bit read gives back what a 32-bit write to the same address stored.
pub proof fn law_read_after_write_u32(m: Map<u32, u8>, uninit: u8, addr: u32, value: u32)
    requires
        addr <= u32::MAX - 3,
    ensures
        ({
            let m2 = m.insert(addr, dword_byte(value, 0)).insert(
                (addr + 1) as u32,
                dword_byte(value, 1),
            ).insert((addr + 2) as u32, dword_byte(value, 2)).insert(
                (addr + 3) as u32,
                dword_byte(value, 3),
            );
            dword_of(
                byte_at(m2, uninit, addr),
                byte_at(m2, uninit, (addr + 1) as u32),
                byte_at(m2, uninit, (addr + 2) as u32),
                byte_at(m2, uninit, (addr + 3) as u32),
            ) == value
        }),
{
    lemma_dword_bytes(value);
}

/// The 16-bit bus word read at an address after a bus write with BHE to that
/// address: its high byte is the written high byte; at an even address the
/// low byte is the written low byte too, so the whole word reads back; at an
/// odd address the low byte is left as it was.  Both addresses of a word
/// read the same bus word.
pub proof fn law_bus_readback(m: Map<u32, u8>, uninit: u8, addr: u32, value: u16)
    ensures
        ({
            let a = bus_word_address(addr);
            let m2 = bus16_write(m, uninit, addr, true, value);
            let w = word_of(byte_at(m2, uninit, a), byte_at(m2, uninit, (a + 1) as u32));
            &&& high_byte(w) == high_byte(value)
            &&& addr % 2 == 0 ==> w == value
            &&& addr % 2 == 1 ==> low_byte(w) == byte_at(m, uninit, a)
            &&& bus_word_address((a + 1) as u32) == a
        }),
{
    let a = bus_word_address(addr);
    let m2 = bus16_write(m, uninit, addr, true, value);
    assert(a % 2 == 0 && a < u32::MAX);
    lemma_word_join(byte_at(m2, uninit, a), byte_at(m2, uninit, (a + 1) as u32));
    lemma_word_bytes(value);
}

/// A bus write leaves every byte outside its even-aligned word unchanged.
pub proof fn law_bus_write_frame(m: Map<u32, u8>, uninit: u8, addr: u32, bhe: bool, value: u16, other: u32)
    requires
        bus_word_address(other) != bus_word_address(addr),
    ensures
        byte_at(bus16_write(m, uninit, addr, bhe, value), uninit, other) == byte_at(m, uninit, other),
{
}

} // verus!
