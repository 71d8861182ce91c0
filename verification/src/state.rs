//! Reconstruction of the memory state before and after a test from its bus cycles.

use crate::cpu_common::{BusOp, BusOpType};
use crate::hash_memory::{bus16_write, byte_at, high_byte, low_byte};
use indexmap::IndexMap;
use std::collections::HashSet;
use vstd::prelude::*;

verus! {

broadcast use vstd::std_specs::hash::group_hash_axioms;

/// An insertion-ordered map of the `indexmap` crate.
#[verifier::external_type_specification]
#[verifier::external_body]
#[verifier::reject_recursive_types(K)]
#[verifier::reject_recursive_types(V)]
#[verifier::reject_recursive_types(S)]
pub struct ExIndexMap<K, V, S>(IndexMap<K, V, S>);

/// The (address, byte) entries of a byte map, in insertion order.
pub uninterp spec fn byte_map_entries(m: IndexMap<u32, u8>) -> Seq<(u32, u8)>;

/// Position of the entry for key `k`, or -1 if there is none.
pub open spec fn key_index(s: Seq<(u32, u8)>, k: u32) -> int
    decreases s.len(),
{
    if s.len() == 0 {
        -1
    } else if s[0].0 == k {
        0
    } else {
        let j = key_index(s.drop_first(), k);
        if j < 0 {
            -1
        } else {
            j + 1
        }
    }
}

/// The value stored for key `k`.
pub open spec fn lookup(s: Seq<(u32, u8)>, k: u32) -> Option<u8> {
    let i = key_index(s, k);
    if i >= 0 {
        Some(s[i].1)
    } else {
        None
    }
}

/// Insertion into an insertion-ordered map: an existing key keeps its
/// place and takes the new value; a new key goes last.
pub open spec fn ordered_insert(s: Seq<(u32, u8)>, k: u32, v: u8) -> Seq<(u32, u8)> {
    let i = key_index(s, k);
    if i >= 0 {
        s.update(i, (k, v))
    } else {
        s.push((k, v))
    }
}

/// Insert every pair of `pairs`, in order.
pub open spec fn insert_all(s: Seq<(u32, u8)>, pairs: Seq<(u32, u8)>) -> Seq<(u32, u8)>
    decreases pairs.len(),
{
    if pairs.len() == 0 {
        s
    } else {
        let t = insert_all(s, pairs.drop_last());
        ordered_insert(t, pairs.last().0, pairs.last().1)
    }
}

/// Each key appears at most once.
pub open spec fn keys_unique(s: Seq<(u32, u8)>) -> bool {
    forall|i: int, j: int| 0 <= i < j < s.len() ==> (#[trigger] s[i]).0 != (#[trigger] s[j]).0
}

/// `IndexMap::new`: an empty map.
#[verifier::external_body]
fn byte_map_new() -> (m: IndexMap<u32, u8>)
    ensures
        byte_map_entries(m) == Seq::<(u32, u8)>::empty(),
{
    IndexMap::new()
}

/// `IndexMap::insert`: as its documentation states, an existing key keeps
/// its place in the order and takes the new value, and a new key is
/// inserted last; keys stay unique.
#[verifier::external_body]
fn byte_map_insert(m: &mut IndexMap<u32, u8>, k: u32, v: u8)
    ensures
        byte_map_entries(*final(m)) == ordered_insert(byte_map_entries(*old(m)), k, v),
        keys_unique(byte_map_entries(*old(m))) ==> keys_unique(byte_map_entries(*final(m))),
{
    m.insert(k, v);
}

/// `IndexMap::get`: the value stored for the key, if any.
#[verifier::external_body]
fn byte_map_get(m: &IndexMap<u32, u8>, k: u32) -> (r: Option<u8>)
    ensures
        r == lookup(byte_map_entries(*m), k),
{
    m.get(&k).copied()
}

/// `IndexMap::clone`: a map with the same entries in the same order.
#[verifier::external_body]
fn byte_map_clone(m: &IndexMap<u32, u8>) -> (r: IndexMap<u32, u8>)
    ensures
        byte_map_entries(r) == byte_map_entries(*m),
{
    m.clone()
}

/// `IndexMap::iter`: the entries, in order.
#[verifier::external_body]
fn byte_map_to_vec(m: &IndexMap<u32, u8>) -> (r: Vec<(u32, u8)>)
    ensures
        r@ == byte_map_entries(*m),
{
    m.iter().map(|(k, v)| (*k, *v)).collect()
}

/// The bytes a bus cycle carries, with their addresses: the low data byte
/// at an even address, and the high data byte (at the next address, or at the
/// odd address itself) when BHE is active.
pub open spec fn spec_bus_bytes(op: BusOp) -> Seq<(u32, u8)> {
    if op.addr % 2 == 0 {
        if op.bhe {
            seq![(op.addr, low_byte(op.data)), ((op.addr + 1) as u32, high_byte(op.data))]
        } else {
            seq![(op.addr, low_byte(op.data))]
        }
    } else {
        if op.bhe {
            seq![(op.addr, high_byte(op.data))]
        } else {
            seq![]
        }
    }
}

/// The bytes that a bus cycle transfers, with their addresses.
pub fn bytes_from_bus_op(op: &BusOp) -> (bytes: Vec<(u32, u8)>)
    ensures
        bytes@ == spec_bus_bytes(*op),
{
    let mut bytes: Vec<(u32, u8)> = Vec::new();
    let mut high_offset: u32 = 0;
    let addr = op.addr;
    let data = op.data;
    assert((addr & 1 == 0) == (addr % 2 == 0) && (data & 0xFF) as u8 == (data % 256) as u8 && ((data
        >> 8) & 0xFF) as u8 == (data / 256) as u8) by (bit_vector);
    if op.addr & 1 == 0 {
        bytes.push((op.addr, (op.data & 0xFF) as u8));
        high_offset = 1;
    }
    if op.bhe {
        bytes.push((op.addr + high_offset, ((op.data >> 8) & 0xFF) as u8));
    }
    assert(bytes@ == spec_bus_bytes(*op));
    bytes
}

/// Why the memory state could not be reconstructed from the bus cycles.
#[derive(Copy, Clone, Debug, PartialEq, Eq, Structural)]
pub enum StateError {
    /// A fetch of an instruction byte returned another value than the instruction's byte.
    CodeFetchMismatch { addr: u32, expected: u8, got: u8 },
    /// A memory read returned another value than the initial state holds.
    ReadMismatch { addr: u32, read: u8, stored: u8 },
    /// A memory read from an address that is neither in the initial state nor written.
    ReadUninitialized { addr: u32, read: u8 },
}

/// Data bus width of the CPU that ran the test.
#[derive(Copy, Clone, Debug, PartialEq, Eq, Structural)]
pub enum CpuWidth {
    Eight,
    Sixteen,
}

/// The initial memory state of a test: a byte map in order of first
/// appearance, and the same as (address, value) rows.
pub struct InitialState {
    pub initial_state: IndexMap<u32, u8>,
    pub initial_ram: Vec<[u32; 2]>,
}

/// Number of bytes of the code region: the instruction, padded with NOPs to
/// the prefetch length.
pub open spec fn code_len(instr: Seq<u8>, prefetch_len: nat) -> nat {
    if prefetch_len > instr.len() {
        prefetch_len
    } else {
        instr.len()
    }
}

/// Whether an address lies in the code region that starts at `start`.
pub open spec fn in_code(start: u32, n: nat, a: u32) -> bool {
    start <= a && a < start + n
}

/// The byte at an address of the code region: the instruction byte, or a NOP
/// (0x90) past the end of the instruction.
pub open spec fn code_byte(start: u32, instr: Seq<u8>, a: u32) -> u8 {
    if a - start < instr.len() {
        instr[a - start]
    } else {
        0x90
    }
}

/// The code region as (address, byte) pairs in address order.
pub open spec fn code_pairs(start: u32, instr: Seq<u8>, n: nat) -> Seq<(u32, u8)> {
    Seq::new(n, |k: int| ((start + k) as u32, if k < instr.len() { instr[k] } else { 0x90u8 }))
}

/// The first fetched byte in the code region whose value differs from the
/// code byte there, as an error.
pub open spec fn fetch_error(bytes: Seq<(u32, u8)>, start: u32, instr: Seq<u8>, n: nat) -> Option<StateError>
    decreases bytes.len(),
{
    if bytes.len() == 0 {
        None
    } else {
        match fetch_error(bytes.drop_last(), start, instr, n) {
            Some(e) => Some(e),
            None => {
                let (a, d) = bytes.last();
                if in_code(start, n, a) && code_byte(start, instr, a) != d {
                    Some(StateError::CodeFetchMismatch { addr: a, expected: code_byte(start, instr, a), got: d })
                } else {
                    None
                }
            },
        }
    }
}

/// The fetched bytes that lie outside the code region, in order.
pub open spec fn outside_code(bytes: Seq<(u32, u8)>, start: u32, n: nat) -> Seq<(u32, u8)>
    decreases bytes.len(),
{
    if bytes.len() == 0 {
        Seq::empty()
    } else {
        outside_code(bytes.drop_last(), start, n) + if in_code(start, n, bytes.last().0) {
            Seq::empty()
        } else {
            seq![bytes.last()]
        }
    }
}

/// The addresses of a sequence of (address, byte) pairs.
pub open spec fn pair_addrs(bytes: Seq<(u32, u8)>) -> Set<u32> {
    Set::new(|a: u32| exists|i: int| 0 <= i < bytes.len() && #[trigger] bytes[i].0 == a)
}

/// One step of initial-state reconstruction. A memory read that does not
/// follow a write to its address shows initial memory; a fetch shows initial
/// memory outside the code region and must agree with the code inside it; a
/// write only marks its bytes as written.
pub open spec fn init_step(
    m: Seq<(u32, u8)>,
    w: Set<u32>,
    op: BusOp,
    start: u32,
    instr: Seq<u8>,
    n: nat,
) -> Result<(Seq<(u32, u8)>, Set<u32>), StateError> {
    let bytes = spec_bus_bytes(op);
    if op.op_type == BusOpType::MemRead {
        if w.contains(op.addr) {
            Ok((m, w))
        } else {
            Ok((insert_all(m, bytes), w))
        }
    } else if op.op_type == BusOpType::CodeRead {
        match fetch_error(bytes, start, instr, n) {
            Some(e) => Err(e),
            None => Ok((insert_all(m, outside_code(bytes, start, n)), w)),
        }
    } else if op.op_type == BusOpType::MemWrite {
        Ok((m, w.union(pair_addrs(bytes))))
    } else {
        Ok((m, w))
    }
}

/// Initial-state reconstruction over the first `k` cycles, from the code region's map.
pub open spec fn init_fold(
    ops: Seq<BusOp>,
    k: int,
    start: u32,
    instr: Seq<u8>,
    n: nat,
) -> Result<(Seq<(u32, u8)>, Set<u32>), StateError>
    decreases k,
{
    if k <= 0 {
        Ok((insert_all(Seq::empty(), code_pairs(start, instr, n)), Set::empty()))
    } else {
        match init_fold(ops, k - 1, start, instr, n) {
            Err(e) => Err(e),
            Ok((m, w)) => init_step(m, w, ops[k - 1], start, instr, n),
        }
    }
}

/// Entries as (address, value) rows.
pub open spec fn rows_match(rows: Seq<[u32; 2]>, entries: Seq<(u32, u8)>) -> bool {
    &&& rows.len() == entries.len()
    &&& forall|i: int|
        0 <= i < rows.len() ==> (#[trigger] rows[i])[0] == entries[i].0 && rows[i][1]
            == entries[i].1 as u32
}

/// Insert every pair into the map, in order.
fn insert_pairs(m: &mut IndexMap<u32, u8>, pairs: &Vec<(u32, u8)>)
    ensures
        byte_map_entries(*final(m)) == insert_all(byte_map_entries(*old(m)), pairs@),
        keys_unique(byte_map_entries(*old(m))) ==> keys_unique(byte_map_entries(*final(m))),
{
    let ghost m0 = byte_map_entries(*m);
    let mut i: usize = 0;
    while i < pairs.len()
        invariant
            i <= pairs.len(),
            byte_map_entries(*m) == insert_all(m0, pairs@.take(i as int)),
            keys_unique(m0) ==> keys_unique(byte_map_entries(*m)),
        decreases pairs.len() - i,
    {
        let (a, d) = pairs[i];
        byte_map_insert(m, a, d);
        assert(pairs@.take(i + 1).drop_last() == pairs@.take(i as int));
        i += 1;
    }
    assert(pairs@.take(pairs.len() as int) == pairs@);
}

/// Turn entries into (address, value) rows.
fn entries_to_rows(entries: &Vec<(u32, u8)>) -> (rows: Vec<[u32; 2]>)
    ensures
        rows_match(rows@, entries@),
{
    let mut rows: Vec<[u32; 2]> = Vec::new();
    let mut i: usize = 0;
    while i < entries.len()
        invariant
            i <= entries.len(),
            rows@.len() == i,
            forall|j: int|
                0 <= j < i ==> (#[trigger] rows@[j])[0] == entries@[j].0 && rows@[j][1]
                    == entries@[j].1 as u32,
        decreases entries.len() - i,
    {
        let (a, d) = entries[i];
        rows.push([a, d as u32]);
        i += 1;
    }
    rows
}

/// Reconstruct the initial memory state of a test from its bus cycles.
///
/// The instruction bytes (padded with NOPs up to the prefetch length) at
/// `cs_base + ip` are initial memory; then, in cycle order, every memory read
/// not preceded by a write to its address and every fetch outside the
/// instruction shows initial memory, and a fetch inside the instruction must
/// return the instruction's byte.  Both data bus widths store the code bytes
/// in the same address order.
pub fn initial_state_from_ops(
    cpu_width: CpuWidth,
    cs_base: u32,
    ip: u16,
    instr_bytes: &[u8],
    prefetch_len: usize,
    all_ops: &[BusOp],
) -> (r: Result<InitialState, StateError>)
    requires
        cs_base + ip + code_len(instr_bytes@, prefetch_len as nat) <= u32::MAX,
    ensures
        ({
            let start = (cs_base + ip) as u32;
            let n = code_len(instr_bytes@, prefetch_len as nat);
            match init_fold(all_ops@, all_ops@.len() as int, start, instr_bytes@, n) {
                Err(e) => r == Err::<InitialState, StateError>(e),
                Ok((m, _)) => r matches Ok(st) && byte_map_entries(st.initial_state) == m
                    && rows_match(st.initial_ram@, m),
            }
        }),
{
    let start: u32 = cs_base + ip as u32;
    let n: usize = if prefetch_len > instr_bytes.len() {
        prefetch_len
    } else {
        instr_bytes.len()
    };
    let ghost instr = instr_bytes@;
    let mut initial_state = byte_map_new();
    let mut code: Vec<(u32, u8)> = Vec::new();
    let mut k: usize = 0;
    while k < n
        invariant
            k <= n,
            n == code_len(instr, prefetch_len as nat),
            instr == instr_bytes@,
            start + n <= u32::MAX,
            code@ == code_pairs(start, instr, n as nat).take(k as int),
        decreases n - k,
    {
        let d: u8 = if k < instr_bytes.len() {
            instr_bytes[k]
        } else {
            0x90
        };
        code.push((start + k as u32, d));
        k += 1;
        assert(code@ == code_pairs(start, instr, n as nat).take(k as int));
    }
    assert(code@ == code_pairs(start, instr, n as nat));
    insert_pairs(&mut initial_state, &code);
    let mut written: HashSet<u32> = HashSet::new();
    let mut i: usize = 0;
    while i < all_ops.len()
        invariant
            i <= all_ops.len(),
            n == code_len(instr, prefetch_len as nat),
            instr == instr_bytes@,
            start + n <= u32::MAX,
            start == cs_base + ip,
            init_fold(all_ops@, i as int, start, instr, n as nat) == Ok::<(Seq<(u32, u8)>, Set<u32>), StateError>((byte_map_entries(initial_state), written@)),
        decreases all_ops.len() - i,
    {
        let op = all_ops[i];
        let bytes = bytes_from_bus_op(&op);
        match op.op_type {
            BusOpType::MemRead => {
                if !written.contains(&op.addr) {
                    insert_pairs(&mut initial_state, &bytes);
                }
            },
            BusOpType::CodeRead => {
                let mut j: usize = 0;
                while j < bytes.len()
                    invariant
                        j <= bytes.len(),
                        start + n <= u32::MAX,
                        instr == instr_bytes@,
                        n == code_len(instr, prefetch_len as nat),
                        i < all_ops.len(),
                        start == cs_base + ip,
                        op == all_ops@[i as int],
                        op.op_type == BusOpType::CodeRead,
                        bytes@ == spec_bus_bytes(op),
                        fetch_error(bytes@.take(j as int), start, instr, n as nat) is None,
                        init_fold(all_ops@, i as int, start, instr, n as nat) is Ok,
                        byte_map_entries(initial_state) == insert_all(
                            init_fold(all_ops@, i as int, start, instr, n as nat)->Ok_0.0,
                            outside_code(bytes@.take(j as int), start, n as nat),
                        ),
                    decreases bytes.len() - j,
                {
                    let (a, d) = bytes[j];
                    assert(bytes@.take(j + 1).drop_last() == bytes@.take(j as int));
                    if a >= start && a - start < n as u32 {
                        let expected: u8 = if ((a - start) as usize) < instr_bytes.len() {
                            instr_bytes[(a - start) as usize]
                        } else {
                            0x90
                        };
                        if expected != d {
                            let e = StateError::CodeFetchMismatch { addr: a, expected, got: d };
                            proof {
                                assert(bytes@.take(j + 1).last() == bytes@[j as int]);
                                assert(in_code(start, n as nat, a));
                                assert(code_byte(start, instr, a) == expected);
                                assert(fetch_error(bytes@.take(j + 1), start, instr, n as nat) == Some(e));
                                lemma_fetch_error_prefix(bytes@, j as int + 1, start, instr, n as nat);
                                assert(init_fold(all_ops@, i + 1, start, instr, n as nat) == Err::<(Seq<(u32, u8)>, Set<u32>), StateError>(e));
                                lemma_init_fold_err(all_ops@, i + 1, all_ops@.len() as int, start, instr, n as nat);
                            }
                            return Err(e);
                        }
                    } else {
                        byte_map_insert(&mut initial_state, a, d);
                        proof {
                            let oc = outside_code(bytes@.take(j as int), start, n as nat);
                            assert(bytes@.take(j + 1).last() == bytes@[j as int]);
                            assert(outside_code(bytes@.take(j + 1), start, n as nat) == oc.push((a, d)));
                            assert(oc.push((a, d)).drop_last() == oc);
                        }
                    }
                    j += 1;
                }
                assert(bytes@.take(bytes.len() as int) == bytes@);
            },
            BusOpType::MemWrite => {
                let ghost w0 = written@;
                let mut j: usize = 0;
                while j < bytes.len()
                    invariant
                        j <= bytes.len(),
                        written@ == w0.union(pair_addrs(bytes@.take(j as int))),
                    decreases bytes.len() - j,
                {
                    written.insert(bytes[j].0);
                    assert(pair_addrs(bytes@.take(j + 1)) =~= pair_addrs(bytes@.take(j as int)).insert(bytes@[j as int].0)) by {
                        assert forall|a: u32| pair_addrs(bytes@.take(j + 1)).contains(a) implies pair_addrs(bytes@.take(j as int)).insert(bytes@[j as int].0).contains(a) by {
                            let t = choose|t: int| 0 <= t < j + 1 && #[trigger] bytes@.take(j + 1)[t].0 == a;
                            if t < j {
                                assert(bytes@.take(j as int)[t].0 == a);
                            }
                        }
                        assert forall|a: u32| pair_addrs(bytes@.take(j as int)).insert(bytes@[j as int].0).contains(a) implies pair_addrs(bytes@.take(j + 1)).contains(a) by {
                            if a == bytes@[j as int].0 {
                                assert(bytes@.take(j + 1)[j as int].0 == a);
                            } else {
                                let t = choose|t: int| 0 <= t < j && #[trigger] bytes@.take(j as int)[t].0 == a;
                                assert(bytes@.take(j + 1)[t].0 == a);
                            }
                        }
                    }
                    j += 1;
                }
                assert(bytes@.take(bytes.len() as int) == bytes@);
                assert(written@ =~= w0.union(pair_addrs(bytes@)));
            },
            _ => {},
        }
        i += 1;
    }
    let entries = byte_map_to_vec(&initial_state);
    let initial_ram = entries_to_rows(&entries);
    Ok(InitialState { initial_state, initial_ram })
}

/// The first byte of a read whose value disagrees with the initial state,
/// or that is neither in the initial state nor at an address written
/// before, as an error.
pub open spec fn read_error(bytes: Seq<(u32, u8)>, initial: Seq<(u32, u8)>, w: Set<u32>) -> Option<StateError>
    decreases bytes.len(),
{
    if bytes.len() == 0 {
        None
    } else {
        match read_error(bytes.drop_last(), initial, w) {
            Some(e) => Some(e),
            None => {
                let (a, d) = bytes.last();
                match lookup(initial, a) {
                    Some(v) => if v != d {
                        Some(StateError::ReadMismatch { addr: a, read: d, stored: v })
                    } else {
                        None
                    },
                    None => if w.contains(a) {
                        None
                    } else {
                        Some(StateError::ReadUninitialized { addr: a, read: d })
                    },
                }
            },
        }
    }
}

/// One step of final-state reconstruction: a read must agree with the
/// initial state (or read an address written before); a write stores its
/// bytes and marks its address written; I/O and fetches change nothing.
pub open spec fn final_step(m: Seq<(u32, u8)>, w: Set<u32>, op: BusOp, initial: Seq<(u32, u8)>) -> Result<(Seq<(u32, u8)>, Set<u32>), StateError> {
    let bytes = spec_bus_bytes(op);
    if op.op_type == BusOpType::MemRead {
        match read_error(bytes, initial, w) {
            Some(e) => Err(e),
            None => Ok((m, w)),
        }
    } else if op.op_type == BusOpType::MemWrite {
        Ok((insert_all(m, bytes), w.insert(op.addr)))
    } else {
        Ok((m, w))
    }
}

/// Final-state reconstruction over the first `k` cycles, from the initial state.
pub open spec fn final_fold(ops: Seq<BusOp>, k: int, initial: Seq<(u32, u8)>) -> Result<(Seq<(u32, u8)>, Set<u32>), StateError>
    decreases k,
{
    if k <= 0 {
        Ok((initial, Set::empty()))
    } else {
        match final_fold(ops, k - 1, initial) {
            Err(e) => Err(e),
            Ok((m, w)) => final_step(m, w, ops[k - 1], initial),
        }
    }
}

/// The entries whose value differs from (or is absent in) the initial state.
pub open spec fn changed_entries(entries: Seq<(u32, u8)>, initial: Seq<(u32, u8)>) -> Seq<(u32, u8)>
    decreases entries.len(),
{
    if entries.len() == 0 {
        Seq::empty()
    } else {
        changed_entries(entries.drop_last(), initial) + if lookup(initial, entries.last().0) == Some(
            entries.last().1,
        ) {
            Seq::empty()
        } else {
            seq![entries.last()]
        }
    }
}

proof fn lemma_final_fold_err(ops: Seq<BusOp>, j: int, k: int, initial: Seq<(u32, u8)>)
    requires
        0 <= j <= k,
        final_fold(ops, j, initial) is Err,
    ensures
        final_fold(ops, k, initial) == final_fold(ops, j, initial),
    decreases k - j,
{
    if j < k {
        lemma_final_fold_err(ops, j, k - 1, initial);
    }
}

proof fn lemma_read_error_prefix(bytes: Seq<(u32, u8)>, j: int, initial: Seq<(u32, u8)>, w: Set<u32>)
    requires
        0 <= j <= bytes.len(),
        read_error(bytes.take(j), initial, w) is Some,
    ensures
        read_error(bytes, initial, w) == read_error(bytes.take(j), initial, w),
    decreases bytes.len() - j,
{
    if j < bytes.len() {
        assert(bytes.take(j + 1).drop_last() == bytes.take(j));
        lemma_read_error_prefix(bytes, j + 1, initial, w);
    } else {
        assert(bytes.take(j) == bytes);
    }
}

/// The final memory rows of a test: the initial state with every memory
/// write applied in cycle order, keeping only the bytes that differ from (or
/// are absent in) the initial state.  Fails if a memory read disagrees with
/// the initial state, or reads an address that is neither in the initial
/// state nor written before.
pub fn final_state_from_ops(initial_state: IndexMap<u32, u8>, all_ops: &[BusOp]) -> (r: Result<Vec<[u32; 2]>, StateError>)
    ensures
        ({
            let initial = byte_map_entries(initial_state);
            match final_fold(all_ops@, all_ops@.len() as int, initial) {
                Err(e) => r == Err::<Vec<[u32; 2]>, StateError>(e),
                Ok((m, _)) => r matches Ok(rows) && rows_match(rows@, changed_entries(m, initial)),
            }
        }),
{
    let ghost initial = byte_map_entries(initial_state);
    let mut final_state = byte_map_clone(&initial_state);
    let mut written: HashSet<u32> = HashSet::new();
    let mut i: usize = 0;
    while i < all_ops.len()
        invariant
            i <= all_ops.len(),
            initial == byte_map_entries(initial_state),
            final_fold(all_ops@, i as int, initial) == Ok::<(Seq<(u32, u8)>, Set<u32>), StateError>((byte_map_entries(final_state), written@)),
        decreases all_ops.len() - i,
    {
        let op = all_ops[i];
        let bytes = bytes_from_bus_op(&op);
        match op.op_type {
            BusOpType::MemRead => {
                let mut j: usize = 0;
                while j < bytes.len()
                    invariant
                        j <= bytes.len(),
                        i < all_ops.len(),
                        initial == byte_map_entries(initial_state),
                        op == all_ops@[i as int],
                        op.op_type == BusOpType::MemRead,
                        bytes@ == spec_bus_bytes(op),
                        final_fold(all_ops@, i as int, initial) == Ok::<(Seq<(u32, u8)>, Set<u32>), StateError>((byte_map_entries(final_state), written@)),
                        read_error(bytes@.take(j as int), initial, written@) is None,
                    decreases bytes.len() - j,
                {
                    let (a, d) = bytes[j];
                    assert(bytes@.take(j + 1).drop_last() == bytes@.take(j as int));
                    assert(bytes@.take(j + 1).last() == bytes@[j as int]);
                    let err = match byte_map_get(&initial_state, a) {
                        Some(v) => if v != d {
                            Some(StateError::ReadMismatch { addr: a, read: d, stored: v })
                        } else {
                            None
                        },
                        None => if written.contains(&a) {
                            None
                        } else {
                            Some(StateError::ReadUninitialized { addr: a, read: d })
                        },
                    };
                    match err {
                        Some(e) => {
                            proof {
                                assert(read_error(bytes@.take(j + 1), initial, written@) == Some(e));
                                lemma_read_error_prefix(bytes@, j as int + 1, initial, written@);
                                lemma_final_fold_err(all_ops@, i as int + 1, all_ops@.len() as int, initial);
                            }
                            return Err(e);
                        },
                        None => {},
                    }
                    j += 1;
                }
                assert(bytes@.take(bytes.len() as int) == bytes@);
            },
            BusOpType::MemWrite => {
                written.insert(op.addr);
                insert_pairs(&mut final_state, &bytes);
            },
            _ => {},
        }
        i += 1;
    }
    let entries = byte_map_to_vec(&final_state);
    let mut kept: Vec<(u32, u8)> = Vec::new();
    let mut k: usize = 0;
    while k < entries.len()
        invariant
            k <= entries.len(),
            initial == byte_map_entries(initial_state),
            kept@ == changed_entries(entries@.take(k as int), initial),
        decreases entries.len() - k,
    {
        let (a, d) = entries[k];
        assert(entries@.take(k + 1).drop_last() == entries@.take(k as int));
        assert(entries@.take(k + 1).last() == entries@[k as int]);
        let keep = match byte_map_get(&initial_state, a) {
            Some(v) => v != d,
            None => true,
        };
        if keep {
            kept.push((a, d));
        }
        k += 1;
    }
    assert(entries@.take(entries.len() as int) == entries@);
    Ok(entries_to_rows(&kept))
}

/// Once reconstruction fails it stays failed with the same error.
proof fn lemma_init_fold_err(ops: Seq<BusOp>, j: int, k: int, start: u32, instr: Seq<u8>, n: nat)
    requires
        0 <= j <= k,
        init_fold(ops, j, start, instr, n) is Err,
    ensures
        init_fold(ops, k, start, instr, n) == init_fold(ops, j, start, instr, n),
    decreases k - j,
{
    if j < k {
        lemma_init_fold_err(ops, j, k - 1, start, instr, n);
    }
}

/// A fetch error found in a prefix is the fetch error of the whole sequence.
proof fn lemma_fetch_error_prefix(bytes: Seq<(u32, u8)>, j: int, start: u32, instr: Seq<u8>, n: nat)
    requires
        0 <= j <= bytes.len(),
        fetch_error(bytes.take(j), start, instr, n) is Some,
    ensures
        fetch_error(bytes, start, instr, n) == fetch_error(bytes.take(j), start, instr, n),
    decreases bytes.len() - j,
{
    if j < bytes.len() {
        assert(bytes.take(j + 1).drop_last() == bytes.take(j));
        lemma_fetch_error_prefix(bytes, j + 1, start, instr, n);
    } else {
        assert(bytes.take(j) == bytes);
    }
}

/// Replaying a bus cycle into memory stores exactly the bytes that the cycle
/// transfers: each (address, byte) pair it transfers reads back after the
/// write.
pub proof fn law_bus_bytes_match_bus_write(m: Map<u32, u8>, uninit: u8, op: BusOp, k: int)
    requires
        0 <= k < spec_bus_bytes(op).len(),
    ensures
        byte_at(
            bus16_write(m, uninit, op.addr, op.bhe, op.data),
            uninit,
            spec_bus_bytes(op)[k].0,
        ) == spec_bus_bytes(op)[k].1,
{
}

/// Where `key_index` points, and that it finds nothing only when no entry has
/// the key.
proof fn lemma_key_index(s: Seq<(u32, u8)>, k: u32)
    ensures
        key_index(s, k) >= 0 ==> key_index(s, k) < s.len() && s[key_index(s, k)].0 == k,
        key_index(s, k) < 0 ==> key_index(s, k) == -1 && forall|j: int| 0 <= j < s.len() ==> (#[trigger] s[j]).0 != k,
    decreases s.len(),
{
    if s.len() > 0 && s[0].0 != k {
        lemma_key_index(s.drop_first(), k);
        if key_index(s, k) < 0 {
            assert forall|j: int| 0 <= j < s.len() implies (#[trigger] s[j]).0 != k by {
                if j > 0 {
                    assert(s[j] == s.drop_first()[j - 1]);
                }
            }
        }
    }
}

/// `key_index` depends on the keys alone.
proof fn lemma_key_index_same_keys(s: Seq<(u32, u8)>, t: Seq<(u32, u8)>, k: u32)
    requires
        s.len() == t.len(),
        forall|j: int| 0 <= j < s.len() ==> (#[trigger] s[j]).0 == t[j].0,
    ensures
        key_index(s, k) == key_index(t, k),
    decreases s.len(),
{
    if s.len() > 0 {
        assert(s[0].0 == t[0].0);
        assert forall|j: int| 0 <= j < s.drop_first().len() implies (#[trigger] s.drop_first()[j]).0
            == t.drop_first()[j].0 by {
            assert(s[j + 1].0 == t[j + 1].0);
        }
        lemma_key_index_same_keys(s.drop_first(), t.drop_first(), k);
    }
}

/// Appending an entry keeps the index of every key already present.
proof fn lemma_key_index_push(s: Seq<(u32, u8)>, e: (u32, u8), k: u32)
    ensures
        key_index(s, k) >= 0 ==> key_index(s.push(e), k) == key_index(s, k),
        key_index(s, k) < 0 && e.0 == k ==> key_index(s.push(e), k) == s.len(),
        key_index(s, k) < 0 && e.0 != k ==> key_index(s.push(e), k) < 0,
    decreases s.len(),
{
    if s.len() > 0 {
        assert(s.push(e)[0] == s[0]);
        assert(s.push(e).drop_first() == s.drop_first().push(e));
        lemma_key_index_push(s.drop_first(), e, k);
    } else {
        assert(s.push(e)[0] == e);
        assert(s.push(e).drop_first() =~= Seq::<(u32, u8)>::empty());
        assert(key_index(s.push(e).drop_first(), k) == -1);
    }
}

/// After inserting a key, looking it up gives the inserted value; other
/// keys look up as before.
proof fn lemma_lookup_ordered_insert(s: Seq<(u32, u8)>, k: u32, v: u8, a: u32)
    ensures
        lookup(ordered_insert(s, k, v), a) == if a == k {
            Some(v)
        } else {
            lookup(s, a)
        },
{
    let i = key_index(s, k);
    lemma_key_index(s, k);
    lemma_key_index(s, a);
    let t = ordered_insert(s, k, v);
    if i >= 0 {
        assert forall|j: int| 0 <= j < s.len() implies (#[trigger] s[j]).0 == t[j].0 by {}
        lemma_key_index_same_keys(s, t, a);
        if a != k && key_index(s, a) >= 0 {
            assert(key_index(s, a) != i);
        }
    } else {
        lemma_key_index_push(s, (k, v), a);
    }
}

/// Inserting pairs keeps every key present.
proof fn lemma_insert_all_keeps_keys(s: Seq<(u32, u8)>, p: Seq<(u32, u8)>, a: u32)
    requires
        lookup(s, a) is Some,
    ensures
        lookup(insert_all(s, p), a) is Some,
    decreases p.len(),
{
    if p.len() > 0 {
        lemma_insert_all_keeps_keys(s, p.drop_last(), a);
        lemma_lookup_ordered_insert(insert_all(s, p.drop_last()), p.last().0, p.last().1, a);
    }
}

/// Inserting the bytes fetched outside the code region, where the fetch
/// carries each address once, leaves each such byte looked up with its value.
proof fn lemma_lookup_outside_code(m: Seq<(u32, u8)>, bytes: Seq<(u32, u8)>, start: u32, n: nat, j: int)
    requires
        0 <= j < bytes.len(),
        !in_code(start, n, bytes[j].0),
        forall|x: int, y: int| 0 <= x < y < bytes.len() ==> (#[trigger] bytes[x]).0 != (#[trigger] bytes[y]).0,
    ensures
        lookup(insert_all(m, outside_code(bytes, start, n)), bytes[j].0) == Some(bytes[j].1),
    decreases bytes.len(),
{
    let q = bytes.drop_last();
    let oq = outside_code(q, start, n);
    let last = bytes.last();
    let a = bytes[j].0;
    if in_code(start, n, last.0) {
        assert(outside_code(bytes, start, n) =~= oq);
        if j == bytes.len() - 1 {
            assert(false);
        }
        assert(q[j] == bytes[j]);
        assert forall|x: int, y: int| 0 <= x < y < q.len() implies (#[trigger] q[x]).0 != (#[trigger] q[y]).0 by {
            assert(bytes[x].0 != bytes[y].0);
        }
        lemma_lookup_outside_code(m, q, start, n, j);
    } else {
        assert(outside_code(bytes, start, n) =~= oq.push(last));
        assert(oq.push(last).drop_last() == oq);
        lemma_lookup_ordered_insert(insert_all(m, oq), last.0, last.1, a);
        if j < bytes.len() - 1 {
            assert(bytes[j].0 != bytes[bytes.len() - 1].0);
            assert(q[j] == bytes[j]);
            assert forall|x: int, y: int| 0 <= x < y < q.len() implies (#[trigger] q[x]).0 != (#[trigger] q[y]).0 by {
                assert(bytes[x].0 != bytes[y].0);
            }
            lemma_lookup_outside_code(m, q, start, n, j);
        }
    }
}

/// A cycle carries each address at most once.
proof fn lemma_bus_bytes_distinct(op: BusOp)
    ensures
        forall|x: int, y: int|
            0 <= x < y < spec_bus_bytes(op).len() ==> (#[trigger] spec_bus_bytes(op)[x]).0 != (
            #[trigger] spec_bus_bytes(op)[y]).0,
{
}

/// A fetch shows initial memory outside the code region: right after a code
/// fetch cycle, each byte it fetched from outside the instruction's code
/// region stands in the initial state with the fetched value.
pub proof fn law_fetch_outside_code_is_initial(
    ops: Seq<BusOp>,
    k: int,
    start: u32,
    instr: Seq<u8>,
    n: nat,
    j: int,
)
    requires
        0 <= k < ops.len(),
        ops[k].op_type == BusOpType::CodeRead,
        init_fold(ops, k + 1, start, instr, n) is Ok,
        0 <= j < spec_bus_bytes(ops[k]).len(),
        !in_code(start, n, spec_bus_bytes(ops[k])[j].0),
    ensures
        lookup(init_fold(ops, k + 1, start, instr, n)->Ok_0.0, spec_bus_bytes(ops[k])[j].0) == Some(
            spec_bus_bytes(ops[k])[j].1,
        ),
{
    let prev = init_fold(ops, k, start, instr, n);
    if prev is Err {
        lemma_init_fold_err(ops, k, k + 1, start, instr, n);
    }
    lemma_bus_bytes_distinct(ops[k]);
    lemma_lookup_outside_code(prev->Ok_0.0, spec_bus_bytes(ops[k]), start, n, j);
}

/// An address in the initial state stays there through the rest of the run.
proof fn lemma_init_fold_keeps_keys(ops: Seq<BusOp>, k: int, k2: int, start: u32, instr: Seq<u8>, n: nat, a: u32)
    requires
        0 <= k <= k2 <= ops.len(),
        init_fold(ops, k2, start, instr, n) is Ok,
        init_fold(ops, k, start, instr, n) is Ok,
        lookup(init_fold(ops, k, start, instr, n)->Ok_0.0, a) is Some,
    ensures
        lookup(init_fold(ops, k2, start, instr, n)->Ok_0.0, a) is Some,
    decreases k2 - k,
{
    if k < k2 {
        let p = init_fold(ops, k2 - 1, start, instr, n);
        if p is Err {
            lemma_init_fold_err(ops, k2 - 1, k2, start, instr, n);
        }
        lemma_init_fold_keeps_keys(ops, k, k2 - 1, start, instr, n, a);
        let m = p->Ok_0.0;
        let op = ops[k2 - 1];
        lemma_insert_all_keeps_keys(m, spec_bus_bytes(op), a);
        lemma_insert_all_keeps_keys(m, outside_code(spec_bus_bytes(op), start, n), a);
    }
}

/// Every byte a run fetched from outside the instruction's code region is
/// part of the reconstructed initial state: its address is a key of the
/// initial state at the end of a successful reconstruction.
pub proof fn law_fetched_outside_code_in_initial_state(
    ops: Seq<BusOp>,
    k: int,
    start: u32,
    instr: Seq<u8>,
    n: nat,
    j: int,
)
    requires
        0 <= k < ops.len(),
        ops[k].op_type == BusOpType::CodeRead,
        init_fold(ops, ops.len() as int, start, instr, n) is Ok,
        0 <= j < spec_bus_bytes(ops[k]).len(),
        !in_code(start, n, spec_bus_bytes(ops[k])[j].0),
    ensures
        lookup(init_fold(ops, ops.len() as int, start, instr, n)->Ok_0.0, spec_bus_bytes(ops[k])[j].0) is Some,
{
    if init_fold(ops, k + 1, start, instr, n) is Err {
        lemma_init_fold_err(ops, k + 1, ops.len() as int, start, instr, n);
    }
    law_fetch_outside_code_is_initial(ops, k, start, instr, n, j);
    lemma_init_fold_keeps_keys(ops, k + 1, ops.len() as int, start, instr, n, spec_bus_bytes(ops[k])[j].0);
}

} // verus!
