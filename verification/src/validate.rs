//! Re-running stored tests on the hardware: the memory writes that restore
//! a test's initial memory, and the comparison of the memory a run left
//! with the stored final state.

use vstd::prelude::*;

verus! {

/// One byte of a test's memory state.
#[derive(Copy, Clone, Debug, PartialEq, Eq, Structural)]
pub struct MooRamEntry {
    pub address: u32,
    pub value: u8,
}

/// The grouping of the first `k` entries into spans of consecutive
/// addresses: the finished spans, the start and bytes of the open span, and
/// the address of the last entry (0 before any). An entry whose address
/// follows the last address extends the open span; any other entry closes
/// the open span (if it has bytes) and opens one at its own address.
pub open spec fn span_scan(entries: Seq<MooRamEntry>, k: int) -> (Seq<(u32, Seq<u8>)>, u32, Seq<u8>, u32)
    decreases k,
{
    if k <= 0 {
        (Seq::empty(), 0, Seq::empty(), 0)
    } else {
        let (spans, start, cur, last) = span_scan(entries, k - 1);
        let e = entries[k - 1];
        if e.address == last + 1 {
            (spans, start, cur.push(e.value), e.address)
        } else if cur.len() > 0 {
            (spans.push((start, cur)), e.address, seq![e.value], e.address)
        } else {
            (spans, e.address, seq![e.value], e.address)
        }
    }
}

/// The memory spans that restore a test's initial memory.
pub open spec fn spec_memory_spans(entries: Seq<MooRamEntry>) -> Seq<(u32, Seq<u8>)> {
    let (spans, start, cur, _) = span_scan(entries, entries.len() as int);
    if cur.len() > 0 {
        spans.push((start, cur))
    } else {
        spans
    }
}

/// The bytes of a list of spans, one after another.
pub open spec fn span_bytes(spans: Seq<(u32, Seq<u8>)>) -> Seq<u8>
    decreases spans.len(),
{
    if spans.len() == 0 {
        Seq::empty()
    } else {
        span_bytes(spans.drop_last()) + spans.last().1
    }
}

/// The values of a list of entries.
pub open spec fn entry_values(entries: Seq<MooRamEntry>) -> Seq<u8> {
    entries.map_values(|e: MooRamEntry| e.value)
}

/// No address but possibly the last one is the top address (so that the
/// address after it exists).
pub open spec fn addresses_have_successor(entries: Seq<MooRamEntry>) -> bool {
    forall|i: int| 0 <= i < entries.len() - 1 ==> #[trigger] entries[i].address < u32::MAX
}

/// Group the entries of a test's initial memory into spans of consecutive
/// addresses, each written to the hardware in one transfer.
pub fn memory_spans(initial_mem: &[MooRamEntry]) -> (r: Vec<(u32, Vec<u8>)>)
    requires
        addresses_have_successor(initial_mem@),
    ensures
        r@.len() == spec_memory_spans(initial_mem@).len(),
        forall|i: int|
            0 <= i < r@.len() ==> (#[trigger] r@[i]).0 == spec_memory_spans(initial_mem@)[i].0
                && r@[i].1@ == spec_memory_spans(initial_mem@)[i].1,
{
    let mut mem_vec: Vec<(u32, Vec<u8>)> = Vec::new();
    let mut last_mem_address: u32 = 0;
    let mut consecutive_start_address: u32 = 0;
    let mut consecutive_bytes: Vec<u8> = Vec::new();
    let mut i: usize = 0;
    while i < initial_mem.len()
        invariant
            i <= initial_mem@.len(),
            addresses_have_successor(initial_mem@),
            i > 0 ==> last_mem_address == initial_mem@[i - 1].address,
            ({
                let (spans, start, cur, last) = span_scan(initial_mem@, i as int);
                &&& mem_vec@.len() == spans.len()
                &&& forall|j: int|
                    0 <= j < mem_vec@.len() ==> (#[trigger] mem_vec@[j]).0 == spans[j].0
                        && mem_vec@[j].1@ == spans[j].1
                &&& consecutive_start_address == start
                &&& consecutive_bytes@ == cur
                &&& last_mem_address == last
            }),
        decreases initial_mem.len() - i,
    {
        let entry = initial_mem[i];
        if entry.address == last_mem_address + 1 {
            consecutive_bytes.push(entry.value);
        } else {
            if consecutive_bytes.len() > 0 {
                let bytes = consecutive_bytes;
                mem_vec.push((consecutive_start_address, bytes));
                consecutive_bytes = Vec::new();
            }
            consecutive_start_address = entry.address;
            consecutive_bytes.push(entry.value);
        }
        last_mem_address = entry.address;
        i += 1;
    }
    if consecutive_bytes.len() > 0 {
        mem_vec.push((consecutive_start_address, consecutive_bytes));
    }
    mem_vec
}

proof fn lemma_span_scan_bytes(entries: Seq<MooRamEntry>, k: int)
    requires
        0 <= k <= entries.len(),
    ensures
        ({
            let (spans, _, cur, _) = span_scan(entries, k);
            span_bytes(spans) + cur == entry_values(entries.take(k))
        }),
    decreases k,
{
    if k > 0 {
        lemma_span_scan_bytes(entries, k - 1);
        let (spans0, start0, cur0, last0) = span_scan(entries, k - 1);
        let e = entries[k - 1];
        assert(entry_values(entries.take(k)) =~= entry_values(entries.take(k - 1)).push(e.value));
        if e.address == last0 + 1 {
            assert(span_bytes(spans0) + cur0.push(e.value) =~= (span_bytes(spans0) + cur0).push(e.value));
        } else if cur0.len() > 0 {
            let spans1 = spans0.push((start0, cur0));
            assert(spans1.drop_last() == spans0);
            assert(span_bytes(spans1) + seq![e.value] =~= (span_bytes(spans0) + cur0).push(e.value));
        } else {
            assert(span_bytes(spans0) + seq![e.value] =~= (span_bytes(spans0) + cur0).push(e.value));
        }
    } else {
        assert(entry_values(entries.take(0)) =~= Seq::<u8>::empty());
    }
}

/// Restoring memory from the spans writes every entry's value, in order:
/// the spans' bytes, one after another, are the entries' values.
pub proof fn law_spans_cover_entries(entries: Seq<MooRamEntry>)
    ensures
        span_bytes(spec_memory_spans(entries)) == entry_values(entries),
{
    lemma_span_scan_bytes(entries, entries.len() as int);
    let (spans, start, cur, _) = span_scan(entries, entries.len() as int);
    assert(entries.take(entries.len() as int) == entries);
    if cur.len() > 0 {
        assert(spans.push((start, cur)).drop_last() == spans);
    } else {
        assert(span_bytes(spans) + cur =~= span_bytes(spans));
    }
}

/// Why the memory a run left differs from the stored final state.
#[derive(Copy, Clone, Debug, PartialEq, Eq, Structural)]
pub enum RamMismatch {
    /// The two states have different numbers of entries.
    Count { expected: usize, got: usize },
    /// The entries at this position differ.
    Entry { index: usize, expected: MooRamEntry, got: MooRamEntry },
}

/// The first position at which two entry lists of equal length differ.
pub open spec fn first_difference(expected: Seq<MooRamEntry>, got: Seq<MooRamEntry>, i: int) -> bool {
    &&& 0 <= i < expected.len()
    &&& expected[i] != got[i]
    &&& forall|j: int| 0 <= j < i ==> expected[j] == got[j]
}

/// Compare the final memory of a re-run with the stored final memory: the
/// counts must agree, then the entries position by position.
pub fn compare_final_ram(expected: &[MooRamEntry], got: &[MooRamEntry]) -> (r: Result<(), RamMismatch>)
    ensures
        expected@.len() != got@.len() ==> r == Err::<(), RamMismatch>(
            RamMismatch::Count { expected: expected@.len() as usize, got: got@.len() as usize },
        ),
        expected@.len() == got@.len() && expected@ == got@ ==> r is Ok,
        expected@.len() == got@.len() && expected@ != got@ ==> (r matches Err(
            RamMismatch::Entry { index, expected: e, got: g },
        ) && first_difference(expected@, got@, index as int) && e == expected@[index as int] && g
            == got@[index as int]),
{
    if expected.len() != got.len() {
        return Err(RamMismatch::Count { expected: expected.len(), got: got.len() });
    }
    let mut i: usize = 0;
    while i < expected.len()
        invariant
            i <= expected@.len(),
            expected@.len() == got@.len(),
            forall|j: int| 0 <= j < i ==> expected@[j] == got@[j],
        decreases expected.len() - i,
    {
        let e = expected[i];
        let g = got[i];
        if e.address != g.address || e.value != g.value {
            return Err(RamMismatch::Entry { index: i, expected: e, got: g });
        }
        i += 1;
    }
    assert(expected@ =~= got@);
    Ok(())
}


/// The outcome of one attempt to reproduce a stored test.
#[derive(Copy, Clone, Debug, PartialEq, Eq, Structural)]
pub enum AttemptOutcome {
    Passed,
    Failed,
}

/// What to do after an attempt to reproduce a stored test.
#[derive(Copy, Clone, Debug, PartialEq, Eq, Structural)]
pub enum ValidationAction {
    /// The test is reproduced: go on with the next test.
    NextTest,
    /// Try the same test again.
    Retry,
    /// Give up on the file and go on with the next file.
    SkipFile,
    /// Stop validating.
    Abort,
}

/// What to do after `attempts_made` attempts at a test, the last with the
/// given outcome: a pass moves on; a failure is retried while attempts are
/// left, and then stops validation or skips the file.
pub open spec fn spec_validation_step(attempts_made: u32, max_attempts: u32, outcome: AttemptOutcome, stop_on_error: bool) -> ValidationAction {
    if outcome == AttemptOutcome::Passed {
        ValidationAction::NextTest
    } else if attempts_made < max_attempts {
        ValidationAction::Retry
    } else if stop_on_error {
        ValidationAction::Abort
    } else {
        ValidationAction::SkipFile
    }
}

/// Decide what follows an attempt to reproduce a stored test.
pub fn validation_step(attempts_made: u32, max_attempts: u32, outcome: AttemptOutcome, stop_on_error: bool) -> (r: ValidationAction)
    ensures
        r == spec_validation_step(attempts_made, max_attempts, outcome, stop_on_error),
{
    match outcome {
        AttemptOutcome::Passed => ValidationAction::NextTest,
        AttemptOutcome::Failed => if attempts_made < max_attempts {
            ValidationAction::Retry
        } else if stop_on_error {
            ValidationAction::Abort
        } else {
            ValidationAction::SkipFile
        },
    }
}

/// A test is attempted at most `max_attempts` times: after that many
/// attempts no outcome asks for another.
pub proof fn law_attempts_bounded(attempts_made: u32, max_attempts: u32, outcome: AttemptOutcome, stop_on_error: bool)
    requires
        attempts_made >= max_attempts,
    ensures
        spec_validation_step(attempts_made, max_attempts, outcome, stop_on_error) != ValidationAction::Retry,
{
}

} // verus!
