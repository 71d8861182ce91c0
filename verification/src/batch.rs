//! The list of test files to generate: the opcodes that pass the
//! configuration's filters, expanded by size prefix and opcode extension,
//! and split into batches, one per board.

use crate::config::{
    get_group_extension_range, get_test_count, spec_group_extension_range, spec_test_count,
    CountOverride, GroupExtensionOverride,
};
use crate::enums::{CpuMode, CpuType};
use crate::size_prefix::{slice_contains, slice_contains_u8, spec_size_prefixes, TestOpcodeSizePrefix};
use vstd::prelude::*;

verus! {

/// Index of the first item of batch `idx` when `n` items are split into
/// `total` batches: every batch gets `n / total` items and the first
/// `n % total` batches get one more.
pub open spec fn batch_start(n: nat, total: nat, idx: nat) -> nat {
    idx * (n / total) + if idx < n % total {
        idx
    } else {
        n % total
    }
}

/// Number of items in batch `idx` when `n` items are split into `total` batches.
pub open spec fn batch_len(n: nat, total: nat, idx: nat) -> nat {
    n / total + if idx < n % total {
        1nat
    } else {
        0nat
    }
}

proof fn lemma_batch_bounds(n: nat, total: nat, idx: nat)
    requires
        total > 1,
        idx < total,
    ensures
        batch_start(n, total, idx) + batch_len(n, total, idx) <= n,
        idx * (n / total) <= n,
{
    let base = n / total;
    let rem = n % total;
    assert(n == total * base + rem) by (nonlinear_arith)
        requires
            total > 0,
            base == n / total,
            rem == n % total,
    ;
    assert((idx + 1) * base <= total * base) by (nonlinear_arith)
        requires
            idx + 1 <= total,
    ;
    assert(idx * base + base == (idx + 1) * base) by (nonlinear_arith);
    assert(idx * base <= (idx + 1) * base) by (nonlinear_arith);
}

/// The items of batch `idx` out of `total` batches. With `total` of 1 or
/// less the whole list is the single batch. `idx` must be below `total`
/// when there are several batches.
pub fn create_batch<T: Clone>(items: &[T], total: usize, idx: usize) -> (res: Vec<T>)
    requires
        total <= 1 || idx < total,
    ensures
        total <= 1 ==> res.len() == items.len() && forall|i: int|
            0 <= i < items.len() ==> cloned(items[i], #[trigger] res[i]),
        total > 1 ==> res.len() == batch_len(items.len() as nat, total as nat, idx as nat)
            && forall|i: int|
            0 <= i < res.len() ==> cloned(
                items[batch_start(items.len() as nat, total as nat, idx as nat) + i],
                #[trigger] res[i],
            ),
{
    let n = items.len();
    let (start, end) = if total <= 1 {
        (0, n)
    } else {
        let base = n / total;
        let rem = n % total;
        proof {
            lemma_batch_bounds(n as nat, total as nat, idx as nat);
        }
        let my_len = base + if idx < rem {
            1
        } else {
            0
        };
        let start = idx * base + if idx < rem {
            idx
        } else {
            rem
        };
        (start, start + my_len)
    };
    let mut res: Vec<T> = Vec::new();
    let mut j = start;
    while j < end
        invariant
            start <= j <= end <= n == items.len(),
            res.len() == j - start,
            forall|i: int| 0 <= i < res.len() ==> cloned(items[start + i], #[trigger] res[i]),
        decreases end - j,
    {
        res.push(items[j].clone());
        j += 1;
    }
    res
}

/// Batching partitions the list: batch 0 starts at the first item, each
/// batch starts where the one before it ends, the batch after the last would
/// start past the last item, and batch sizes differ by at most one.
pub proof fn law_batches_partition(n: nat, total: nat, idx: nat)
    requires
        total > 1,
        idx < total,
    ensures
        batch_start(n, total, 0) == 0,
        batch_start(n, total, idx + 1) == batch_start(n, total, idx) + batch_len(n, total, idx),
        batch_start(n, total, total) == n,
        n / total <= batch_len(n, total, idx) <= n / total + 1,
{
    let base = n / total;
    let rem = n % total;
    assert(n == total * base + rem) by (nonlinear_arith)
        requires
            total > 0,
            base == n / total,
            rem == n % total,
    ;
    assert((idx + 1) * base == idx * base + base) by (nonlinear_arith);
    assert(0 * base == 0) by (nonlinear_arith);
    assert(total * base == base * total) by (nonlinear_arith);
}


/// What the ISA database records of one opcode.
#[derive(Copy, Clone, Debug)]
pub struct IsaEntry {
    pub opcode: u16,
    pub can_use_operand_size_prefix: bool,
    pub can_use_address_size_prefix: bool,
}

/// The ISA database: the entries of the opcodes it knows.
pub struct IsaDB {
    pub entries: Vec<IsaEntry>,
}

/// The first entry for an opcode.
pub open spec fn spec_isa_lookup(entries: Seq<IsaEntry>, opcode: u16) -> Option<IsaEntry>
    decreases entries.len(),
{
    if entries.len() == 0 {
        None
    } else if entries[0].opcode == opcode {
        Some(entries[0])
    } else {
        spec_isa_lookup(entries.drop_first(), opcode)
    }
}

impl IsaDB {
    /// The entry of an opcode, if the database has one.
    pub fn opcode(&self, opcode: u16) -> (r: Option<IsaEntry>)
        ensures
            r == spec_isa_lookup(self.entries@, opcode),
    {
        let mut i: usize = 0;
        assert(self.entries@.skip(0) == self.entries@);
        while i < self.entries.len()
            invariant
                i <= self.entries@.len(),
                spec_isa_lookup(self.entries@.skip(i as int), opcode) == spec_isa_lookup(
                    self.entries@,
                    opcode,
                ),
            decreases self.entries.len() - i,
        {
            assert(self.entries@.skip(i as int)[0] == self.entries@[i as int]);
            if self.entries[i].opcode == opcode {
                return Some(self.entries[i]);
            }
            assert(self.entries@.skip(i as int).drop_first() == self.entries@.skip(i as int + 1));
            i += 1;
        }
        None
    }
}

/// The generator settings that choose the test candidates.
pub struct CandidateSettings {
    pub cpu_type: CpuType,
    pub cpu_mode: CpuMode,
    pub opcode_override: Option<u16>,
    pub opcode_range: [u16; 2],
    pub excluded_opcodes: Vec<u16>,
    pub valid_opcodes: Vec<u16>,
    pub skip_io: bool,
    pub io_opcodes: Vec<u16>,
    pub prefixes: Vec<u8>,
    pub protected_mode_opcodes: Vec<u16>,
    pub disable_operand_size_prefix: Vec<u16>,
    pub disable_address_size_prefix: Vec<u16>,
    pub group_opcodes: Vec<u16>,
    pub group_extension_range: [u8; 2],
    pub group_extension_overrides: Vec<GroupExtensionOverride>,
}

/// One test file to generate: an opcode, the size prefixes it runs with, and
/// for a group opcode the extension in the ModR/M REG field.
#[derive(Copy, Clone, Debug, PartialEq, Eq, Structural)]
pub struct TestCandidate {
    pub opcode: u16,
    pub size_prefix: TestOpcodeSizePrefix,
    pub opcode_extension: Option<u8>,
}

/// The test files to generate.
pub struct TestCandidateList {
    candidates: Vec<TestCandidate>,
}

/// The candidates whose flag in `exists` is false, in order.
pub open spec fn kept_candidates(cands: Seq<TestCandidate>, exists: Seq<bool>) -> Seq<TestCandidate>
    decreases cands.len(),
{
    if cands.len() == 0 {
        Seq::empty()
    } else {
        let rest = kept_candidates(cands.drop_last(), exists.take(cands.len() - 1));
        if exists[cands.len() - 1] {
            rest
        } else {
            rest.push(cands.last())
        }
    }
}

/// Whether an opcode is to be tested: not excluded, listed as valid, not an
/// I/O opcode when I/O is skipped, not a bare prefix byte, and not a
/// protected-mode-only opcode in real or unreal mode.
pub open spec fn spec_opcode_passes(s: CandidateSettings, opcode: u16) -> bool {
    &&& !s.excluded_opcodes@.contains(opcode)
    &&& s.valid_opcodes@.contains(opcode)
    &&& !(s.skip_io && s.io_opcodes@.contains(opcode))
    &&& !(opcode < 0x100 && s.prefixes@.contains(opcode as u8))
    &&& !((s.cpu_mode == CpuMode::Real || s.cpu_mode == CpuMode::Unreal)
        && s.protected_mode_opcodes@.contains(opcode))
}

/// Whether expanding an opcode can look it up: the ISA database is read only
/// for the 80386EX, and must then know the opcode.
pub open spec fn spec_isa_covers(s: CandidateSettings, isa: IsaDB, opcode: u16) -> bool {
    s.cpu_type == CpuType::Intel80386Ex ==> spec_isa_lookup(isa.entries@, opcode) is Some
}

/// The size-prefix sets an opcode is generated with.
pub open spec fn spec_prefixes_for(s: CandidateSettings, isa: IsaDB, opcode: u16) -> Seq<TestOpcodeSizePrefix> {
    let e = spec_isa_lookup(isa.entries@, opcode);
    spec_size_prefixes(
        s.cpu_type,
        opcode,
        e is Some && e.unwrap().can_use_operand_size_prefix,
        e is Some && e.unwrap().can_use_address_size_prefix,
        s.disable_operand_size_prefix@,
        s.disable_address_size_prefix@,
    )
}

/// The candidates of one opcode under one prefix set: one per extension in
/// the inclusive range `lo..=hi` for a group opcode, else one without an
/// extension.
pub open spec fn spec_prefix_candidates(opcode: u16, p: TestOpcodeSizePrefix, group: bool, lo: u8, hi: u8) -> Seq<TestCandidate> {
    if group {
        Seq::new(
            if lo <= hi {
                (hi - lo + 1) as nat
            } else {
                0nat
            },
            |k: int| TestCandidate { opcode, size_prefix: p, opcode_extension: Some((lo + k) as u8) },
        )
    } else {
        seq![TestCandidate { opcode, size_prefix: p, opcode_extension: None }]
    }
}

/// The candidates of one opcode under each of the prefix sets, in order.
pub open spec fn spec_expand_prefixes(opcode: u16, ps: Seq<TestOpcodeSizePrefix>, group: bool, lo: u8, hi: u8) -> Seq<TestCandidate>
    decreases ps.len(),
{
    if ps.len() == 0 {
        Seq::empty()
    } else {
        spec_expand_prefixes(opcode, ps.drop_last(), group, lo, hi) + spec_prefix_candidates(
            opcode,
            ps.last(),
            group,
            lo,
            hi,
        )
    }
}

/// All candidates of one opcode.
pub open spec fn spec_expand(s: CandidateSettings, isa: IsaDB, opcode: u16) -> Seq<TestCandidate> {
    let (lo, hi) = spec_group_extension_range(s.group_extension_range, s.group_extension_overrides@, opcode);
    spec_expand_prefixes(opcode, spec_prefixes_for(s, isa, opcode), s.group_opcodes@.contains(opcode), lo, hi)
}

/// The candidates of the `k` opcodes from `lo` up that pass the filters, in
/// opcode order.
pub open spec fn spec_range_candidates(s: CandidateSettings, isa: IsaDB, lo: int, k: int) -> Seq<TestCandidate>
    decreases k,
{
    if k <= 0 {
        Seq::empty()
    } else {
        let op = (lo + k - 1) as u16;
        spec_range_candidates(s, isa, lo, k - 1) + if spec_opcode_passes(s, op) {
            spec_expand(s, isa, op)
        } else {
            Seq::empty()
        }
    }
}

/// The low and high ends of the opcode range, in order.
pub open spec fn range_low(s: CandidateSettings) -> u16 {
    if s.opcode_range[0] <= s.opcode_range[1] {
        s.opcode_range[0]
    } else {
        s.opcode_range[1]
    }
}

/// The high end of the opcode range.
pub open spec fn range_high(s: CandidateSettings) -> u16 {
    if s.opcode_range[0] <= s.opcode_range[1] {
        s.opcode_range[1]
    } else {
        s.opcode_range[0]
    }
}

/// All candidates of the opcode range, before batching.
pub open spec fn spec_all_candidates(s: CandidateSettings, isa: IsaDB) -> Seq<TestCandidate> {
    spec_range_candidates(s, isa, range_low(s) as int, range_high(s) - range_low(s) + 1)
}

/// Expand a single opcode into all combinations of size prefix and extension.
fn expand_opcode_to_candidates(s: &CandidateSettings, isa: &IsaDB, opcode_raw: u16) -> (v: Vec<TestCandidate>)
    requires
        spec_isa_covers(*s, *isa, opcode_raw),
    ensures
        v@ == spec_expand(*s, *isa, opcode_raw),
{
    let entry = isa.opcode(opcode_raw);
    let (can_op, can_ad) = match entry {
        Some(e) => (e.can_use_operand_size_prefix, e.can_use_address_size_prefix),
        None => (false, false),
    };
    let prefixes = TestOpcodeSizePrefix::iter(
        s.cpu_type,
        opcode_raw,
        can_op,
        can_ad,
        s.disable_operand_size_prefix.as_slice(),
        s.disable_address_size_prefix.as_slice(),
    );
    let group = slice_contains(s.group_opcodes.as_slice(), opcode_raw);
    let (lo, hi) = get_group_extension_range(
        s.group_extension_range,
        s.group_extension_overrides.as_slice(),
        opcode_raw,
    );
    let mut v: Vec<TestCandidate> = Vec::new();
    let mut i: usize = 0;
    while i < prefixes.len()
        invariant
            i <= prefixes@.len(),
            prefixes@ == spec_prefixes_for(*s, *isa, opcode_raw),
            group == s.group_opcodes@.contains(opcode_raw),
            (lo, hi) == spec_group_extension_range(
                s.group_extension_range,
                s.group_extension_overrides@,
                opcode_raw,
            ),
            v@ == spec_expand_prefixes(opcode_raw, prefixes@.take(i as int), group, lo, hi),
        decreases prefixes.len() - i,
    {
        let size_prefix = prefixes[i];
        let ghost before = v@;
        if group {
            let mut ext: u16 = lo as u16;
            while ext <= hi as u16
                invariant
                    lo as u16 <= ext <= hi as u16 + 1 || (lo > hi && ext == lo as u16),
                    v@ == before + spec_prefix_candidates(opcode_raw, size_prefix, true, lo, hi).take(
                        ext - lo,
                    ),
                decreases hi as u16 + 1 - ext,
            {
                v.push(
                    TestCandidate {
                        opcode: opcode_raw,
                        size_prefix,
                        opcode_extension: Some(ext as u8),
                    },
                );
                ext += 1;
                assert(v@ == before + spec_prefix_candidates(opcode_raw, size_prefix, true, lo, hi).take(
                    ext - lo,
                ));
            }
            assert(spec_prefix_candidates(opcode_raw, size_prefix, true, lo, hi).take(ext - lo)
                == spec_prefix_candidates(opcode_raw, size_prefix, true, lo, hi));
        } else {
            v.push(TestCandidate { opcode: opcode_raw, size_prefix, opcode_extension: None });
        }
        assert(prefixes@.take(i as int + 1).drop_last() == prefixes@.take(i as int));
        i += 1;
    }
    assert(prefixes@.take(prefixes@.len() as int) == prefixes@);
    v
}

impl TestCandidateList {
    /// The candidates, in order.
    pub closed spec fn view(&self) -> Seq<TestCandidate> {
        self.candidates@
    }

    /// Number of candidates.
    pub fn len(&self) -> (r: usize)
        ensures
            r == self.view().len(),
    {
        self.candidates.len()
    }

    /// Whether there are no candidates.
    pub fn is_empty(&self) -> (r: bool)
        ensures
            r == (self.view().len() == 0),
    {
        self.candidates.len() == 0
    }

    /// The candidates.
    pub fn candidates(&self) -> (r: &[TestCandidate])
        ensures
            r@ == self.view(),
    {
        self.candidates.as_slice()
    }

    /// Drop the candidates whose output file exists: `exists[i]` tells
    /// whether the file of candidate `i` already stands; the others stay, in
    /// order.
    pub fn filter_existing(&mut self, exists: &[bool])
        requires
            exists@.len() == old(self).view().len(),
        ensures
            final(self).view() == kept_candidates(old(self).view(), exists@),
    {
        let ghost c0 = self.candidates@;
        let mut kept: Vec<TestCandidate> = Vec::new();
        let mut i: usize = 0;
        while i < self.candidates.len()
            invariant
                i <= self.candidates.len(),
                self.candidates@ == c0,
                exists@.len() == c0.len(),
                kept@ == kept_candidates(c0.take(i as int), exists@.take(i as int)),
            decreases self.candidates.len() - i,
        {
            assert(c0.take(i as int + 1).drop_last() == c0.take(i as int));
            assert(exists@.take(i as int + 1).drop_last() == exists@.take(i as int));
            if !exists[i] {
                kept.push(self.candidates[i]);
            }
            i += 1;
        }
        assert(c0.take(c0.len() as int) == c0);
        assert(exists@.take(c0.len() as int) == exists@);
        self.candidates = kept;
    }

    /// The list of test files to generate: the expansion of the override
    /// opcode when one is given; otherwise the expansions of the opcodes of
    /// the range (in either order of its ends) that pass the filters, in
    /// opcode order, cut to batch `job_no` of `job_ct`.
    pub fn collect(s: &CandidateSettings, isa: &IsaDB, job_ct: usize, job_no: usize) -> (r: TestCandidateList)
        requires
            job_ct <= 1 || job_no < job_ct,
            match s.opcode_override {
                Some(ov) => spec_isa_covers(*s, *isa, ov),
                None => forall|op: u16|
                    range_low(*s) <= op <= range_high(*s) && spec_opcode_passes(*s, op)
                        ==> #[trigger] spec_isa_covers(*s, *isa, op),
            },
        ensures
            match s.opcode_override {
                Some(ov) => r.view() == spec_expand(*s, *isa, ov),
                None => {
                    let all = spec_all_candidates(*s, *isa);
                    &&& job_ct <= 1 ==> r.view() == all
                    &&& job_ct > 1 ==> r.view() == all.subrange(
                        batch_start(all.len(), job_ct as nat, job_no as nat) as int,
                        (batch_start(all.len(), job_ct as nat, job_no as nat) + batch_len(
                            all.len(),
                            job_ct as nat,
                            job_no as nat,
                        )) as int,
                    )
                },
            },
    {
        if let Some(ov) = s.opcode_override {
            return TestCandidateList { candidates: expand_opcode_to_candidates(s, isa, ov) };
        }
        let mut start = s.opcode_range[0];
        let mut end = s.opcode_range[1];
        if start > end {
            let t = start;
            start = end;
            end = t;
        }
        let mut out: Vec<TestCandidate> = Vec::new();
        let mut op: u32 = start as u32;
        while op <= end as u32
            invariant
                start == range_low(*s),
                end == range_high(*s),
                s.opcode_override is None,
                start as u32 <= op <= end as u32 + 1,
                forall|o: u16|
                    range_low(*s) <= o <= range_high(*s) && spec_opcode_passes(*s, o)
                        ==> #[trigger] spec_isa_covers(*s, *isa, o),
                out@ == spec_range_candidates(*s, *isa, start as int, op - start),
            decreases end as u32 + 1 - op,
        {
            let opcode_raw = op as u16;
            let passes = !slice_contains(s.excluded_opcodes.as_slice(), opcode_raw)
                && slice_contains(s.valid_opcodes.as_slice(), opcode_raw)
                && !(s.skip_io && slice_contains(s.io_opcodes.as_slice(), opcode_raw))
                && !(opcode_raw < 0x100 && slice_contains_u8(s.prefixes.as_slice(), opcode_raw as u8))
                && !((matches!(s.cpu_mode, CpuMode::Real) || matches!(s.cpu_mode, CpuMode::Unreal))
                    && slice_contains(s.protected_mode_opcodes.as_slice(), opcode_raw));
            assert(passes == spec_opcode_passes(*s, opcode_raw));
            assert(((start as int + (op - start + 1) - 1) as u16) == opcode_raw);
            if passes {
                let mut more = expand_opcode_to_candidates(s, isa, opcode_raw);
                out.append(&mut more);
            }
            op += 1;
        }
        let candidates = create_batch(out.as_slice(), job_ct, job_no);
        proof {
            if job_ct > 1 {
                lemma_batch_bounds(out@.len(), job_ct as nat, job_no as nat);
            }
            let st = if job_ct <= 1 {
                0
            } else {
                batch_start(out@.len(), job_ct as nat, job_no as nat) as int
            };
            assert forall|i: int| 0 <= i < candidates@.len() implies candidates@[i] == out@[st + i] by {
                assert(cloned(out@[st + i], candidates@[i]));
            }
        }
        assert(candidates@ =~= if job_ct <= 1 {
            out@
        } else {
            out@.subrange(
                batch_start(out@.len(), job_ct as nat, job_no as nat) as int,
                (batch_start(out@.len(), job_ct as nat, job_no as nat) + batch_len(
                    out@.len(),
                    job_ct as nat,
                    job_no as nat,
                )) as int,
            )
        });
        TestCandidateList { candidates }
    }
}


/// The total number of tests of a list of candidates.
pub open spec fn spec_test_total(cands: Seq<TestCandidate>, test_count: usize, overrides: Seq<CountOverride>) -> int
    decreases cands.len(),
{
    if cands.len() == 0 {
        0
    } else {
        spec_test_total(cands.drop_last(), test_count, overrides) + spec_test_count(
            test_count,
            overrides,
            cands.last().opcode,
        )
    }
}

impl TestCandidateList {
    /// The number of tests the candidates make up: the sum of each one's
    /// test count.
    pub fn test_ct(&self, test_count: usize, count_overrides: &[CountOverride]) -> (r: usize)
        requires
            spec_test_total(self.view(), test_count, count_overrides@) <= usize::MAX,
        ensures
            r == spec_test_total(self.view(), test_count, count_overrides@),
    {
        let mut total: usize = 0;
        let mut i: usize = 0;
        while i < self.candidates.len()
            invariant
                i <= self.candidates@.len(),
                spec_test_total(self.candidates@, test_count, count_overrides@) <= usize::MAX,
                total == spec_test_total(self.candidates@.take(i as int), test_count, count_overrides@),
            decreases self.candidates.len() - i,
        {
            proof {
                lemma_test_total_prefix(self.candidates@, test_count, count_overrides@, i as int + 1);
                assert(self.candidates@.take(i as int + 1).drop_last() == self.candidates@.take(i as int));
            }
            let ct = get_test_count(test_count, count_overrides, self.candidates[i].opcode);
            total = total + ct;
            i += 1;
        }
        assert(self.candidates@.take(i as int) == self.candidates@);
        total
    }
}

proof fn lemma_test_total_prefix(cands: Seq<TestCandidate>, test_count: usize, overrides: Seq<CountOverride>, k: int)
    requires
        0 <= k <= cands.len(),
    ensures
        spec_test_total(cands.take(k), test_count, overrides) <= spec_test_total(cands, test_count, overrides),
    decreases cands.len(),
{
    if k < cands.len() {
        assert(cands.drop_last().take(k) == cands.take(k));
        lemma_test_total_prefix(cands.drop_last(), test_count, overrides, k);
    } else {
        assert(cands.take(k) == cands);
    }
}

} // verus!
