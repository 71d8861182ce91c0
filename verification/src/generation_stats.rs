//! Counters kept while generating tests.

use vstd::prelude::*;

verus! {

/// An exception seen in a generated test, and whether the test used a SIB byte.
#[derive(Copy, Clone, Debug, Default, Hash, PartialEq, Eq, Structural)]
pub struct ExceptionSeenEntry {
    pub exception_number: u8,
    pub sib: bool,
}

/// Sum of the counts of the entries whose name is `k`.
pub open spec fn name_count(entries: Seq<(String, usize)>, k: Seq<char>) -> nat
    decreases entries.len(),
{
    if entries.len() == 0 {
        0
    } else {
        name_count(entries.drop_last(), k) + if entries.last().0@ == k {
            entries.last().1 as nat
        } else {
            0nat
        }
    }
}

/// No two entries carry the same name.
pub open spec fn names_unique(entries: Seq<(String, usize)>) -> bool {
    forall|i: int, j: int|
        0 <= i < j < entries.len() ==> (#[trigger] entries[i]).0@ != (#[trigger] entries[j]).0@
}

/// Sum of the counts of the entries whose key is `k`.
pub open spec fn entry_count(entries: Seq<(ExceptionSeenEntry, usize)>, k: ExceptionSeenEntry) -> nat
    decreases entries.len(),
{
    if entries.len() == 0 {
        0
    } else {
        entry_count(entries.drop_last(), k) + if entries.last().0 == k {
            entries.last().1 as nat
        } else {
            0nat
        }
    }
}

/// Generation statistics: totals by addressing form, how often each
/// mnemonic was generated and how often each exception was seen.
#[derive(Clone, Debug)]
pub struct GenerationStats {
    pub total: usize,
    pub modrm_ct: usize,
    pub modrm_exception_ct: usize,
    pub modrm_no_exception_ct: usize,
    pub address_mode_ct: usize,
    pub register_mode_ct: usize,
    pub sib_ct: usize,
    pub sib_exception_ct: usize,
    pub sib_no_exception_ct: usize,
    pub mnemonic_set: Vec<(String, usize)>,
    pub exceptions: Vec<(ExceptionSeenEntry, usize)>,
}

proof fn lemma_name_count_update(entries: Seq<(String, usize)>, i: int, v: usize, k: Seq<char>)
    requires
        0 <= i < entries.len(),
    ensures
        name_count(entries.update(i, (entries[i].0, v)), k) + (if entries[i].0@ == k {
            entries[i].1 as nat
        } else {
            0nat
        }) == name_count(entries, k) + (if entries[i].0@ == k {
            v as nat
        } else {
            0nat
        }),
    decreases entries.len(),
{
    let e2 = entries.update(i, (entries[i].0, v));
    if i < entries.len() - 1 {
        assert(e2.drop_last() == entries.drop_last().update(i, (entries[i].0, v)));
        lemma_name_count_update(entries.drop_last(), i, v, k);
    } else {
        assert(e2.drop_last() == entries.drop_last());
    }
}

proof fn lemma_name_count_push(entries: Seq<(String, usize)>, e: (String, usize), k: Seq<char>)
    ensures
        name_count(entries.push(e), k) == name_count(entries, k) + if e.0@ == k {
            e.1 as nat
        } else {
            0nat
        },
{
    assert(entries.push(e).drop_last() == entries);
}

proof fn lemma_name_count_absent(entries: Seq<(String, usize)>, k: Seq<char>)
    requires
        forall|j: int| 0 <= j < entries.len() ==> (#[trigger] entries[j]).0@ != k,
    ensures
        name_count(entries, k) == 0,
    decreases entries.len(),
{
    if entries.len() > 0 {
        lemma_name_count_absent(entries.drop_last(), k);
    }
}

proof fn lemma_name_count_unique(entries: Seq<(String, usize)>, i: int)
    requires
        names_unique(entries),
        0 <= i < entries.len(),
    ensures
        name_count(entries, entries[i].0@) == entries[i].1,
    decreases entries.len(),
{
    let k = entries[i].0@;
    let init = entries.drop_last();
    if i == entries.len() - 1 {
        assert forall|j: int| 0 <= j < init.len() implies (#[trigger] init[j]).0@ != k by {
            assert(entries[j].0@ != entries[i].0@);
        }
        lemma_name_count_absent(init, k);
    } else {
        assert(entries.last().0@ != k) by {
            assert(entries[i].0@ != entries[entries.len() - 1].0@);
        }
        assert(names_unique(init)) by {
            assert forall|a: int, b: int| 0 <= a < b < init.len() implies (#[trigger] init[a]).0@
                != (#[trigger] init[b]).0@ by {
                assert(entries[a].0@ != entries[b].0@);
            }
        }
        lemma_name_count_unique(init, i);
    }
}

proof fn lemma_entry_count_update(
    entries: Seq<(ExceptionSeenEntry, usize)>,
    i: int,
    v: usize,
    k: ExceptionSeenEntry,
)
    requires
        0 <= i < entries.len(),
    ensures
        entry_count(entries.update(i, (entries[i].0, v)), k) + (if entries[i].0 == k {
            entries[i].1 as nat
        } else {
            0nat
        }) == entry_count(entries, k) + (if entries[i].0 == k {
            v as nat
        } else {
            0nat
        }),
    decreases entries.len(),
{
    let e2 = entries.update(i, (entries[i].0, v));
    if i < entries.len() - 1 {
        assert(e2.drop_last() == entries.drop_last().update(i, (entries[i].0, v)));
        lemma_entry_count_update(entries.drop_last(), i, v, k);
    } else {
        assert(e2.drop_last() == entries.drop_last());
    }
}

proof fn lemma_entry_count_push(
    entries: Seq<(ExceptionSeenEntry, usize)>,
    e: (ExceptionSeenEntry, usize),
    k: ExceptionSeenEntry,
)
    ensures
        entry_count(entries.push(e), k) == entry_count(entries, k) + if e.0 == k {
            e.1 as nat
        } else {
            0nat
        },
{
    assert(entries.push(e).drop_last() == entries);
}

impl Default for GenerationStats {
    /// All counters zero, no mnemonics and no exceptions.
    fn default() -> (r: Self)
        ensures
            r.total == 0 && r.modrm_ct == 0 && r.modrm_exception_ct == 0
                && r.modrm_no_exception_ct == 0 && r.address_mode_ct == 0 && r.register_mode_ct
                == 0 && r.sib_ct == 0 && r.sib_exception_ct == 0 && r.sib_no_exception_ct == 0,
            r.mnemonic_set@.len() == 0,
            r.exceptions@.len() == 0,
    {
        GenerationStats {
            total: 0,
            modrm_ct: 0,
            modrm_exception_ct: 0,
            modrm_no_exception_ct: 0,
            address_mode_ct: 0,
            register_mode_ct: 0,
            sib_ct: 0,
            sib_exception_ct: 0,
            sib_no_exception_ct: 0,
            mnemonic_set: Vec::new(),
            exceptions: Vec::new(),
        }
    }
}

impl GenerationStats {
    /// Each mnemonic and each exception key is held once.
    pub open spec fn wf(&self) -> bool {
        &&& names_unique(self.mnemonic_set@)
        &&& forall|i: int, j: int|
            0 <= i < j < self.exceptions@.len() ==> (#[trigger] self.exceptions@[i]).0
                != (#[trigger] self.exceptions@[j]).0
    }

    /// The scalar counters: total, ModR/M, ModR/M with and without
    /// exception, address mode, register mode, SIB, SIB with and without
    /// exception.
    pub open spec fn counters(&self) -> (usize, usize, usize, usize, usize, usize, usize, usize, usize) {
        (
            self.total,
            self.modrm_ct,
            self.modrm_exception_ct,
            self.modrm_no_exception_ct,
            self.address_mode_ct,
            self.register_mode_ct,
            self.sib_ct,
            self.sib_exception_ct,
            self.sib_no_exception_ct,
        )
    }

    /// How often a mnemonic was counted.
    pub open spec fn mnemonic_count(&self, k: Seq<char>) -> nat {
        name_count(self.mnemonic_set@, k)
    }

    /// How often an exception was counted.
    pub open spec fn exception_count(&self, k: ExceptionSeenEntry) -> nat {
        entry_count(self.exceptions@, k)
    }

    /// The exceptions counted at least once.
    pub open spec fn exception_keys(&self) -> Set<ExceptionSeenEntry> {
        Set::new(|k: ExceptionSeenEntry| exists|i: int| 0 <= i < self.exceptions@.len() && #[trigger] self.exceptions@[i].0 == k)
    }

    /// Count one more occurrence of `mnemonic`.
    pub fn add_mnemonic(&mut self, mnemonic: &str)
        requires
            old(self).wf(),
            old(self).mnemonic_count(mnemonic@) < usize::MAX,
        ensures
            final(self).wf(),
            forall|k: Seq<char>|
                #[trigger] final(self).mnemonic_count(k) == old(self).mnemonic_count(k) + if k
                    == mnemonic@ {
                    1nat
                } else {
                    0nat
                },
            final(self).exceptions@ == old(self).exceptions@,
            final(self).counters() == old(self).counters(),
    {
        let ghost s0 = self.mnemonic_set@;
        let name = mnemonic.to_owned();
        let mut i: usize = 0;
        while i < self.mnemonic_set.len()
            invariant
                i <= self.mnemonic_set.len(),
                self.mnemonic_set@ == s0,
                s0 == old(self).mnemonic_set@,
                self.exceptions@ == old(self).exceptions@,
                self.counters() == old(self).counters(),
                name_count(s0, mnemonic@) < usize::MAX,
                name@ == mnemonic@,
                names_unique(s0),
                old(self).wf(),
                forall|j: int| 0 <= j < i ==> (#[trigger] s0[j]).0@ != mnemonic@,
            decreases self.mnemonic_set.len() - i,
        {
            if self.mnemonic_set[i].0 == name {
                let c = self.mnemonic_set[i].1;
                proof {
                    assert(name_count(s0, mnemonic@) >= c) by {
                        lemma_name_count_update(s0, i as int, 0, mnemonic@);
                    }
                }
                let key = self.mnemonic_set[i].0.clone();
                self.mnemonic_set.set(i, (key, c + 1));
                proof {
                    assert forall|k: Seq<char>|
                        #[trigger] name_count(self.mnemonic_set@, k) == name_count(s0, k) + if k
                            == mnemonic@ {
                            1nat
                        } else {
                            0nat
                        } by {
                        lemma_name_count_update(s0, i as int, (c + 1) as usize, k);
                    }
                    assert(self.mnemonic_set@ == s0.update(i as int, (key, (c + 1) as usize)));
                    assert(names_unique(self.mnemonic_set@)) by {
                        assert forall|a: int, b: int|
                            0 <= a < b < self.mnemonic_set@.len() implies (
                            #[trigger] self.mnemonic_set@[a]).0@ != (
                            #[trigger] self.mnemonic_set@[b]).0@ by {
                            assert(s0[a].0@ != s0[b].0@);
                        }
                    }
                }
                return;
            }
            i += 1;
        }
        self.mnemonic_set.push((name, 1));
        proof {
            assert forall|k: Seq<char>|
                #[trigger] name_count(self.mnemonic_set@, k) == name_count(s0, k) + if k
                    == mnemonic@ {
                    1nat
                } else {
                    0nat
                } by {
                lemma_name_count_push(s0, (name, 1usize), k);
            }
            assert(names_unique(self.mnemonic_set@)) by {
                assert forall|a: int, b: int|
                    0 <= a < b < self.mnemonic_set@.len() implies (
                    #[trigger] self.mnemonic_set@[a]).0@ != (#[trigger] self.mnemonic_set@[b]).0@ by {
                    if b < s0.len() {
                        assert(s0[a].0@ != s0[b].0@);
                    } else {
                        assert(s0[a].0@ != mnemonic@);
                    }
                }
            }
        }
    }

    /// Count a test that was found consistent: one more test and one more
    /// of its mnemonic; a SIB test, or else a ModR/M test; for a ModR/M
    /// test its register or address form; and its exception (noting SIB use)
    /// or its lack of one, under SIB or else ModR/M.
    pub fn record_consistent_test(
        &mut self,
        mnemonic: &str,
        sib: bool,
        modrm: bool,
        register_mode: bool,
        address_mode: bool,
        exception: Option<u8>,
    )
        requires
            old(self).wf(),
            old(self).total < usize::MAX,
            old(self).sib_ct < usize::MAX,
            old(self).modrm_ct < usize::MAX,
            old(self).register_mode_ct < usize::MAX,
            old(self).address_mode_ct < usize::MAX,
            old(self).sib_exception_ct < usize::MAX,
            old(self).modrm_exception_ct < usize::MAX,
            old(self).sib_no_exception_ct < usize::MAX,
            old(self).modrm_no_exception_ct < usize::MAX,
            old(self).mnemonic_count(mnemonic@) < usize::MAX,
            exception is Some ==> old(self).exception_count(
                ExceptionSeenEntry { exception_number: exception.unwrap(), sib },
            ) < usize::MAX,
        ensures
            final(self).wf(),
            final(self).total == old(self).total + 1,
            final(self).sib_ct == old(self).sib_ct + if sib { 1int } else { 0int },
            final(self).modrm_ct == old(self).modrm_ct + if !sib && modrm { 1int } else { 0int },
            final(self).register_mode_ct == old(self).register_mode_ct + if modrm && register_mode {
                1int
            } else {
                0int
            },
            final(self).address_mode_ct == old(self).address_mode_ct + if modrm && address_mode {
                1int
            } else {
                0int
            },
            final(self).sib_exception_ct == old(self).sib_exception_ct + if exception is Some && sib {
                1int
            } else {
                0int
            },
            final(self).modrm_exception_ct == old(self).modrm_exception_ct + if exception is Some
                && !sib && modrm {
                1int
            } else {
                0int
            },
            final(self).sib_no_exception_ct == old(self).sib_no_exception_ct + if exception is None
                && sib {
                1int
            } else {
                0int
            },
            final(self).modrm_no_exception_ct == old(self).modrm_no_exception_ct + if exception
                is None && !sib && modrm {
                1int
            } else {
                0int
            },
            forall|k: Seq<char>|
                #[trigger] final(self).mnemonic_count(k) == old(self).mnemonic_count(k) + if k
                    == mnemonic@ {
                    1nat
                } else {
                    0nat
                },
            forall|k: ExceptionSeenEntry|
                #[trigger] final(self).exception_count(k) == old(self).exception_count(k) + if exception
                    is Some && k == (ExceptionSeenEntry { exception_number: exception.unwrap(), sib }) {
                    1nat
                } else {
                    0nat
                },
    {
        self.total = self.total + 1;
        if sib {
            self.sib_ct = self.sib_ct + 1;
        }
        if !sib && modrm {
            self.modrm_ct = self.modrm_ct + 1;
        }
        if modrm {
            if register_mode {
                self.register_mode_ct = self.register_mode_ct + 1;
            }
            if address_mode {
                self.address_mode_ct = self.address_mode_ct + 1;
            }
        }
        match exception {
            Some(_) => {
                if sib {
                    self.sib_exception_ct = self.sib_exception_ct + 1;
                } else if modrm {
                    self.modrm_exception_ct = self.modrm_exception_ct + 1;
                }
            },
            None => {
                if sib {
                    self.sib_no_exception_ct = self.sib_no_exception_ct + 1;
                } else if modrm {
                    self.modrm_no_exception_ct = self.modrm_no_exception_ct + 1;
                }
            },
        }
        let ghost counted = *self;
        self.add_mnemonic(mnemonic);
        let ghost named = *self;
        if let Some(e) = exception {
            self.add_exception(e, sib);
            assert forall|k: Seq<char>| #[trigger] self.mnemonic_count(k) == named.mnemonic_count(k) by {}
        } else {
            assert forall|k: ExceptionSeenEntry| #[trigger] self.exception_count(k) == counted.exception_count(k) by {}
        }
    }

    /// Count one more occurrence of an exception, noting whether the test used a SIB byte.
    pub fn add_exception(&mut self, exception: u8, sib: bool)
        requires
            old(self).wf(),
            old(self).exception_count(ExceptionSeenEntry { exception_number: exception, sib }) < usize::MAX,
        ensures
            final(self).wf(),
            forall|k: ExceptionSeenEntry|
                #[trigger] final(self).exception_count(k) == old(self).exception_count(k) + if k
                    == (ExceptionSeenEntry { exception_number: exception, sib }) {
                    1nat
                } else {
                    0nat
                },
            final(self).exception_keys() == old(self).exception_keys().insert(
                ExceptionSeenEntry { exception_number: exception, sib },
            ),
            final(self).mnemonic_set@ == old(self).mnemonic_set@,
            final(self).counters() == old(self).counters(),
    {
        let ghost s0 = self.exceptions@;
        let entry = ExceptionSeenEntry { exception_number: exception, sib };
        let mut i: usize = 0;
        while i < self.exceptions.len()
            invariant
                i <= self.exceptions.len(),
                self.exceptions@ == s0,
                s0 == old(self).exceptions@,
                self.mnemonic_set@ == old(self).mnemonic_set@,
                self.counters() == old(self).counters(),
                entry_count(s0, entry) < usize::MAX,
                forall|a: int, b: int|
                    0 <= a < b < s0.len() ==> (#[trigger] s0[a]).0 != (#[trigger] s0[b]).0,
                entry == (ExceptionSeenEntry { exception_number: exception, sib }),
                old(self).wf(),
                forall|j: int| 0 <= j < i ==> (#[trigger] s0[j]).0 != entry,
            decreases self.exceptions.len() - i,
        {
            if self.exceptions[i].0 == entry {
                let c = self.exceptions[i].1;
                proof {
                    assert(entry_count(s0, entry) >= c) by {
                        lemma_entry_count_update(s0, i as int, 0, entry);
                    }
                }
                self.exceptions.set(i, (entry, c + 1));
                proof {
                    assert forall|k: ExceptionSeenEntry|
                        #[trigger] entry_count(self.exceptions@, k) == entry_count(s0, k) + if k
                            == entry {
                            1nat
                        } else {
                            0nat
                        } by {
                        lemma_entry_count_update(s0, i as int, (c + 1) as usize, k);
                    }
                    assert(self.exceptions@ == s0.update(i as int, (entry, (c + 1) as usize)));
                    assert forall|a: int, b: int|
                        0 <= a < b < self.exceptions@.len() implies (#[trigger] self.exceptions@[a]).0
                            != (#[trigger] self.exceptions@[b]).0 by {
                        assert(s0[a].0 != s0[b].0);
                    }
                    assert(old(self).exception_keys().contains(entry)) by {
                        assert(s0[i as int].0 == entry);
                    }
                    assert forall|k: ExceptionSeenEntry|
                        self.exception_keys().contains(k) == old(self).exception_keys().contains(k) by {
                        if exists|j: int| 0 <= j < s0.len() && #[trigger] s0[j].0 == k {
                            let j = choose|j: int| 0 <= j < s0.len() && #[trigger] s0[j].0 == k;
                            assert(self.exceptions@[j].0 == k);
                        }
                        if exists|j: int| 0 <= j < s0.len() && #[trigger] self.exceptions@[j].0 == k {
                            let j = choose|j: int| 0 <= j < s0.len() && #[trigger] self.exceptions@[j].0 == k;
                            assert(s0[j].0 == k);
                        }
                    }
                    assert(self.exception_keys() =~= old(self).exception_keys().insert(entry));
                }
                return;
            }
            i += 1;
        }
        self.exceptions.push((entry, 1));
        proof {
            assert forall|k: ExceptionSeenEntry|
                #[trigger] entry_count(self.exceptions@, k) == entry_count(s0, k) + if k == entry {
                    1nat
                } else {
                    0nat
                } by {
                lemma_entry_count_push(s0, (entry, 1usize), k);
            }
            assert(self.exceptions@[s0.len() as int].0 == entry);
            assert forall|k: ExceptionSeenEntry|
                self.exception_keys().contains(k) == old(self).exception_keys().insert(entry).contains(k) by {
                if exists|j: int| 0 <= j < s0.len() && #[trigger] s0[j].0 == k {
                    let j = choose|j: int| 0 <= j < s0.len() && #[trigger] s0[j].0 == k;
                    assert(self.exceptions@[j].0 == k);
                }
                if exists|j: int| 0 <= j < self.exceptions@.len() && #[trigger] self.exceptions@[j].0 == k {
                    let j = choose|j: int| 0 <= j < self.exceptions@.len() && #[trigger] self.exceptions@[j].0 == k;
                    if j < s0.len() {
                        assert(s0[j].0 == k);
                    }
                }
            }
            assert(self.exception_keys() =~= old(self).exception_keys().insert(entry));
        }
    }

    /// Number of distinct exceptions seen.
    pub fn exception_ct(&self) -> (r: usize)
        requires
            self.wf(),
        ensures
            r == self.exceptions@.len(),
            r == self.exception_keys().len(),
    {
        proof {
            self.lemma_keys_len();
        }
        self.exceptions.len()
    }

    proof fn lemma_keys_len(&self)
        requires
            self.wf(),
        ensures
            self.exception_keys().len() == self.exceptions@.len(),
            self.exception_keys().finite(),
    {
        let keys = self.exceptions@.map_values(|e: (ExceptionSeenEntry, usize)| e.0);
        assert(keys.no_duplicates()) by {
            assert forall|i: int, j: int| 0 <= i < keys.len() && 0 <= j < keys.len() && i != j implies keys[i] != keys[j] by {
                if i < j {
                    assert(self.exceptions@[i].0 != self.exceptions@[j].0);
                } else {
                    assert(self.exceptions@[j].0 != self.exceptions@[i].0);
                }
            }
        }
        assert(self.exception_keys() =~= keys.to_set()) by {
            assert forall|k: ExceptionSeenEntry| self.exception_keys().contains(k) == keys.to_set().contains(k) by {
                if keys.contains(k) {
                    let j = choose|j: int| 0 <= j < keys.len() && keys[j] == k;
                    assert(self.exceptions@[j].0 == k);
                }
                if exists|j: int| 0 <= j < self.exceptions@.len() && #[trigger] self.exceptions@[j].0 == k {
                    let j = choose|j: int| 0 <= j < self.exceptions@.len() && #[trigger] self.exceptions@[j].0 == k;
                    assert(keys[j] == k);
                }
            }
        }
        keys.unique_seq_to_set();
    }

    /// The mnemonic with the highest count (the last such in order of first
    /// occurrence), or `None` if no mnemonic was counted.
    pub fn most_frequent_mnemonic(&self) -> (r: Option<(&String, &usize)>)
        ensures
            r is None <==> self.mnemonic_set@.len() == 0,
            r matches Some((m, c)) ==> exists|i: int|
                0 <= i < self.mnemonic_set@.len() && #[trigger] self.mnemonic_set@[i].0 == *m
                    && self.mnemonic_set@[i].1 == *c && forall|j: int|
                    i < j < self.mnemonic_set@.len() ==> (#[trigger] self.mnemonic_set@[j]).1 < *c,
            r matches Some((m, c)) ==> forall|j: int|
                0 <= j < self.mnemonic_set@.len() ==> (#[trigger] self.mnemonic_set@[j]).1 <= *c,
            self.wf() ==> (r matches Some((m, c)) ==> *c == self.mnemonic_count(m@) && forall|
                k: Seq<char>,
            | #[trigger] self.mnemonic_count(k) <= *c),
    {
        if self.mnemonic_set.len() == 0 {
            return None;
        }
        let mut best: usize = 0;
        let mut i: usize = 1;
        while i < self.mnemonic_set.len()
            invariant
                1 <= i <= self.mnemonic_set.len(),
                best < i,
                forall|j: int| 0 <= j < i ==> (#[trigger] self.mnemonic_set@[j]).1 <= self.mnemonic_set@[best as int].1,
                forall|j: int| best < j < i ==> (#[trigger] self.mnemonic_set@[j]).1 < self.mnemonic_set@[best as int].1,
            decreases self.mnemonic_set.len() - i,
        {
            if self.mnemonic_set[i].1 >= self.mnemonic_set[best].1 {
                best = i;
            }
            i += 1;
        }
        let entry = &self.mnemonic_set[best];
        proof {
            if self.wf() {
                let es = self.mnemonic_set@;
                lemma_name_count_unique(es, best as int);
                assert forall|k: Seq<char>| #[trigger] self.mnemonic_count(k) <= es[best as int].1 by {
                    if exists|j: int| 0 <= j < es.len() && #[trigger] es[j].0@ == k {
                        let j = choose|j: int| 0 <= j < es.len() && #[trigger] es[j].0@ == k;
                        lemma_name_count_unique(es, j);
                    } else {
                        assert forall|j: int| 0 <= j < es.len() implies (#[trigger] es[j]).0@ != k by {
                            if es[j].0@ == k {
                                assert(exists|j2: int| 0 <= j2 < es.len() && #[trigger] es[j2].0@ == k);
                            }
                        }
                        lemma_name_count_absent(es, k);
                    }
                }
            }
        }
        Some((&entry.0, &entry.1))
    }
}

} // verus!
