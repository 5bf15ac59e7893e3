//! The sample store: raw sample bytes keyed by the physical key that plays
//! them.
//!
//! The store is built once, from a directory listing handed over as
//! `(file name, contents)` pairs. A file whose name resolves against the key
//! layout contributes its bytes under the resolved key, a later file of the
//! same name overriding an earlier one; any other file is ignored. After
//! construction the store is read-only: lookup is the only operation.

use vstd::prelude::*;

use crate::layout::key_for_file;
use crate::layout::spec_key_for_file;

verus! {

/// The mapping that loading `files` yields: walk the listing in order and,
/// for each file whose name resolves against the key layout, associate its
/// bytes with the resolved key, later files overriding earlier ones.
pub open spec fn loaded_samples(files: Seq<(String, Vec<u8>)>) -> Map<char, Seq<u8>>
    decreases files.len(),
{
    if files.len() == 0 {
        Map::empty()
    } else {
        let rest = loaded_samples(files.drop_last());
        match spec_key_for_file(files.last().0@) {
            Some(k) => rest.insert(k, files.last().1@),
            None => rest,
        }
    }
}

/// The map that a list of `(key, bytes)` entries denotes, a later entry
/// overriding an earlier one of the same key.
pub open spec fn entries_map(s: Seq<(char, Vec<u8>)>) -> Map<char, Seq<u8>>
    decreases s.len(),
{
    if s.len() == 0 {
        Map::empty()
    } else {
        entries_map(s.drop_last()).insert(s.last().0, s.last().1@)
    }
}

/// No two entries share a key.
pub open spec fn unique_keys(s: Seq<(char, Vec<u8>)>) -> bool {
    forall|i: int, j: int| 0 <= i < j < s.len() ==> (#[trigger] s[i]).0 != (#[trigger] s[j]).0
}

/// In-memory sample bytes, keyed by the physical key that plays them.
/// Abstractly a map from key to byte sequence; concretely a list of entries
/// with pairwise distinct keys.
pub struct SampleStore {
    entries: Vec<(char, Vec<u8>)>,
}

impl View for SampleStore {
    type V = Map<char, Seq<u8>>;

    closed spec fn view(&self) -> Map<char, Seq<u8>> {
        entries_map(self.entries@)
    }
}

/// The map of a list names exactly the keys of its entries.
proof fn lemma_entries_map_domain(s: Seq<(char, Vec<u8>)>, k: char)
    ensures
        entries_map(s).contains_key(k) <==> exists|i: int|
            0 <= i < s.len() && (#[trigger] s[i]).0 == k,
    decreases s.len(),
{
    if s.len() > 0 {
        lemma_entries_map_domain(s.drop_last(), k);
        if s.last().0 == k {
            assert(s[s.len() - 1].0 == k);
        } else if entries_map(s).contains_key(k) {
            let i = choose|i: int| 0 <= i < s.drop_last().len() && (#[trigger] s.drop_last()[i]).0
                == k;
            assert(s[i].0 == k);
        } else {
            assert forall|i: int| 0 <= i < s.len() implies (#[trigger] s[i]).0 != k by {
                if i < s.len() - 1 {
                    assert(s.drop_last()[i].0 == s[i].0);
                }
            }
        }
    }
}

/// With pairwise distinct keys, the map of a list sends each entry's key to
/// that entry's bytes.
proof fn lemma_entries_map_at(s: Seq<(char, Vec<u8>)>, i: int)
    requires
        unique_keys(s),
        0 <= i < s.len(),
    ensures
        entries_map(s).contains_key(s[i].0),
        entries_map(s)[s[i].0] == s[i].1@,
    decreases s.len(),
{
    if i == s.len() - 1 {
    } else {
        assert(s.drop_last()[i] == s[i]);
        lemma_entries_map_at(s.drop_last(), i);
    }
}

/// Appending an entry inserts its key into the map of the list.
proof fn lemma_entries_map_push(s: Seq<(char, Vec<u8>)>, e: (char, Vec<u8>))
    ensures
        entries_map(s.push(e)) == entries_map(s).insert(e.0, e.1@),
{
    assert(s.push(e).drop_last() =~= s);
    assert(s.push(e).last() == e);
}

/// Removing the entry at `i` removes exactly its key from the map of the
/// list, provided keys are pairwise distinct.
proof fn lemma_entries_map_remove(s: Seq<(char, Vec<u8>)>, i: int)
    requires
        unique_keys(s),
        0 <= i < s.len(),
    ensures
        entries_map(s.remove(i)) == entries_map(s).remove(s[i].0),
    decreases s.len(),
{
    if i == s.len() - 1 {
        assert(s.remove(i) =~= s.drop_last());
        lemma_entries_map_domain(s.drop_last(), s[i].0);
        assert forall|j: int| 0 <= j < s.drop_last().len() implies (#[trigger] s.drop_last()[j]).0
            != s[i].0 by {
            assert(s[j].0 != s[i].0);
        }
        assert(!entries_map(s.drop_last()).contains_key(s[i].0));
        assert(entries_map(s.drop_last()).insert(s[i].0, s[i].1@).remove(s[i].0) =~= entries_map(
            s.drop_last(),
        ));
    } else {
        assert forall|j1: int, j2: int|
            0 <= j1 < j2 < s.drop_last().len() implies (#[trigger] s.drop_last()[j1]).0
            != (#[trigger] s.drop_last()[j2]).0 by {
            assert(s[j1].0 != s[j2].0);
        }
        lemma_entries_map_remove(s.drop_last(), i);
        assert(s.remove(i).drop_last() =~= s.drop_last().remove(i));
        assert(s.remove(i).last() == s.last());
        assert(s[i].0 != s.last().0);
        assert(entries_map(s.drop_last()).remove(s[i].0).insert(s.last().0, s.last().1@)
            =~= entries_map(s.drop_last()).insert(s.last().0, s.last().1@).remove(s[i].0));
    }
}

impl SampleStore {
    /// The store's invariant: entry keys are pairwise distinct, so the entry
    /// list denotes its map unambiguously.
    pub closed spec fn wf(&self) -> bool {
        unique_keys(self.entries@)
    }

    /// An empty store: no key has a sample.
    pub fn new() -> (s: SampleStore)
        ensures
            s.wf(),
            s@ == Map::<char, Seq<u8>>::empty(),
    {
        SampleStore { entries: Vec::new() }
    }

    /// The index of the entry holding `k`, if one exists.
    fn position_of(&self, k: char) -> (r: Option<usize>)
        ensures
            match r {
                Some(i) => i < self.entries@.len() && self.entries@[i as int].0 == k,
                None => forall|i: int|
                    0 <= i < self.entries@.len() ==> (#[trigger] self.entries@[i]).0 != k,
            },
    {
        let mut i: usize = 0;
        while i < self.entries.len()
            invariant
                i <= self.entries@.len(),
                forall|j: int| 0 <= j < i ==> (#[trigger] self.entries@[j]).0 != k,
            decreases self.entries@.len() - i,
        {
            if self.entries[i].0 == k {
                return Some(i);
            }
            i = i + 1;
        }
        None
    }

    /// Associate `bytes` with key `k`, replacing whatever bytes `k` held
    /// before.
    pub fn insert_sample(&mut self, k: char, bytes: Vec<u8>)
        requires
            old(self).wf(),
        ensures
            final(self).wf(),
            final(self)@ == old(self)@.insert(k, bytes@),
    {
        let ghost s0 = self.entries@;
        let ghost bv = bytes@;
        let pos = self.position_of(k);
        match pos {
            Some(i) => {
                self.entries.remove(i);
                proof {
                    lemma_entries_map_remove(s0, i as int);
                    lemma_entries_map_domain(s0, k);
                }
            },
            None => {
                proof {
                    lemma_entries_map_domain(s0, k);
                }
            },
        }
        let ghost s1 = self.entries@;
        proof {
            // After the removal (or when nothing held `k`), no entry has `k`.
            assert forall|j: int| 0 <= j < s1.len() implies (#[trigger] s1[j]).0 != k by {
                if pos is Some {
                    let i = pos->0 as int;
                    s0.remove_ensures(i);
                    if j < i {
                        assert(s1[j] == s0[j]);
                    } else {
                        assert(s1[j] == s0[j + 1]);
                    }
                }
            }
            assert forall|j1: int, j2: int| 0 <= j1 < j2 < s1.len() implies (#[trigger] s1[j1]).0
                != (#[trigger] s1[j2]).0 by {
                if pos is Some {
                    let i = pos->0 as int;
                    s0.remove_ensures(i);
                }
            }
            assert(entries_map(s1) =~= old(self)@.remove(k));
        }
        self.entries.push((k, bytes));
        proof {
            lemma_entries_map_push(s1, (k, bytes));
            assert(final(self)@ =~= old(self)@.insert(k, bv));
        }
    }

    /// The bytes held for key `k`, if any.
    pub fn get(&self, k: char) -> (r: Option<&Vec<u8>>)
        requires
            self.wf(),
        ensures
            match r {
                Some(b) => self@.contains_key(k) && b@ == self@[k],
                None => !self@.contains_key(k),
            },
    {
        let pos = self.position_of(k);
        proof {
            lemma_entries_map_domain(self.entries@, k);
        }
        match pos {
            Some(i) => {
                proof {
                    lemma_entries_map_at(self.entries@, i as int);
                }
                Some(&self.entries[i].1)
            },
            None => None,
        }
    }

    /// Build the store from a directory listing of `(file name, contents)`
    /// pairs, as [`loaded_samples`] describes: files that resolve against
    /// the key layout contribute their bytes, all others are ignored.
    pub fn build(files: &Vec<(String, Vec<u8>)>) -> (s: SampleStore)
        ensures
            s.wf(),
            s@ == loaded_samples(files@),
    {
        let mut s = SampleStore::new();
        let mut idx: usize = 0;
        while idx < files.len()
            invariant
                idx <= files@.len(),
                s.wf(),
                s@ == loaded_samples(files@.take(idx as int)),
            decreases files@.len() - idx,
        {
            let ghost prefix = files@.take(idx as int);
            match key_for_file(files[idx].0.as_str()) {
                Some(k) => {
                    let bytes = files[idx].1.clone();
                    proof {
                        assert(bytes@ =~= files@[idx as int].1@);
                    }
                    s.insert_sample(k, bytes);
                },
                None => {},
            }
            proof {
                let next = files@.take(idx + 1);
                assert(next.drop_last() =~= prefix);
                assert(next.last() == files@[idx as int]);
            }
            idx = idx + 1;
        }
        proof {
            assert(files@.take(files@.len() as int) =~= files@);
        }
        s
    }
}

} // verus!
