//! A small map from keys to their last recorded state.

use vstd::prelude::*;
use crate::pressed::Key;

verus! {

/// The keys and values recorded by a sequence of entries.
pub open spec fn entry_views<K: Key, V>(entries: Seq<(K, V)>) -> Seq<(K::V, V)> {
    entries.map_values(|e: (K, V)| (e.0@, e.1))
}

/// The keys of a sequence of entries.
pub open spec fn entry_keys<K, V>(entries: Seq<(K, V)>) -> Seq<K> {
    entries.map_values(|e: (K, V)| e.0)
}

/// The map that a sequence of entries with distinct keys stands for.
pub open spec fn entries_map<K, V>(entries: Seq<(K, V)>) -> Map<K, V> {
    Map::new(
        |k: K| exists|i: int| 0 <= i < entries.len() && (#[trigger] entries[i]).0 == k,
        |k: K| entries[choose|i: int| 0 <= i < entries.len() && (#[trigger] entries[i]).0 == k].1,
    )
}

/// The last recorded state of each key.
#[derive(Debug, Clone)]
pub struct StateMap<K: Key, V: Copy> {
    entries: Vec<(K, V)>,
}

impl<K: Key, V: Copy> StateMap<K, V> {
    /// Well-formedness: no key is recorded twice.
    pub closed spec fn wf(&self) -> bool {
        entry_keys(entry_views(self.entries@)).no_duplicates()
    }

    /// The recorded states, by key.
    pub closed spec fn map(&self) -> Map<K::V, V> {
        entries_map(entry_views(self.entries@))
    }

    /// A map that records nothing.
    pub fn new() -> (out: Self)
        ensures
            out.wf(),
            out.map() == Map::<K::V, V>::empty(),
    {
        let out = Self { entries: Vec::new() };
        proof {
            assert(out.map() =~= Map::<K::V, V>::empty());
        }
        out
    }

    fn position_of(&self, key: &K) -> (at: usize)
        requires
            self.wf(),
        ensures
            at <= self.entries.len(),
            at < self.entries.len() ==> self.entries[at as int].0@ == key@,
            forall|j: int| 0 <= j < self.entries.len() && j != at ==> self.entries[j].0@ != key@,
    {
        let mut i: usize = 0;
        while i < self.entries.len()
            invariant
                self.wf(),
                i <= self.entries.len(),
                forall|j: int| 0 <= j < i ==> self.entries[j].0@ != key@,
            decreases self.entries.len() - i,
        {
            if self.entries[i].0.same_key(key) {
                proof {
                    let keys = entry_keys(entry_views(self.entries@));
                    assert forall|j: int| 0 <= j < self.entries.len() && j != i implies self.entries[j].0@
                        != key@ by {
                        if self.entries[j].0@ == key@ {
                            assert(keys[j] == keys[i as int]);
                        }
                    }
                }
                return i;
            }
            i += 1;
        }
        i
    }

    /// The state recorded for `key`, if any.
    pub fn get(&self, key: &K) -> (out: Option<V>)
        requires
            self.wf(),
        ensures
            out == if self.map().contains_key(key@) {
                Some(self.map()[key@])
            } else {
                None::<V>
            },
    {
        let at = self.position_of(key);
        let ghost views = entry_views(self.entries@);
        if at < self.entries.len() {
            proof {
                assert(views[at as int].0 == key@);
                let i = choose|i: int| 0 <= i < views.len() && (#[trigger] views[i]).0 == key@;
                assert(self.entries[i].0@ == key@);
                assert(i == at);
            }
            Some(self.entries[at].1)
        } else {
            proof {
                if self.map().contains_key(key@) {
                    let i = choose|i: int| 0 <= i < views.len() && (#[trigger] views[i]).0 == key@;
                    assert(self.entries[i].0@ == key@);
                }
            }
            None
        }
    }

    /// Records `value` for `key` and returns what was recorded before.
    pub fn insert(&mut self, key: K, value: V) -> (out: Option<V>)
        requires
            old(self).wf(),
        ensures
            final(self).wf(),
            final(self).map() == old(self).map().insert(key@, value),
            out == if old(self).map().contains_key(key@) {
                Some(old(self).map()[key@])
            } else {
                None::<V>
            },
    {
        let prior = self.get(&key);
        let at = self.position_of(&key);
        let ghost before = entry_views(self.entries@);
        let ghost k = key@;
        if at < self.entries.len() {
            self.entries.set(at, (key, value));
        } else {
            self.entries.push((key, value));
        }
        proof {
            let after = entry_views(self.entries@);
            if at < before.len() {
                assert(after =~= before.update(at as int, (k, value)));
            } else {
                assert(after =~= before.push((k, value)));
            }
            assert(before.len() == old(self).entries@.len());
            assert forall|j: int| 0 <= j < before.len() && j != at implies (#[trigger] before[j]).0
                != k by {
                assert(old(self).entries[j].0@ != k);
            }
            assert forall|i: int, j: int|
                0 <= i < after.len() && 0 <= j < after.len() && i != j implies entry_keys(after)[i]
                != entry_keys(after)[j] by {
                let keys = entry_keys(before);
                if i != at && j != at {
                    assert(keys[i] != keys[j]);
                } else if i == at {
                    assert(after[j] == before[j]);
                } else {
                    assert(after[i] == before[i]);
                }
            }
            let m0 = entries_map(before);
            let m1 = entries_map(after);
            assert forall|q: K::V| #[trigger] m1.contains_key(q) <==> m0.insert(k, value).contains_key(q) by {
                if m1.contains_key(q) {
                    let i = choose|i: int| 0 <= i < after.len() && (#[trigger] after[i]).0 == q;
                    if i != at {
                        assert(before[i].0 == q);
                    }
                }
                if m0.contains_key(q) {
                    let i = choose|i: int| 0 <= i < before.len() && (#[trigger] before[i]).0 == q;
                    if i != at {
                        assert(after[i].0 == q);
                    } else {
                        assert(after[at as int].0 == q);
                    }
                }
                if q == k {
                    assert(after[at as int].0 == q);
                }
            }
            assert forall|q: K::V| #[trigger] m1.contains_key(q) implies m1[q] == m0.insert(k, value)[q] by {
                let i = choose|i: int| 0 <= i < after.len() && (#[trigger] after[i]).0 == q;
                if q == k {
                    if i != at {
                        assert(before[i].0 == k);
                    }
                } else {
                    assert(i != at);
                    assert(before[i] == after[i]);
                    let i0 = choose|i: int| 0 <= i < before.len() && (#[trigger] before[i]).0 == q;
                    assert(entry_keys(before)[i0] == entry_keys(before)[i]);
                }
            }
            assert(m1 =~= m0.insert(k, value));
        }
        prior
    }
}

} // verus!
