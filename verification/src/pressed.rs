//! Sets of keys that are currently held.

use vstd::prelude::*;
use crate::seqs::lemma_filter_no_duplicates;
use crate::seqs::lemma_filter_step;

verus! {

/// What a value needs to be kept in a [`PressedKeyMap`]: a view that says
/// which key it is, a test for the same key, and a copy.
pub trait Key: View + Sized {
    /// Whether `self` and `other` are the same key.
    fn same_key(&self, other: &Self) -> (same: bool)
        ensures
            same == (self@ == other@),
    ;

    /// A copy of the key.
    fn clone_key(&self) -> (out: Self)
        ensures
            out@ == self@,
    ;
}

/// The views of a sequence of keys.
pub open spec fn key_views<T: Key>(keys: Seq<T>) -> Seq<T::V> {
    keys.map_values(|k: T| k@)
}

/// `keys` with `key` added at the end, unless it is there already.
pub open spec fn with_key<K>(keys: Seq<K>, key: K) -> Seq<K> {
    if keys.contains(key) {
        keys
    } else {
        keys.push(key)
    }
}

/// `keys` without `key`.
pub open spec fn without_key<K>(keys: Seq<K>, key: K) -> Seq<K> {
    keys.filter(|k: K| k != key)
}

/// The keys among `keys` that occur in `cur`, in their order.
pub open spec fn kept_keys<K>(keys: Seq<K>, cur: Seq<K>) -> Seq<K> {
    keys.filter(|k: K| cur.contains(k))
}

/// The keys among `keys` that do not occur in `cur`, in their order.
pub open spec fn dropped_keys<K>(keys: Seq<K>, cur: Seq<K>) -> Seq<K> {
    keys.filter(|k: K| !cur.contains(k))
}

/// Index of `key` among `keys`, or the number of keys when it is not there.
pub fn position_of<T: Key>(keys: &Vec<T>, key: &T) -> (at: usize)
    ensures
        at <= keys.len(),
        at < keys.len() ==> keys[at as int]@ == key@,
        forall|j: int| 0 <= j < at ==> keys[j]@ != key@,
        at < keys.len() <==> key_views(keys@).contains(key@),
{
    let mut i: usize = 0;
    while i < keys.len()
        invariant
            i <= keys.len(),
            forall|j: int| 0 <= j < i ==> keys[j]@ != key@,
        decreases keys.len() - i,
    {
        if keys[i].same_key(key) {
            proof {
                assert(key_views(keys@)[i as int] == key@);
            }
            return i;
        }
        i += 1;
    }
    proof {
        if key_views(keys@).contains(key@) {
            let j = choose|j: int| 0 <= j < key_views(keys@).len() && key_views(keys@)[j] == key@;
            assert(keys[j]@ == key@);
        }
    }
    i
}

/// Removing the single occurrence of a key from a sequence without
/// duplicates is filtering by that key.
pub proof fn lemma_remove_is_filter<K>(keys: Seq<K>, at: int)
    requires
        keys.no_duplicates(),
        0 <= at < keys.len(),
    ensures
        keys.remove(at) == without_key(keys, keys[at]),
        keys.remove(at).no_duplicates(),
        !keys.remove(at).contains(keys[at]),
    decreases keys.len(),
{
    let key = keys[at];
    let pred = |k: K| k != key;
    let last = keys.len() - 1;
    reveal(Seq::filter);
    if at == last {
        let front = keys.drop_last();
        assert(keys.remove(at) =~= front);
        assert(front.filter(pred) == front) by {
            lemma_filter_all(front, key);
        }
    } else {
        let front = keys.drop_last();
        assert(front[at] == key);
        lemma_remove_is_filter(front, at);
        assert(keys.remove(at) =~= front.remove(at).push(keys[last]));
        assert(keys[last] != key);
    }
    assert(!keys.remove(at).contains(key)) by {
        if keys.remove(at).contains(key) {
            let j = choose|j: int| 0 <= j < keys.remove(at).len() && keys.remove(at)[j] == key;
            if j < at {
                assert(keys[j] == key);
            } else {
                assert(keys[j + 1] == key);
            }
        }
    }
}

/// Filtering out a key that does not occur changes nothing.
pub proof fn lemma_filter_all<K>(keys: Seq<K>, key: K)
    requires
        !keys.contains(key),
    ensures
        without_key(keys, key) == keys,
    decreases keys.len(),
{
    reveal(Seq::filter);
    if keys.len() > 0 {
        let front = keys.drop_last();
        assert(!front.contains(key)) by {
            if front.contains(key) {
                let j = choose|j: int| 0 <= j < front.len() && front[j] == key;
                assert(keys[j] == key);
            }
        }
        lemma_filter_all(front, key);
        assert(keys.last() != key);
        assert(front.push(keys.last()) =~= keys);
    }
}

/// The set of keys that are held, in the order in which they went down.
#[derive(Debug, Clone)]
pub struct PressedKeyMap<T: Key> {
    pressed_keys: Vec<T>,
}

impl<T: Key> PressedKeyMap<T> {
    /// The keys that are held, oldest first.
    pub closed spec fn keys(&self) -> Seq<T::V> {
        key_views(self.pressed_keys@)
    }

    /// Well-formedness: no key is held twice.
    pub open spec fn wf(&self) -> bool {
        self.keys().no_duplicates()
    }

    /// An empty set.
    pub fn new() -> (out: Self)
        ensures
            out.keys() == Seq::<T::V>::empty(),
            out.wf(),
    {
        let out = Self { pressed_keys: Vec::new() };
        proof {
            assert(key_views(out.pressed_keys@) =~= Seq::<T::V>::empty());
        }
        out
    }

    /// Copies of the keys that are held, oldest first.
    pub fn pressed_keys(&self) -> (out: Vec<T>)
        ensures
            key_views(out@) == self.keys(),
    {
        let mut out: Vec<T> = Vec::new();
        let mut i: usize = 0;
        while i < self.pressed_keys.len()
            invariant
                i <= self.pressed_keys.len(),
                key_views(out@) == key_views(self.pressed_keys@).subrange(0, i as int),
            decreases self.pressed_keys.len() - i,
        {
            let ghost before = out@;
            out.push(self.pressed_keys[i].clone_key());
            proof {
                assert(key_views(out@) =~= key_views(before).push(self.pressed_keys[i as int]@));
                assert(key_views(out@) =~= key_views(self.pressed_keys@).subrange(0, i + 1));
            }
            i += 1;
        }
        proof {
            assert(key_views(self.pressed_keys@).subrange(0, i as int) =~= key_views(
                self.pressed_keys@,
            ));
        }
        out
    }

    /// Number of keys that are held.
    pub fn len(&self) -> (out: usize)
        ensures
            out == self.keys().len(),
    {
        self.pressed_keys.len()
    }

    /// Whether `key` is held.
    pub fn contains(&self, key: &T) -> (out: bool)
        ensures
            out == self.keys().contains(key@),
    {
        position_of(&self.pressed_keys, key) < self.pressed_keys.len()
    }

    /// Records that `key` went down. A key that is held already stays where
    /// it is.
    pub fn key_pressed(&mut self, key: &T)
        requires
            old(self).wf(),
        ensures
            final(self).wf(),
            final(self).keys() == with_key(old(self).keys(), key@),
    {
        if position_of(&self.pressed_keys, key) >= self.pressed_keys.len() {
            let ghost before = self.pressed_keys@;
            self.pressed_keys.push(key.clone_key());
            proof {
                assert(key_views(self.pressed_keys@) =~= key_views(before).push(key@));
            }
        }
    }

    /// Records that `key` went up. A key that is not held changes nothing.
    pub fn key_released(&mut self, key: &T)
        requires
            old(self).wf(),
        ensures
            final(self).wf(),
            final(self).keys() == without_key(old(self).keys(), key@),
    {
        let at = position_of(&self.pressed_keys, key);
        if at < self.pressed_keys.len() {
            let ghost before = self.pressed_keys@;
            self.pressed_keys.remove(at);
            proof {
                assert(key_views(self.pressed_keys@) =~= key_views(before).remove(at as int));
                lemma_remove_is_filter(key_views(before), at as int);
            }
        } else {
            proof {
                lemma_filter_all(key_views(self.pressed_keys@), key@);
            }
        }
    }

    /// Keeps the held keys that occur in `cur` and hands back the others,
    /// both in the order in which they were held.
    pub fn retain_in(&mut self, cur: &Vec<T>) -> (dropped: Vec<T>)
        requires
            old(self).wf(),
        ensures
            final(self).wf(),
            final(self).keys() == kept_keys(old(self).keys(), key_views(cur@)),
            key_views(dropped@) == dropped_keys(old(self).keys(), key_views(cur@)),
    {
        let ghost all = key_views(self.pressed_keys@);
        let ghost now = key_views(cur@);
        let ghost keep = |k: T::V| now.contains(k);
        let ghost drop = |k: T::V| !now.contains(k);
        let mut kept: Vec<T> = Vec::new();
        let mut dropped: Vec<T> = Vec::new();
        let mut i: usize = 0;
        proof {
            assert(all.subrange(0, 0).filter(keep) =~= key_views(kept@)) by {
                reveal(Seq::filter);
            }
            assert(all.subrange(0, 0).filter(drop) =~= key_views(dropped@)) by {
                reveal(Seq::filter);
            }
        }
        while i < self.pressed_keys.len()
            invariant
                i <= self.pressed_keys.len(),
                all == key_views(self.pressed_keys@),
                now == key_views(cur@),
                keep == (|k: T::V| now.contains(k)),
                drop == (|k: T::V| !now.contains(k)),
                key_views(kept@) == all.subrange(0, i as int).filter(keep),
                key_views(dropped@) == all.subrange(0, i as int).filter(drop),
            decreases self.pressed_keys.len() - i,
        {
            let ghost kept_before = kept@;
            let ghost dropped_before = dropped@;
            proof {
                lemma_filter_step(all, keep, i as int);
                lemma_filter_step(all, drop, i as int);
                assert(all[i as int] == self.pressed_keys[i as int]@);
            }
            let key = self.pressed_keys[i].clone_key();
            if position_of(cur, &key) < cur.len() {
                kept.push(key);
                proof {
                    assert(key_views(kept@) =~= key_views(kept_before).push(key@));
                }
            } else {
                dropped.push(key);
                proof {
                    assert(key_views(dropped@) =~= key_views(dropped_before).push(key@));
                }
            }
            i += 1;
        }
        proof {
            assert(all.subrange(0, i as int) =~= all);
            lemma_filter_no_duplicates(all, keep);
        }
        self.pressed_keys = kept;
        dropped
    }
}

} // verus!
