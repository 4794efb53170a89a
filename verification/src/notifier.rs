//! The registry behind event fan-out.
//!
//! Whoever registers a callback gets a [`CallbackGuard`]; the callback lives
//! as long as its guard. The registry keeps, in the order of registration,
//! one entry per callback that says whether its guard is still around. To
//! notify is to drop the entries whose guards are gone and to name the
//! remaining callbacks, in order, as those to call.

use vstd::prelude::*;
use crate::seqs::lemma_filter_members;
use crate::seqs::lemma_filter_step;

verus! {

/// The handle that keeps a registered callback alive.
#[derive(Debug, PartialEq, Eq)]
pub struct CallbackGuard {
    id: u64,
}

impl CallbackGuard {
    /// The identity of the callback that the guard keeps alive.
    pub closed spec fn spec_id(&self) -> u64 {
        self.id
    }

    /// The identity of the callback that the guard keeps alive.
    pub fn id(&self) -> (out: u64)
        ensures
            out == self.spec_id(),
    {
        self.id
    }
}

/// An entry of the registry.
#[derive(Debug, Clone, Copy, PartialEq, Eq, Structural)]
pub struct Subscriber {
    /// The identity of the callback.
    pub id: u64,
    /// Whether the callback's guard is still around.
    pub alive: bool,
}

/// The entries whose guards are still around, in order.
pub open spec fn live(entries: Seq<Subscriber>) -> Seq<Subscriber> {
    entries.filter(|s: Subscriber| s.alive)
}

/// The identities of the entries, in order.
pub open spec fn ids_of(entries: Seq<Subscriber>) -> Seq<u64> {
    entries.map_values(|s: Subscriber| s.id)
}

/// The entries after the guard of `id` is gone.
pub open spec fn released(entries: Seq<Subscriber>, id: u64) -> Seq<Subscriber> {
    entries.map_values(
        |s: Subscriber|
            if s.id == id {
                Subscriber { id: s.id, alive: false }
            } else {
                s
            },
    )
}

/// The identities of the callbacks to call, in order: those of the entries
/// whose guards are still around.
pub open spec fn delivery(entries: Seq<Subscriber>) -> Seq<u64> {
    ids_of(live(entries))
}

/// The registry of callbacks.
#[derive(Debug)]
pub struct Notifier {
    subscribers: Vec<Subscriber>,
    next_id: u64,
}

impl Notifier {
    /// The entries, in the order of registration.
    pub closed spec fn entries(&self) -> Seq<Subscriber> {
        self.subscribers@
    }

    /// The identity that the next registration gets.
    pub closed spec fn next_id(&self) -> u64 {
        self.next_id
    }

    /// Well-formedness: every entry's identity was handed out before, and
    /// the identities grow in the order of registration.
    pub open spec fn wf(&self) -> bool {
        &&& forall|i: int|
            0 <= i < self.entries().len() ==> (#[trigger] self.entries()[i]).id < self.next_id()
        &&& forall|i: int, j: int|
            0 <= i < j < self.entries().len() ==> (#[trigger] self.entries()[i]).id < (
            #[trigger] self.entries()[j]).id
    }

    /// A registry without entries.
    pub fn new() -> (out: Self)
        ensures
            out.wf(),
            out.entries() == Seq::<Subscriber>::empty(),
            out.next_id() == 0,
    {
        Self { subscribers: Vec::new(), next_id: 0 }
    }

    /// Registers a callback: adds a live entry with a new identity at the
    /// end and returns its guard. Nothing is registered once every
    /// identity has been handed out.
    pub fn register(&mut self) -> (out: Option<CallbackGuard>)
        requires
            old(self).wf(),
        ensures
            final(self).wf(),
            out is Some <==> old(self).next_id() < u64::MAX,
            out is Some ==> {
                &&& out->0.spec_id() == old(self).next_id()
                &&& final(self).next_id() == old(self).next_id() + 1
                &&& final(self).entries() == old(self).entries().push(
                    Subscriber { id: old(self).next_id(), alive: true },
                )
            },
            out is None ==> final(self).entries() == old(self).entries() && final(self).next_id() == old(
                self,
            ).next_id(),
    {
        if self.next_id == u64::MAX {
            return None;
        }
        let id = self.next_id;
        self.subscribers.push(Subscriber { id, alive: true });
        self.next_id = id + 1;
        proof {
            let before = old(self).entries();
            let after = self.entries();
            assert forall|i: int| 0 <= i < after.len() implies (#[trigger] after[i]).id < self.next_id() by {
                if i < before.len() {
                    assert(after[i] == before[i]);
                }
            }
            assert forall|i: int, j: int| 0 <= i < j < after.len() implies (#[trigger] after[i]).id < (
            #[trigger] after[j]).id by {
                assert(after[i] == before[i]);
                if j < before.len() {
                    assert(after[j] == before[j]);
                }
            }
        }
        Some(CallbackGuard { id })
    }

    /// Records that a guard is gone: its callback will not be called again.
    pub fn release(&mut self, guard: CallbackGuard)
        requires
            old(self).wf(),
        ensures
            final(self).wf(),
            final(self).next_id() == old(self).next_id(),
            final(self).entries() == released(old(self).entries(), guard.spec_id()),
    {
        let ghost before = self.subscribers@;
        let mut i: usize = 0;
        while i < self.subscribers.len()
            invariant
                i <= self.subscribers.len(),
                self.subscribers.len() == before.len(),
                self.next_id == old(self).next_id,
                forall|j: int| 0 <= j < i ==> self.subscribers[j] == released(before, guard.id)[j],
                forall|j: int| i <= j < before.len() ==> self.subscribers[j] == before[j],
            decreases self.subscribers.len() - i,
        {
            let entry = self.subscribers[i];
            if entry.id == guard.id {
                self.subscribers.set(i, Subscriber { id: entry.id, alive: false });
            }
            i += 1;
        }
        proof {
            assert(self.subscribers@ =~= released(before, guard.id));
            let after = self.entries();
            assert forall|i: int| 0 <= i < after.len() implies (#[trigger] after[i]).id == before[i].id by {}
            assert forall|i: int| 0 <= i < after.len() implies (#[trigger] after[i]).id < self.next_id() by {
                assert(old(self).entries()[i].id < old(self).next_id());
            }
            assert forall|i: int, j: int| 0 <= i < j < after.len() implies (#[trigger] after[i]).id < (
            #[trigger] after[j]).id by {
                assert(old(self).entries()[i].id < old(self).entries()[j].id);
            }
        }
    }

    /// Drops the entries whose guards are gone and names the callbacks to
    /// call: the remaining ones, in the order of registration.
    pub fn notify(&mut self) -> (out: Vec<u64>)
        requires
            old(self).wf(),
        ensures
            final(self).wf(),
            final(self).next_id() == old(self).next_id(),
            final(self).entries() == live(old(self).entries()),
            out@ == delivery(old(self).entries()),
    {
        let ghost before = self.subscribers@;
        let ghost alive = |s: Subscriber| s.alive;
        let mut kept: Vec<Subscriber> = Vec::new();
        let mut out: Vec<u64> = Vec::new();
        proof {
            assert(before.subrange(0, 0).filter(alive) =~= kept@) by {
                reveal(Seq::filter);
            }
            assert(ids_of(kept@) =~= out@);
        }
        let mut i: usize = 0;
        while i < self.subscribers.len()
            invariant
                i <= self.subscribers.len(),
                self.subscribers@ == before,
                self.next_id == old(self).next_id,
                old(self).wf(),
                before == old(self).entries(),
                alive == (|s: Subscriber| s.alive),
                kept@ == before.subrange(0, i as int).filter(alive),
                out@ == ids_of(kept@),
                forall|j: int| 0 <= j < kept.len() ==> (#[trigger] kept[j]).id < self.next_id,
                forall|j: int| 0 <= j < kept.len() && i < before.len() ==> (#[trigger] kept[j]).id < before[i as int].id,
                forall|j: int, k: int| 0 <= j < k < kept.len() ==> (#[trigger] kept[j]).id < (#[trigger] kept[k]).id,
            decreases self.subscribers.len() - i,
        {
            proof {
                lemma_filter_step(before, alive, i as int);
            }
            let entry = self.subscribers[i];
            if entry.alive {
                let ghost kept_before = kept@;
                kept.push(entry);
                out.push(entry.id);
                proof {
                    assert(ids_of(kept@) =~= ids_of(kept_before).push(entry.id));
                    assert(before[i as int].id < self.next_id);
                }
            }
            proof {
                if i + 1 < before.len() {
                    assert(before[i as int].id < before[i + 1].id);
                }
            }
            i += 1;
        }
        proof {
            assert(before.subrange(0, i as int) =~= before);
        }
        self.subscribers = kept;
        out
    }

    /// Number of entries.
    pub fn len(&self) -> (out: usize)
        ensures
            out == self.entries().len(),
    {
        self.subscribers.len()
    }
}

/// The identities to deliver to after a guard is gone: those from before,
/// in their order, without the guard's.
pub proof fn lemma_released_delivery(entries: Seq<Subscriber>, id: u64)
    ensures
        delivery(released(entries, id)) == delivery(entries).filter(|x: u64| x != id),
    decreases entries.len(),
{
    reveal(Seq::filter);
    let alive = |s: Subscriber| s.alive;
    let other = |x: u64| x != id;
    if entries.len() == 0 {
        assert(released(entries, id) =~= entries);
        assert(delivery(entries) =~= Seq::<u64>::empty());
    } else {
        let front = entries.drop_last();
        let last = entries.last();
        lemma_released_delivery(front, id);
        assert(released(entries, id).drop_last() =~= released(front, id));
        let r = released(entries, id);
        assert(r.last() == if last.id == id {
            Subscriber { id: last.id, alive: false }
        } else {
            last
        });
        if last.alive {
            assert(live(entries) == live(front).push(last));
            assert(delivery(entries) =~= delivery(front).push(last.id));
            assert(delivery(entries).drop_last() =~= delivery(front));
            if last.id == id {
                assert(live(r) == live(released(front, id)));
            } else {
                assert(live(r) == live(released(front, id)).push(last));
                assert(delivery(r) =~= delivery(released(front, id)).push(last.id));
            }
        } else {
            assert(live(entries) == live(front));
            assert(live(r) == live(released(front, id)));
        }
    }
}

/// A callback whose guard is gone is not called: after the guard of `id`
/// is released, notifying delivers to the callbacks that it delivered to
/// before, in the same order, except the one of `id`.
pub proof fn lemma_dropped_guard_is_silent(entries: Seq<Subscriber>, id: u64)
    ensures
        !delivery(released(entries, id)).contains(id),
        forall|x: u64|
            x != id ==> (delivery(released(entries, id)).contains(x) <==> delivery(entries).contains(x)),
        delivery(released(entries, id)) == delivery(entries).filter(|x: u64| x != id),
{
    let other = |x: u64| x != id;
    lemma_released_delivery(entries, id);
    lemma_filter_members(delivery(entries), other);
}

} // verus!
