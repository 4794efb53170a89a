//! Facts about filtering and counting in sequences.

use vstd::prelude::*;

verus! {

/// Number of occurrences of `x` in `s`.
pub open spec fn count_of<A>(s: Seq<A>, x: A) -> nat
    decreases s.len(),
{
    if s.len() == 0 {
        0
    } else {
        count_of(s.drop_last(), x) + if s.last() == x {
            1nat
        } else {
            0nat
        }
    }
}

/// Filtering one item more keeps it exactly when the predicate holds of it.
pub proof fn lemma_filter_step<A>(s: Seq<A>, pred: spec_fn(A) -> bool, i: int)
    requires
        0 <= i < s.len(),
    ensures
        s.subrange(0, i + 1).filter(pred) == if pred(s[i]) {
            s.subrange(0, i).filter(pred).push(s[i])
        } else {
            s.subrange(0, i).filter(pred)
        },
{
    reveal(Seq::filter);
    assert(s.subrange(0, i + 1).drop_last() =~= s.subrange(0, i));
}

/// What a filtered sequence holds: the items of the sequence of which the
/// predicate holds.
pub proof fn lemma_filter_members<A>(s: Seq<A>, pred: spec_fn(A) -> bool)
    ensures
        forall|x: A| #[trigger] s.filter(pred).contains(x) <==> s.contains(x) && pred(x),
    decreases s.len(),
{
    reveal(Seq::filter);
    if s.len() > 0 {
        let front = s.drop_last();
        lemma_filter_members(front, pred);
        assert forall|x: A| #[trigger] s.filter(pred).contains(x) <==> s.contains(x) && pred(x) by {
            let f = s.filter(pred);
            if f.contains(x) {
                let j = choose|j: int| 0 <= j < f.len() && f[j] == x;
                if pred(s.last()) && j == f.len() - 1 {
                    assert(s[s.len() - 1] == x);
                } else {
                    assert(front.filter(pred)[j] == x);
                    assert(front.filter(pred).contains(x));
                    let k = choose|k: int| 0 <= k < front.len() && front[k] == x;
                    assert(s[k] == x);
                }
            }
            if s.contains(x) && pred(x) {
                let k = choose|k: int| 0 <= k < s.len() && s[k] == x;
                if k == s.len() - 1 {
                    assert(f[f.len() - 1] == x);
                } else {
                    assert(front[k] == x);
                    assert(front.filter(pred).contains(x));
                    let j = choose|j: int| 0 <= j < front.filter(pred).len() && front.filter(pred)[j] == x;
                    assert(f[j] == x);
                }
            }
        }
    } else {
        assert(s.filter(pred) =~= s);
    }
}

/// Filtering a sequence without duplicates leaves no duplicates.
pub proof fn lemma_filter_no_duplicates<A>(s: Seq<A>, pred: spec_fn(A) -> bool)
    requires
        s.no_duplicates(),
    ensures
        s.filter(pred).no_duplicates(),
    decreases s.len(),
{
    reveal(Seq::filter);
    if s.len() > 0 {
        let front = s.drop_last();
        lemma_filter_no_duplicates(front, pred);
        lemma_filter_members(front, pred);
        if pred(s.last()) {
            if front.filter(pred).contains(s.last()) {
                let k = choose|k: int| 0 <= k < front.len() && front[k] == s.last();
                assert(s[k] == s[s.len() - 1]);
            }
        }
    }
}

/// An item that does not occur is counted zero times.
pub proof fn lemma_count_absent<A>(s: Seq<A>, x: A)
    requires
        !s.contains(x),
    ensures
        count_of(s, x) == 0,
    decreases s.len(),
{
    if s.len() > 0 {
        assert(s[s.len() - 1] != x);
        assert forall|j: int| 0 <= j < s.drop_last().len() implies s.drop_last()[j] != x by {
            assert(s[j] != x);
        }
        lemma_count_absent(s.drop_last(), x);
    }
}

/// An item that occurs in a sequence without duplicates is counted once.
pub proof fn lemma_count_unique<A>(s: Seq<A>, x: A)
    requires
        s.no_duplicates(),
        s.contains(x),
    ensures
        count_of(s, x) == 1,
    decreases s.len(),
{
    let front = s.drop_last();
    if s.last() == x {
        assert forall|j: int| 0 <= j < front.len() implies front[j] != x by {
            assert(s[j] != s[s.len() - 1]);
        }
        lemma_count_absent(front, x);
    } else {
        let k = choose|k: int| 0 <= k < s.len() && s[k] == x;
        assert(front[k] == x);
        lemma_count_unique(front, x);
    }
}

/// Counting in a concatenation adds the counts.
pub proof fn lemma_count_add<A>(a: Seq<A>, b: Seq<A>, x: A)
    ensures
        count_of(a + b, x) == count_of(a, x) + count_of(b, x),
    decreases b.len(),
{
    if b.len() == 0 {
        assert(a + b =~= a);
    } else {
        assert((a + b).drop_last() =~= a + b.drop_last());
        lemma_count_add(a, b.drop_last(), x);
    }
}

/// Counting after a push adds one when the pushed item is the counted one.
pub proof fn lemma_count_push<A>(s: Seq<A>, y: A, x: A)
    ensures
        count_of(s.push(y), x) == count_of(s, x) + if y == x {
            1nat
        } else {
            0nat
        },
{
    assert(s.push(y).drop_last() =~= s);
}

/// Counting survives a mapping that tells different items apart.
pub proof fn lemma_count_map<A, B>(s: Seq<A>, f: spec_fn(A) -> B, x: A)
    requires
        forall|a: A, b: A| #[trigger] f(a) == #[trigger] f(b) ==> a == b,
    ensures
        count_of(s.map_values(f), f(x)) == count_of(s, x),
    decreases s.len(),
{
    if s.len() > 0 {
        assert(s.map_values(f).drop_last() =~= s.drop_last().map_values(f));
        lemma_count_map(s.drop_last(), f, x);
        assert(s.map_values(f).last() == f(s.last()));
    }
}

/// An item that no mapped item equals is counted zero times.
pub proof fn lemma_count_map_other<A, B>(s: Seq<A>, f: spec_fn(A) -> B, y: B)
    requires
        forall|a: A| #[trigger] f(a) != y,
    ensures
        count_of(s.map_values(f), y) == 0,
    decreases s.len(),
{
    if s.len() > 0 {
        assert(s.map_values(f).drop_last() =~= s.drop_last().map_values(f));
        lemma_count_map_other(s.drop_last(), f, y);
        assert(s.map_values(f).last() == f(s.last()));
    }
}

/// An item is counted once in a sequence without duplicates that holds it,
/// and zero times in any sequence that does not.
pub proof fn lemma_count_in_set<A>(s: Seq<A>, x: A)
    requires
        s.no_duplicates(),
    ensures
        count_of(s, x) == if s.contains(x) {
            1nat
        } else {
            0nat
        },
{
    if s.contains(x) {
        lemma_count_unique(s, x);
    } else {
        lemma_count_absent(s, x);
    }
}

} // verus!
