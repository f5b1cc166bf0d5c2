//! Stable sorting as the standard library's `sort_by` does it: the specification, and
//! the facts about it that the listings rely on.

use vstd::prelude::*;

verus! {

/// The stable insertion of `x` into `s`: after every element that may come before it.
pub open spec fn insert_stable<T>(s: Seq<T>, x: T, le: spec_fn(T, T) -> bool) -> Seq<T>
    decreases s.len(),
{
    if s.len() == 0 {
        seq![x]
    } else if le(s.last(), x) {
        s.push(x)
    } else {
        insert_stable(s.drop_last(), x, le).push(s.last())
    }
}

/// A stable sort: elements that compare equal keep their order.
pub open spec fn stable_sort<T>(s: Seq<T>, le: spec_fn(T, T) -> bool) -> Seq<T>
    decreases s.len(),
{
    if s.len() == 0 {
        s
    } else {
        insert_stable(stable_sort(s.drop_last(), le), s.last(), le)
    }
}

/// Inserting after the last element that may come before `x`: the elements past `j`, none
/// of which may come before `x`, stay after it.
pub proof fn lemma_insert_stable_split<T>(s: Seq<T>, x: T, le: spec_fn(T, T) -> bool, j: int)
    requires
        0 <= j <= s.len(),
        forall|k: int| j <= k < s.len() ==> !le(#[trigger] s[k], x),
    ensures
        insert_stable(s, x, le) == insert_stable(s.take(j), x, le) + s.skip(j),
    decreases s.len() - j,
{
    if j == s.len() {
        assert(s.take(j) == s);
        assert(s.skip(j) =~= Seq::<T>::empty());
        assert(insert_stable(s, x, le) + Seq::<T>::empty() =~= insert_stable(s, x, le));
    } else {
        let d = s.drop_last();
        assert(!le(s[s.len() - 1], x));
        lemma_insert_stable_split(d, x, le, j);
        assert(d.take(j) == s.take(j));
        assert(d.skip(j).push(s.last()) =~= s.skip(j));
        assert((insert_stable(s.take(j), x, le) + d.skip(j)).push(s.last()) =~= insert_stable(
            s.take(j),
            x,
            le,
        ) + s.skip(j));
    }
}

/// Whether `le` orders every two elements one way or the other.
pub open spec fn total_on<T>(le: spec_fn(T, T) -> bool) -> bool {
    forall|a: T, b: T| #[trigger] le(a, b) || le(b, a)
}

/// Whether `le` is transitive.
pub open spec fn transitive_on<T>(le: spec_fn(T, T) -> bool) -> bool {
    forall|a: T, b: T, c: T| #[trigger] le(a, b) && #[trigger] le(b, c) ==> le(a, c)
}

/// Whether every element may come before every later one.
pub open spec fn sorted_by<T>(s: Seq<T>, le: spec_fn(T, T) -> bool) -> bool {
    forall|i: int, j: int| 0 <= i < j < s.len() ==> le(#[trigger] s[i], #[trigger] s[j])
}

/// Inserting into a sorted sequence keeps it sorted and adds exactly the new element.
pub proof fn lemma_insert_stable_sorted<T>(s: Seq<T>, x: T, le: spec_fn(T, T) -> bool)
    requires
        total_on(le),
        transitive_on(le),
        sorted_by(s, le),
    ensures
        sorted_by(insert_stable(s, x, le), le),
        insert_stable(s, x, le).to_multiset() == s.to_multiset().insert(x),
        insert_stable(s, x, le).len() == s.len() + 1,
    decreases s.len(),
{
    broadcast use vstd::seq_lib::group_to_multiset_ensures;
    if s.len() == 0 {
        assert(seq![x] == Seq::<T>::empty().push(x));
    } else if le(s.last(), x) {
        let r = s.push(x);
        assert forall|i: int, j: int| 0 <= i < j < r.len() implies le(#[trigger] r[i], #[trigger] r[j]) by {
            if j == s.len() {
                if i < s.len() - 1 {
                    assert(le(s[i], s[s.len() - 1]));
                }
            } else {
                assert(r[i] == s[i] && r[j] == s[j]);
            }
        }
    } else {
        let d = s.drop_last();
        let l = s.last();
        assert(le(x, l));
        assert(sorted_by(d, le));
        lemma_insert_stable_sorted(d, x, le);
        let m = insert_stable(d, x, le);
        let r = m.push(l);
        assert forall|k: int| 0 <= k < m.len() implies le(#[trigger] m[k], l) by {
            assert(m.to_multiset().count(m[k]) > 0);
            assert(m.to_multiset() == d.to_multiset().insert(x));
            if m[k] != x {
                assert(d.to_multiset().count(m[k]) > 0);
                assert(d.contains(m[k]));
                let t = choose|t: int| 0 <= t < d.len() && d[t] == m[k];
                assert(s[t] == d[t]);
                assert(le(s[t], s[s.len() - 1]));
            }
        }
        assert forall|i: int, j: int| 0 <= i < j < r.len() implies le(#[trigger] r[i], #[trigger] r[j]) by {
            if j == m.len() {
                assert(le(m[i], l));
            } else {
                assert(r[i] == m[i] && r[j] == m[j]);
            }
        }
        assert(d.push(l) == s);
        assert(s.to_multiset() == d.to_multiset().insert(l));
        assert(r.to_multiset() == m.to_multiset().insert(l));
        assert(r.to_multiset() =~= s.to_multiset().insert(x));
    }
}

/// The stable sort is sorted and holds exactly the elements it was given.
pub proof fn lemma_stable_sort_sorted<T>(s: Seq<T>, le: spec_fn(T, T) -> bool)
    requires
        total_on(le),
        transitive_on(le),
    ensures
        sorted_by(stable_sort(s, le), le),
        stable_sort(s, le).to_multiset() == s.to_multiset(),
        stable_sort(s, le).len() == s.len(),
    decreases s.len(),
{
    broadcast use vstd::seq_lib::group_to_multiset_ensures;
    if s.len() > 0 {
        let d = s.drop_last();
        lemma_stable_sort_sorted(d, le);
        lemma_insert_stable_sorted(stable_sort(d, le), s.last(), le);
        assert(d.push(s.last()) == s);
    }
}

} // verus!
