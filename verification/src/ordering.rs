//! Stable ordering of sequences.

use vstd::prelude::*;

verus! {

/// The views of the elements of a sequence.
pub open spec fn views<T: View>(s: Seq<T>) -> Seq<T::V> {
    s.map_values(|x: T| x@)
}

/// `x` put into `s` behind every element that may stand before it.
pub open spec fn placed<A>(s: Seq<A>, x: A, before: spec_fn(A, A) -> bool) -> Seq<A>
    decreases s.len(),
{
    if s.len() == 0 || before(s.last(), x) {
        s.push(x)
    } else {
        placed(s.drop_last(), x, before).push(s.last())
    }
}

/// The elements of `s` in order; those that may stand on either side of each other keep the order
/// they have in `s`.
pub open spec fn ordered<A>(s: Seq<A>, before: spec_fn(A, A) -> bool) -> Seq<A>
    decreases s.len(),
{
    if s.len() == 0 {
        s
    } else {
        placed(ordered(s.drop_last(), before), s.last(), before)
    }
}

/// Every element may stand before each that follows it.
pub open spec fn is_ordered<A>(s: Seq<A>, before: spec_fn(A, A) -> bool) -> bool {
    forall|i: int, j: int| 0 <= i < j < s.len() ==> before(#[trigger] s[i], #[trigger] s[j])
}

/// Any two elements may stand one before the other, and so may what follows through a third.
pub open spec fn is_preorder<A>(before: spec_fn(A, A) -> bool) -> bool {
    &&& forall|a: A, b: A| #[trigger] before(a, b) || before(b, a)
    &&& forall|a: A, b: A, c: A| #[trigger]
        before(a, b) && #[trigger] before(b, c) ==> before(a, c)
}

/// The elements that may stand on either side of `x`.
pub open spec fn level_with<A>(s: Seq<A>, x: A, before: spec_fn(A, A) -> bool) -> Seq<A> {
    s.filter(|y: A| before(x, y) && before(y, x))
}

/// `t` is `s` in order, with elements of one level in the order they have in `s`.
pub open spec fn is_stable_ordering<A>(
    s: Seq<A>,
    t: Seq<A>,
    before: spec_fn(A, A) -> bool,
) -> bool {
    &&& is_ordered(t, before)
    &&& t.to_multiset() == s.to_multiset()
    &&& forall|x: A| #[trigger] level_with(t, x, before) == level_with(s, x, before)
}

/// Putting an element in at the place the search from the end finds.
pub proof fn placing_is_inserting<A>(s: Seq<A>, x: A, before: spec_fn(A, A) -> bool, k: int)
    requires
        0 <= k <= s.len(),
        k > 0 ==> before(s[k - 1], x),
        forall|j: int| k <= j < s.len() ==> !before(#[trigger] s[j], x),
    ensures
        placed(s, x, before) == s.insert(k, x),
    decreases s.len(),
{
    if s.len() == 0 || before(s.last(), x) {
        if s.len() > 0 && k < s.len() {
            assert(!before(s[s.len() - 1], x));
        }
        assert(k == s.len());
        assert(s.insert(k, x) =~= s.push(x));
    } else {
        if k == s.len() {
            assert(before(s[k - 1], x));
        }
        let rest = s.drop_last();
        assert forall|j: int| k <= j < rest.len() implies !before(#[trigger] rest[j], x) by {
            assert(!before(s[j], x));
        }
        placing_is_inserting(rest, x, before, k);
        assert(rest.insert(k, x).push(s.last()) =~= s.insert(k, x));
    }
}

proof fn placing_keeps_elements<A>(s: Seq<A>, x: A, before: spec_fn(A, A) -> bool)
    ensures
        placed(s, x, before).to_multiset() == s.to_multiset().insert(x),
        placed(s, x, before).len() == s.len() + 1,
    decreases s.len(),
{
    broadcast use vstd::seq_lib::group_to_multiset_ensures;

    if s.len() == 0 || before(s.last(), x) {
        assert(s.push(x).to_multiset() =~= s.to_multiset().insert(x));
    } else {
        let rest = s.drop_last();
        placing_keeps_elements(rest, x, before);
        assert(s =~= rest.push(s.last()));
        let put = placed(rest, x, before);
        assert(put.push(s.last()).to_multiset() =~= put.to_multiset().insert(s.last()));
        assert(s.to_multiset() =~= rest.to_multiset().insert(s.last()));
        assert(rest.to_multiset().insert(x).insert(s.last()) =~= rest.to_multiset().insert(
            s.last(),
        ).insert(x));
    }
}

proof fn placing_keeps_order<A>(s: Seq<A>, x: A, before: spec_fn(A, A) -> bool)
    requires
        is_preorder(before),
        is_ordered(s, before),
    ensures
        is_ordered(placed(s, x, before), before),
        forall|i: int|
            0 <= i < placed(s, x, before).len() ==> #[trigger] placed(s, x, before)[i] == x
                || s.contains(placed(s, x, before)[i]),
    decreases s.len(),
{
    let put = placed(s, x, before);
    if s.len() == 0 || before(s.last(), x) {
        assert forall|i: int, j: int| 0 <= i < j < put.len() implies before(
            #[trigger] put[i],
            #[trigger] put[j],
        ) by {
            if j == s.len() {
                if i < s.len() - 1 {
                    assert(before(s[i], s[s.len() - 1]));
                    assert(before(s.last(), x));
                }
            } else {
                assert(before(s[i], s[j]));
            }
        }
        assert forall|i: int| 0 <= i < put.len() implies #[trigger] put[i] == x || s.contains(
            put[i],
        ) by {
            if i < s.len() {
                assert(put[i] == s[i]);
            }
        }
    } else {
        let rest = s.drop_last();
        assert(is_ordered(rest, before)) by {
            assert forall|i: int, j: int| 0 <= i < j < rest.len() implies before(
                #[trigger] rest[i],
                #[trigger] rest[j],
            ) by {
                assert(before(s[i], s[j]));
            }
        }
        placing_keeps_order(rest, x, before);
        let inner = placed(rest, x, before);
        assert forall|i: int, j: int| 0 <= i < j < put.len() implies before(
            #[trigger] put[i],
            #[trigger] put[j],
        ) by {
            if j == inner.len() {
                assert(put[i] == inner[i]);
                assert(before(x, s.last()));
                if inner[i] != x {
                    assert(rest.contains(inner[i]));
                    let m = choose|m: int| 0 <= m < rest.len() && rest[m] == inner[i];
                    assert(before(s[m], s[s.len() - 1]));
                }
            } else {
                assert(before(inner[i], inner[j]));
            }
        }
        assert forall|i: int| 0 <= i < put.len() implies #[trigger] put[i] == x || s.contains(
            put[i],
        ) by {
            if i < inner.len() {
                assert(put[i] == inner[i]);
                if inner[i] != x {
                    let m = choose|m: int| 0 <= m < rest.len() && rest[m] == inner[i];
                    assert(s[m] == inner[i]);
                }
            } else {
                assert(put[i] == s[s.len() - 1]);
            }
        }
    }
}

/// Filtering a sequence that grew by one element.
pub proof fn filtering_a_push<A>(s: Seq<A>, x: A, keep: spec_fn(A) -> bool)
    ensures
        s.push(x).filter(keep) == if keep(x) {
            s.filter(keep).push(x)
        } else {
            s.filter(keep)
        },
{
    reveal(Seq::filter);
    assert(s.push(x).drop_last() =~= s);
}

proof fn placing_keeps_levels<A>(s: Seq<A>, x: A, before: spec_fn(A, A) -> bool, y: A)
    requires
        is_preorder(before),
    ensures
        level_with(placed(s, x, before), y, before) == level_with(s.push(x), y, before),
    decreases s.len(),
{
    if !(s.len() == 0 || before(s.last(), x)) {
        let keep = |z: A| before(y, z) && before(z, y);
        let rest = s.drop_last();
        placing_keeps_levels(rest, x, before, y);
        filtering_a_push(placed(rest, x, before), s.last(), keep);
        filtering_a_push(rest, x, keep);
        filtering_a_push(rest, s.last(), keep);
        filtering_a_push(s, x, keep);
        assert(rest.push(s.last()) =~= s);
        // The last element and `x` are not level, so at most one of them is kept.
        assert(!(keep(x) && keep(s.last()))) by {
            if keep(x) && keep(s.last()) {
                assert(before(s.last(), y) && before(y, x));
            }
        }
    }
}

/// Ordering yields the elements in order and keeps the given order within each level.
pub proof fn ordering_is_stable<A>(s: Seq<A>, before: spec_fn(A, A) -> bool)
    requires
        is_preorder(before),
    ensures
        is_stable_ordering(s, ordered(s, before), before),
        ordered(s, before).len() == s.len(),
    decreases s.len(),
{
    broadcast use vstd::seq_lib::group_to_multiset_ensures;

    if s.len() > 0 {
        let rest = s.drop_last();
        let x = s.last();
        let t = ordered(rest, before);
        ordering_is_stable(rest, before);
        placing_keeps_elements(t, x, before);
        placing_keeps_order(t, x, before);
        assert(s =~= rest.push(x));
        assert(s.to_multiset() =~= rest.to_multiset().insert(x));
        assert forall|y: A| #[trigger]
            level_with(ordered(s, before), y, before) == level_with(s, y, before) by {
            let keep = |z: A| before(y, z) && before(z, y);
            placing_keeps_levels(t, x, before, y);
            filtering_a_push(t, x, keep);
            filtering_a_push(rest, x, keep);
            assert(level_with(t, y, before) == level_with(rest, y, before));
        }
    }
}

/// There is only one way to put elements in order that keeps the given order within each level.
pub proof fn stable_ordering_is_unique<A>(
    s: Seq<A>,
    t: Seq<A>,
    u: Seq<A>,
    before: spec_fn(A, A) -> bool,
)
    requires
        is_preorder(before),
        is_stable_ordering(s, t, before),
        is_stable_ordering(s, u, before),
    ensures
        t == u,
{
    assert forall|x: A| #[trigger] level_with(t, x, before) == level_with(u, x, before) by {
        assert(level_with(t, x, before) == level_with(s, x, before));
        assert(level_with(u, x, before) == level_with(s, x, before));
    }
    equal_levels_determine(t, u, before);
}

/// A filtered sequence holds exactly the elements that are kept.
pub proof fn filter_has_what_it_keeps<A>(s: Seq<A>, keep: spec_fn(A) -> bool)
    ensures
        forall|x: A| #[trigger] s.filter(keep).contains(x) ==> s.contains(x) && keep(x),
        forall|x: A| s.contains(x) && keep(x) ==> #[trigger] s.filter(keep).contains(x),
    decreases s.len(),
{
    reveal(Seq::filter);
    if s.len() > 0 {
        let rest = s.drop_last();
        filter_has_what_it_keeps(rest, keep);
        let kept = rest.filter(keep);
        assert forall|x: A| #[trigger] s.filter(keep).contains(x) implies s.contains(x) && keep(
            x,
        ) by {
            let i = choose|i: int| 0 <= i < s.filter(keep).len() && s.filter(keep)[i] == x;
            if i < kept.len() {
                assert(kept[i] == x);
                assert(kept.contains(x));
                let m = choose|m: int| 0 <= m < rest.len() && rest[m] == x;
                assert(s[m] == x);
            } else {
                assert(s[s.len() - 1] == x);
            }
        }
        assert forall|x: A| s.contains(x) && keep(x) implies #[trigger] s.filter(keep).contains(
            x,
        ) by {
            let m = choose|m: int| 0 <= m < s.len() && s[m] == x;
            if m < rest.len() {
                assert(rest[m] == x);
                assert(rest.contains(x));
                assert(kept.contains(x));
                let i = choose|i: int| 0 <= i < kept.len() && kept[i] == x;
                assert(s.filter(keep)[i] == x);
            } else {
                assert(s.filter(keep).last() == x);
                assert(s.filter(keep)[s.filter(keep).len() - 1] == x);
            }
        }
    }
}

proof fn equal_levels_determine<A>(t: Seq<A>, u: Seq<A>, before: spec_fn(A, A) -> bool)
    requires
        is_preorder(before),
        is_ordered(t, before),
        is_ordered(u, before),
        forall|x: A| #[trigger] level_with(t, x, before) == level_with(u, x, before),
    ensures
        t == u,
    decreases t.len(),
{
    if t.len() == 0 {
        if u.len() > 0 {
            let x = u.last();
            let keep = |z: A| before(x, z) && before(z, x);
            filter_has_what_it_keeps(u, keep);
            filter_has_what_it_keeps(t, keep);
            assert(u.contains(x));
            assert(before(x, x));
            assert(level_with(u, x, before).contains(x));
            assert(level_with(t, x, before).contains(x));
        }
        assert(t =~= u);
    } else {
        let x = t.last();
        let keep = |z: A| before(x, z) && before(z, x);
        assert(t.contains(x));
        assert(before(x, x));
        filter_has_what_it_keeps(t, keep);
        filter_has_what_it_keeps(u, keep);
        assert(level_with(t, x, before).contains(x));
        assert(level_with(u, x, before).contains(x));
        assert(u.contains(x));
        let y = u.last();
        let m = choose|m: int| 0 <= m < u.len() && u[m] == x;
        // The last elements are level with each other.
        assert(before(x, y)) by {
            if m < u.len() - 1 {
                assert(before(u[m], u[u.len() - 1]));
            }
        }
        assert(before(y, x)) by {
            let at_y = |z: A| before(y, z) && before(z, y);
            filter_has_what_it_keeps(u, at_y);
            filter_has_what_it_keeps(t, at_y);
            assert(u.contains(y));
            assert(before(y, y));
            assert(level_with(u, y, before).contains(y));
            assert(level_with(t, y, before).contains(y));
            assert(t.contains(y));
            let n = choose|n: int| 0 <= n < t.len() && t[n] == y;
            if n < t.len() - 1 {
                assert(before(t[n], t[t.len() - 1]));
            }
        }
        let t0 = t.drop_last();
        let u0 = u.drop_last();
        assert(t0.push(x) =~= t);
        assert(u0.push(y) =~= u);
        filtering_a_push(t0, x, keep);
        filtering_a_push(u0, y, keep);
        assert(level_with(t, x, before).last() == x);
        assert(level_with(u, x, before).last() == y);
        assert(x == y);
        assert forall|z: A| #[trigger] level_with(t0, z, before) == level_with(u0, z, before) by {
            let at_z = |w: A| before(z, w) && before(w, z);
            filtering_a_push(t0, x, at_z);
            filtering_a_push(u0, x, at_z);
            assert(level_with(t, z, before) == level_with(u, z, before));
            if at_z(x) {
                assert(t0.filter(at_z) =~= t.filter(at_z).drop_last());
                assert(u0.filter(at_z) =~= u.filter(at_z).drop_last());
            }
        }
        assert(is_ordered(t0, before)) by {
            assert forall|i: int, j: int| 0 <= i < j < t0.len() implies before(
                #[trigger] t0[i],
                #[trigger] t0[j],
            ) by {
                assert(before(t[i], t[j]));
            }
        }
        assert(is_ordered(u0, before)) by {
            assert forall|i: int, j: int| 0 <= i < j < u0.len() implies before(
                #[trigger] u0[i],
                #[trigger] u0[j],
            ) by {
                assert(before(u[i], u[j]));
            }
        }
        equal_levels_determine(t0, u0, before);
    }
}

/// No two elements of `s` may stand on either side of each other.
pub open spec fn levels_are_single<A>(s: Seq<A>, before: spec_fn(A, A) -> bool) -> bool {
    forall|i: int, j: int|
        0 <= i < j < s.len() ==> !(before(#[trigger] s[i], #[trigger] s[j]) && before(s[j], s[i]))
}

/// `s` and `t` hold the same elements.
pub open spec fn same_elements<A>(s: Seq<A>, t: Seq<A>) -> bool {
    forall|x: A| #[trigger] s.contains(x) <==> t.contains(x)
}

proof fn single_level_has_one<A>(s: Seq<A>, before: spec_fn(A, A) -> bool, x: A)
    requires
        is_preorder(before),
        levels_are_single(s, before),
    ensures
        level_with(s, x, before).len() <= 1,
    decreases s.len(),
{
    let keep = |y: A| before(x, y) && before(y, x);
    reveal(Seq::filter);
    if s.len() > 0 {
        let rest = s.drop_last();
        assert forall|i: int, j: int| 0 <= i < j < rest.len() implies !(before(
            #[trigger] rest[i],
            #[trigger] rest[j],
        ) && before(rest[j], rest[i])) by {
            assert(!(before(s[i], s[j]) && before(s[j], s[i])));
        }
        single_level_has_one(rest, before, x);
        if keep(s.last()) && rest.filter(keep).len() > 0 {
            filter_has_what_it_keeps(rest, keep);
            let y = rest.filter(keep)[0];
            assert(rest.filter(keep).contains(y));
            let m = choose|m: int| 0 <= m < rest.len() && rest[m] == y;
            let last = s.len() - 1;
            assert(before(y, x) && before(x, s.last()));
            assert(before(s.last(), x) && before(x, y));
            assert(!(before(s[m], s[last]) && before(s[last], s[m])));
        }
    }
}

/// The order of elements that never stand level does not depend on how they were listed.
pub proof fn ordering_ignores_listing<A>(s: Seq<A>, t: Seq<A>, before: spec_fn(A, A) -> bool)
    requires
        is_preorder(before),
        levels_are_single(s, before),
        levels_are_single(t, before),
        same_elements(s, t),
    ensures
        ordered(s, before) == ordered(t, before),
{
    ordering_is_stable(s, before);
    ordering_is_stable(t, before);
    let u = ordered(s, before);
    let v = ordered(t, before);
    assert forall|x: A| #[trigger] level_with(u, x, before) == level_with(v, x, before) by {
        let keep = |y: A| before(x, y) && before(y, x);
        let a = level_with(s, x, before);
        let b = level_with(t, x, before);
        assert(level_with(u, x, before) == a);
        assert(level_with(v, x, before) == b);
        single_level_has_one(s, before, x);
        single_level_has_one(t, before, x);
        filter_has_what_it_keeps(s, keep);
        filter_has_what_it_keeps(t, keep);
        if a.len() == 1 {
            assert(a.contains(a[0]));
            assert(s.contains(a[0]));
            assert(b.contains(a[0]));
        }
        if b.len() == 1 {
            assert(b.contains(b[0]));
            assert(t.contains(b[0]));
            assert(s.contains(b[0]));
            assert(a.contains(b[0]));
        }
        assert(a =~= b);
    }
    equal_levels_determine(u, v, before);
}

/// Ordering keeps what a sequence holds.
pub proof fn ordering_keeps_elements<A>(s: Seq<A>, before: spec_fn(A, A) -> bool)
    requires
        is_preorder(before),
    ensures
        same_elements(s, ordered(s, before)),
{
    broadcast use vstd::seq_lib::group_to_multiset_ensures;

    ordering_is_stable(s, before);
    assert forall|x: A| #[trigger] s.contains(x) <==> ordered(s, before).contains(x) by {
        assert(s.to_multiset().count(x) == ordered(s, before).to_multiset().count(x));
    }
}

/// The views of elements stand where the elements stand.
pub proof fn views_stand_in_place<T: View>(s: Seq<T>, i: int)
    requires
        0 <= i < s.len(),
    ensures
        views(s).len() == s.len(),
        views(s)[i] == s[i]@,
{
}

} // verus!
