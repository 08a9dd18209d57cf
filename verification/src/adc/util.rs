//! In-place sorting that needs no allocation.
use core::cmp::Ordering;
use vstd::prelude::*;

verus! {

/// `<[Elem]>::swap` exchanges two elements in place and leaves the others alone.
/// It panics where an index is out of bounds.
pub assume_specification<Elem>[ <[Elem]>::swap ](slice: &mut [Elem], a: usize, b: usize)
    requires
        a < old(slice)@.len(),
        b < old(slice)@.len(),
    ensures
        final(slice)@ == old(slice)@.update(a as int, old(slice)@[b as int]).update(
            b as int,
            old(slice)@[a as int],
        ),
;

/// `s` with its items at `i` and `j` in each other's place.
pub open spec fn swapped<T>(s: Seq<T>, i: int, j: int) -> Seq<T> {
    s.update(i, s[j]).update(j, s[i])
}

/// `s` after the items at `i` and `j` were compared, and swapped where the first is
/// the greater.
pub open spec fn exchanged<T>(s: Seq<T>, i: int, j: int, gt: spec_fn(T, T) -> bool) -> Seq<T> {
    if gt(s[i], s[j]) {
        swapped(s, i, j)
    } else {
        s
    }
}

/// `s` after the item at `i` was compared with those from `j` up to `n`, in turn.
pub open spec fn exchange_pass<T>(
    s: Seq<T>,
    i: int,
    j: int,
    n: int,
    gt: spec_fn(T, T) -> bool,
) -> Seq<T>
    decreases n - j,
{
    if j >= n {
        s
    } else {
        exchange_pass(exchanged(s, i, j, gt), i, j + 1, n, gt)
    }
}

/// `s` after a pass for each position from `i` up to `n`.
pub open spec fn exchange_passes<T>(s: Seq<T>, i: int, n: int, gt: spec_fn(T, T) -> bool) -> Seq<T>
    decreases n - i,
{
    if i >= n {
        s
    } else {
        exchange_passes(exchange_pass(s, i, i + 1, n, gt), i + 1, n, gt)
    }
}

/// `s` as an exchange sort by `gt` leaves it, items that compare equal included.
pub open spec fn exchange_sorted<T>(s: Seq<T>, gt: spec_fn(T, T) -> bool) -> Seq<T> {
    exchange_passes(s, 0, s.len() as int, gt)
}

/// `gt` orders like a comparison of keys.
pub open spec fn is_strict_weak_order<T>(gt: spec_fn(T, T) -> bool) -> bool {
    &&& forall|x: T, y: T| #[trigger] gt(x, y) ==> !gt(y, x)
    &&& forall|x: T, y: T, z: T|
        !#[trigger] gt(x, y) && !#[trigger] gt(y, z) ==> !gt(x, z)
}

/// No item is greater than one behind it.
pub open spec fn is_sorted<T>(s: Seq<T>, gt: spec_fn(T, T) -> bool) -> bool {
    forall|i: int, j: int| 0 <= i < j < s.len() ==> !gt(#[trigger] s[i], #[trigger] s[j])
}

/// `order` answers `Ordering::Greater` just where `gt` holds.
pub open spec fn agrees<T, F: FnMut(&T, &T) -> Ordering>(
    order: F,
    gt: spec_fn(T, T) -> bool,
) -> bool {
    forall|x: T, y: T, r: Ordering| #[trigger]
        order.ensures((&x, &y), r) ==> (r == Ordering::Greater <==> gt(x, y))
}

proof fn lemma_swapped_multiset<T>(s: Seq<T>, i: int, j: int)
    requires
        0 <= i < s.len(),
        0 <= j < s.len(),
    ensures
        swapped(s, i, j).to_multiset() == s.to_multiset(),
{
    broadcast use vstd::seq_lib::group_to_multiset_ensures;

    assert(s.contains(s[i]) && s.contains(s[j]));
    assert(swapped(s, i, j).to_multiset() =~= s.to_multiset());
}

/// What occurs in one arrangement of the same items occurs in the other.
pub proof fn lemma_occurs<T>(s: Seq<T>, t: Seq<T>, i: int)
    requires
        s.to_multiset() == t.to_multiset(),
        0 <= i < t.len(),
    ensures
        s.contains(t[i]),
{
    broadcast use vstd::seq_lib::group_to_multiset_ensures;

    assert(t.contains(t[i]));
    assert(t.to_multiset().count(t[i]) > 0);
}

/// Sorting in place by a comparison.
pub trait Sortable<T> {
    /// The items, in their order.
    spec fn items(&self) -> Seq<T>;

    /// Sorts by exchanges. No item is lost or made, and where the comparison stands
    /// for an order, the outcome is that of the exchange sort by this order.
    fn sort_by<F: FnMut(&T, &T) -> Ordering>(&mut self, order: F)
        requires
            forall|x: T, y: T|
                old(self).items().contains(x) && old(self).items().contains(y)
                    ==> #[trigger] order.requires((&x, &y)),
        ensures
            final(self).items().to_multiset() == old(self).items().to_multiset(),
            forall|gt: spec_fn(T, T) -> bool| #[trigger]
                agrees(order, gt) ==> final(self).items() == exchange_sorted(
                    old(self).items(),
                    gt,
                ),
            forall|gt: spec_fn(T, T) -> bool| #[trigger]
                agrees(order, gt) && is_strict_weak_order(gt) ==> is_sorted(
                    final(self).items(),
                    gt,
                ),
    ;
}

spec fn at(i: usize) -> int {
    i as int
}

impl<T> Sortable<T> for [T] {
    open spec fn items(&self) -> Seq<T> {
        self@
    }

    fn sort_by<F: FnMut(&T, &T) -> Ordering>(&mut self, mut order: F) {
        let ghost first = self@;
        let ghost by = order;
        let n: usize = self.len();
        let mut i: usize = 0;
        while i < n
            invariant
                order == by,
                i <= n,
                n == self@.len(),
                n == first.len(),
                self@.to_multiset() == first.to_multiset(),
                forall|x: T, y: T|
                    first.contains(x) && first.contains(y) ==> #[trigger] by.requires((&x, &y)),
                forall|gt: spec_fn(T, T) -> bool| #[trigger]
                    agrees(by, gt) ==> exchange_passes(self@, at(i), at(n), gt)
                        == exchange_passes(first, 0, at(n), gt),
            decreases n - i,
        {
            let ghost start = self@;
            let mut j: usize = i + 1;
            while j < n
                invariant
                    order == by,
                    i < j <= n,
                    n == self@.len(),
                    n == first.len(),
                    self@.to_multiset() == first.to_multiset(),
                    forall|x: T, y: T|
                        first.contains(x) && first.contains(y) ==> #[trigger] by.requires(
                            (&x, &y),
                        ),
                    forall|gt: spec_fn(T, T) -> bool| #[trigger]
                        agrees(by, gt) ==> exchange_pass(self@, at(i), at(j), at(n), gt)
                            == exchange_pass(start, at(i), at(i) + 1, at(n), gt),
                decreases n - j,
            {
                proof {
                    lemma_occurs(first, self@, at(i));
                    lemma_occurs(first, self@, at(j));
                }
                let ghost before = self@;
                match order(&self[i], &self[j]) {
                    Ordering::Greater => {
                        proof {
                            lemma_swapped_multiset(before, at(i), at(j));
                        }
                        self.swap(i, j);
                    },
                    _ => {},
                }
                assert(forall|gt: spec_fn(T, T) -> bool| #[trigger]
                    agrees(by, gt) ==> self@ == exchanged(before, at(i), at(j), gt));
                j += 1;
            }
            i += 1;
        }
        proof {
            assert forall|gt: spec_fn(T, T) -> bool| #[trigger]
                agrees(by, gt) && is_strict_weak_order(gt) implies is_sorted(self@, gt) by {
                law_exchange_sort_sorts(first, gt);
            }
        }
    }
}

/// `x` is not greater than any item from `i` on.
spec fn not_above<T>(x: T, s: Seq<T>, i: int, gt: spec_fn(T, T) -> bool) -> bool {
    forall|k: int| i <= k < s.len() ==> !gt(x, #[trigger] s[k])
}

/// What a pass does to the items from `i` on: it keeps them, and brings one that is
/// not greater than any other to the front.
proof fn lemma_exchange_pass<T>(s: Seq<T>, i: int, j: int, n: int, gt: spec_fn(T, T) -> bool)
    requires
        0 <= i < j <= n == s.len(),
    ensures
        ({
            let r = exchange_pass(s, i, j, n, gt);
            &&& r.len() == n
            &&& r.to_multiset() == s.to_multiset()
            &&& forall|k: int| 0 <= k < i ==> r[k] == s[k]
            &&& forall|x: T| not_above(x, s, i, gt) ==> #[trigger] not_above(x, r, i, gt)
            &&& is_strict_weak_order(gt) && (forall|k: int| i < k < j ==> !gt(s[i], #[trigger] s[k]))
                ==> (forall|k: int| i < k < n ==> !gt(r[i], #[trigger] r[k]))
        }),
    decreases n - j,
{
    if j < n {
        let t = exchanged(s, i, j, gt);
        lemma_swapped_multiset(s, i, j);
        lemma_exchange_pass(t, i, j + 1, n, gt);
        let r = exchange_pass(s, i, j, n, gt);
        assert forall|x: T| not_above(x, s, i, gt) implies #[trigger] not_above(x, r, i, gt) by {
            assert(!gt(x, s[i]) && !gt(x, s[j]));
            assert(not_above(x, t, i, gt));
        }
        if is_strict_weak_order(gt) && (forall|k: int| i < k < j ==> !gt(s[i], #[trigger] s[k])) {
            assert forall|k: int| i < k < j + 1 implies !gt(t[i], #[trigger] t[k]) by {
                if gt(s[i], s[j]) {
                    assert(!gt(s[j], s[i]));
                    if k < j {
                        assert(!gt(s[i], s[k]));
                    }
                }
            }
        }
    }
}

/// What the passes from `i` on do, given that the items before `i` are in place.
proof fn lemma_exchange_passes<T>(s: Seq<T>, i: int, n: int, gt: spec_fn(T, T) -> bool)
    requires
        0 <= i <= n == s.len(),
    ensures
        ({
            let r = exchange_passes(s, i, n, gt);
            &&& r.len() == n
            &&& r.to_multiset() == s.to_multiset()
            &&& is_strict_weak_order(gt) && (forall|k: int, l: int|
                0 <= k < i && k < l < n ==> !gt(#[trigger] s[k], #[trigger] s[l])) ==> is_sorted(
                r,
                gt,
            )
        }),
    decreases n - i,
{
    if i < n {
        let t = exchange_pass(s, i, i + 1, n, gt);
        lemma_exchange_pass(s, i, i + 1, n, gt);
        lemma_exchange_passes(t, i + 1, n, gt);
        if is_strict_weak_order(gt) && (forall|k: int, l: int|
            0 <= k < i && k < l < n ==> !gt(#[trigger] s[k], #[trigger] s[l])) {
            assert forall|k: int, l: int| 0 <= k < i + 1 && k < l < n implies !gt(
                #[trigger] t[k],
                #[trigger] t[l],
            ) by {
                if k < i {
                    assert(t[k] == s[k]);
                    if l < i {
                        assert(t[l] == s[l]);
                    } else {
                        assert(not_above(s[k], s, i, gt));
                        assert(not_above(s[k], t, i, gt));
                    }
                }
            }
        }
    }
}

/// An exchange sort loses no item and makes none.
pub proof fn law_exchange_sort_permutes<T>(s: Seq<T>, gt: spec_fn(T, T) -> bool)
    ensures
        exchange_sorted(s, gt).to_multiset() == s.to_multiset(),
        exchange_sorted(s, gt).len() == s.len(),
{
    lemma_exchange_passes(s, 0, s.len() as int, gt);
}

/// An exchange sort by a comparison of keys leaves the items sorted.
pub proof fn law_exchange_sort_sorts<T>(s: Seq<T>, gt: spec_fn(T, T) -> bool)
    requires
        is_strict_weak_order(gt),
    ensures
        is_sorted(exchange_sorted(s, gt), gt),
{
    lemma_exchange_passes(s, 0, s.len() as int, gt);
}

/// A pass over items that are in place leaves them there.
proof fn lemma_exchange_pass_keeps<T>(s: Seq<T>, i: int, j: int, n: int, gt: spec_fn(T, T) -> bool)
    requires
        0 <= i < j <= n == s.len(),
        is_sorted(s, gt),
    ensures
        exchange_pass(s, i, j, n, gt) == s,
    decreases n - j,
{
    if j < n {
        assert(!gt(s[i], s[j]));
        lemma_exchange_pass_keeps(s, i, j + 1, n, gt);
    }
}

proof fn lemma_exchange_passes_keep<T>(s: Seq<T>, i: int, n: int, gt: spec_fn(T, T) -> bool)
    requires
        0 <= i <= n == s.len(),
        is_sorted(s, gt),
    ensures
        exchange_passes(s, i, n, gt) == s,
    decreases n - i,
{
    if i < n {
        lemma_exchange_pass_keeps(s, i, i + 1, n, gt);
        lemma_exchange_passes_keep(s, i + 1, n, gt);
    }
}

/// An exchange sort leaves sorted items as they are.
pub proof fn law_exchange_sort_keeps_sorted<T>(s: Seq<T>, gt: spec_fn(T, T) -> bool)
    requires
        is_sorted(s, gt),
    ensures
        exchange_sorted(s, gt) == s,
{
    lemma_exchange_passes_keep(s, 0, s.len() as int, gt);
}

/// A pass does nothing up to the first item that is less.
proof fn lemma_pass_skips<T>(
    s: Seq<T>,
    i: int,
    from: int,
    to: int,
    n: int,
    gt: spec_fn(T, T) -> bool,
)
    requires
        0 <= i < from <= to <= n == s.len(),
        forall|k: int| from <= k < to ==> !gt(s[i], #[trigger] s[k]),
    ensures
        exchange_pass(s, i, from, n, gt) == exchange_pass(s, i, to, n, gt),
    decreases to - from,
{
    if from < to {
        assert(!gt(s[i], s[from]));
        lemma_pass_skips(s, i, from + 1, to, n, gt);
    }
}

/// Passes for items that are in place do nothing.
proof fn lemma_passes_skip<T>(s: Seq<T>, from: int, to: int, n: int, gt: spec_fn(T, T) -> bool)
    requires
        0 <= from <= to <= n == s.len(),
        forall|k: int, l: int|
            0 <= k < to && k < l < n ==> !gt(#[trigger] s[k], #[trigger] s[l]),
    ensures
        exchange_passes(s, from, n, gt) == exchange_passes(s, to, n, gt),
    decreases to - from,
{
    if from < to {
        assert forall|k: int| from + 1 <= k < n implies !gt(s[from], #[trigger] s[k]) by {}
        lemma_pass_skips(s, from, from + 1, n, n, gt);
        lemma_passes_skip(s, from + 1, to, n, gt);
    }
}

/// The first step of an exchange sort: the first item that is greater than one behind it
/// changes places with the first such one, and the sort goes on from there. With that and the
/// law that sorted items stay, it is settled where items that compare equal come out.
pub proof fn law_exchange_sort_step<T>(s: Seq<T>, i: int, j: int, gt: spec_fn(T, T) -> bool)
    requires
        is_strict_weak_order(gt),
        0 <= i < j < s.len(),
        gt(s[i], s[j]),
        forall|k: int| i < k < j ==> !gt(s[i], #[trigger] s[k]),
        forall|k: int, l: int|
            0 <= k < i && k < l < s.len() ==> !gt(#[trigger] s[k], #[trigger] s[l]),
    ensures
        exchange_sorted(s, gt) == exchange_sorted(s.update(i, s[j]).update(j, s[i]), gt),
{
    let n = s.len() as int;
    let t = s.update(i, s[j]).update(j, s[i]);
    assert(t == exchanged(s, i, j, gt));
    lemma_passes_skip(s, 0, i, n, gt);
    assert forall|k: int, l: int| 0 <= k < i && k < l < n implies !gt(
        #[trigger] t[k],
        #[trigger] t[l],
    ) by {
        assert(t[k] == s[k]);
        assert(!gt(s[k], s[i]) && !gt(s[k], s[j]) && !gt(s[k], s[l]));
    }
    lemma_passes_skip(t, 0, i, n, gt);
    lemma_pass_skips(s, i, i + 1, j, n, gt);
    assert forall|k: int| i + 1 <= k < j + 1 implies !gt(t[i], #[trigger] t[k]) by {
        assert(!gt(s[j], s[i]));
        if k < j {
            assert(!gt(s[i], s[k]));
        }
    }
    lemma_pass_skips(t, i, i + 1, j + 1, n, gt);
}

} // verus!
