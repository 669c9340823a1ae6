//! Ordering positions by time.

use crate::time::Timestamp;
use vstd::prelude::*;
use vstd::seq_lib::{group_to_multiset_ensures, lemma_multiset_commutative};

verus! {

/// A position together with the instant to order it by.
pub type Stamped = (Timestamp, usize);

/// The number that items are in ascending order of: the instant, or its
/// negation when the newest comes first.
pub open spec fn place(item: Stamped, newest_first: bool) -> int {
    if newest_first {
        -item.0.rank()
    } else {
        item.0.rank()
    }
}

/// The items are in order.
pub open spec fn in_order(items: Seq<Stamped>, newest_first: bool) -> bool {
    forall|i: int, j: int|
        0 <= i < j < items.len() ==> place(#[trigger] items[i], newest_first) <= place(
            #[trigger] items[j],
            newest_first,
        )
}

/// Whether `a` may stand before `b`.
fn may_precede(a: &Stamped, b: &Stamped, newest_first: bool) -> (r: bool)
    ensures
        r == (place(*a, newest_first) <= place(*b, newest_first)),
{
    if newest_first {
        !a.0.is_before(&b.0)
    } else {
        !b.0.is_before(&a.0)
    }
}

/// The items of two ordered lists in one ordered list.
fn merge(left: &Vec<Stamped>, right: &Vec<Stamped>, newest_first: bool) -> (r: Vec<Stamped>)
    requires
        in_order(left@, newest_first),
        in_order(right@, newest_first),
    ensures
        in_order(r@, newest_first),
        r@.to_multiset() == left@.to_multiset().add(right@.to_multiset()),
{
    broadcast use group_to_multiset_ensures;

    let mut out: Vec<Stamped> = Vec::new();
    let mut i: usize = 0;
    let mut j: usize = 0;
    assert(left@.take(0) =~= Seq::<Stamped>::empty());
    assert(right@.take(0) =~= Seq::<Stamped>::empty());
    assert(out@.to_multiset() =~= left@.take(0).to_multiset().add(right@.take(0).to_multiset()));
    while i < left.len() || j < right.len()
        invariant
            0 <= i <= left@.len(),
            0 <= j <= right@.len(),
            in_order(left@, newest_first),
            in_order(right@, newest_first),
            in_order(out@, newest_first),
            out@.to_multiset() == left@.take(i as int).to_multiset().add(
                right@.take(j as int).to_multiset(),
            ),
            forall|a: int, b: int|
                0 <= a < out@.len() && i <= b < left@.len() ==> place(
                    #[trigger] out@[a],
                    newest_first,
                ) <= place(#[trigger] left@[b], newest_first),
            forall|a: int, b: int|
                0 <= a < out@.len() && j <= b < right@.len() ==> place(
                    #[trigger] out@[a],
                    newest_first,
                ) <= place(#[trigger] right@[b], newest_first),
        decreases left@.len() - i + right@.len() - j,
    {
        broadcast use group_to_multiset_ensures, vstd::multiset::group_multiset_axioms;

        let ghost before = out@;
        let take_left: bool = j >= right.len() || (i < left.len() && may_precede(
            &left[i],
            &right[j],
            newest_first,
        ));
        if take_left {
            assert(left@.take(i + 1) =~= left@.take(i as int).push(left@[i as int]));
            out.push(left[i]);
            assert(out@ =~= before.push(left@[i as int]));
            i = i + 1;
        } else {
            assert(right@.take(j + 1) =~= right@.take(j as int).push(right@[j as int]));
            out.push(right[j]);
            assert(out@ =~= before.push(right@[j as int]));
            j = j + 1;
        }
        assert(out@.to_multiset() =~= left@.take(i as int).to_multiset().add(
            right@.take(j as int).to_multiset(),
        ));
    }
    assert(left@.take(i as int) =~= left@);
    assert(right@.take(j as int) =~= right@);
    out
}

/// The items in order.
pub fn sort_by_time(items: &Vec<Stamped>, newest_first: bool) -> (r: Vec<Stamped>)
    ensures
        in_order(r@, newest_first),
        r@.to_multiset() == items@.to_multiset(),
    decreases items@.len(),
{
    let n: usize = items.len();
    let mid: usize = n / 2;
    let mut left: Vec<Stamped> = Vec::new();
    let mut right: Vec<Stamped> = Vec::new();
    let mut i: usize = 0;
    while i < n
        invariant
            0 <= i <= n,
            n == items@.len(),
            mid == n / 2,
            i <= mid ==> left@ == items@.take(i as int) && right@.len() == 0,
            i > mid ==> left@ == items@.take(mid as int) && right@ == items@.subrange(
                mid as int,
                i as int,
            ),
        decreases n - i,
    {
        if i < mid {
            left.push(items[i]);
            assert(left@ =~= items@.take(i + 1));
        } else {
            right.push(items[i]);
            assert(right@ =~= items@.subrange(mid as int, i + 1));
        }
        i = i + 1;
    }
    if n < 2 {
        assert(right@ =~= items@);
        return right;
    }
    assert(items@ =~= left@ + right@);
    proof {
        lemma_multiset_commutative(left@, right@);
    }
    let left: Vec<Stamped> = sort_by_time(&left, newest_first);
    let right: Vec<Stamped> = sort_by_time(&right, newest_first);
    merge(&left, &right, newest_first)
}

} // verus!
