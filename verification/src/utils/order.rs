//! Work that goes through numbered items in ascending order.

use vstd::prelude::*;

verus! {

/// The item that is worked on after item `current` of `total`, if there is
/// one.
pub open spec fn successor(current: int, total: int) -> Option<int> {
    if current + 1 < total {
        Some(current + 1)
    } else {
        None
    }
}

/// The items that are worked on from item `current` on, in the order of
/// the work.
pub open spec fn visits_from(current: int, total: int) -> Seq<int>
    decreases total - current,
{
    if current < 0 || current >= total {
        Seq::empty()
    } else {
        match successor(current, total) {
            Some(next) => seq![current] + visits_from(next, total),
            None => seq![current],
        }
    }
}

/// Work that goes from each item to its successor takes every item exactly
/// once, in ascending order.
pub proof fn lemma_visits_every_item_once(current: int, total: int)
    requires
        0 <= current <= total,
    ensures
        visits_from(current, total) == Seq::new((total - current) as nat, |i: int| current + i),
    decreases total - current,
{
    if current < total {
        lemma_visits_every_item_once(current + 1, total);
    }
}

} // verus!
