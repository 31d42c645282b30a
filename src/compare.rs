use std::cmp::Ordering;
use vstd::prelude::*;

verus! {

/// The ordering for which the engine's three-way comparison reports `c`:
/// negative, zero or positive.
pub open spec fn ordering_of_cmp(c: int) -> Ordering {
    if c < 0 {
        Ordering::Less
    } else if c == 0 {
        Ordering::Equal
    } else {
        Ordering::Greater
    }
}

/// Turns the engine's three-way comparison into an `Ordering`. The engine
/// reports no separate outcome for unordered operands; whatever it reports
/// is passed on.
pub fn ordering_from_cmp(c: i32) -> (r: Ordering)
    ensures
        r == ordering_of_cmp(c as int),
{
    if c == 0 {
        Ordering::Equal
    } else if c > 0 {
        Ordering::Greater
    } else {
        Ordering::Less
    }
}

} // verus!
