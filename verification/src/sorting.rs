//! The three-way results of comparisons, and how they combine.

use std::cmp::Ordering;
use vstd::prelude::*;

verus! {

/// The order of two integers.
pub open spec fn int_order(a: int, b: int) -> Ordering {
    if a < b {
        Ordering::Less
    } else if a > b {
        Ordering::Greater
    } else {
        Ordering::Equal
    }
}

/// The result of the same comparison with its sides exchanged.
pub open spec fn reverse(o: Ordering) -> Ordering {
    match o {
        Ordering::Less => Ordering::Greater,
        Ordering::Equal => Ordering::Equal,
        Ordering::Greater => Ordering::Less,
    }
}

/// `first` where it decides, `rest` where `first` is a tie.
pub open spec fn or_else(first: Ordering, rest: Ordering) -> Ordering {
    match first {
        Ordering::Equal => rest,
        decided => decided,
    }
}

/// What the results of comparing `x` with `y` and `y` with `z` say of
/// comparing `x` with `z`, in a total order: a tie on one side hands the
/// other side's result on, and two results in one direction keep it.
pub open spec fn composes(xy: Ordering, yz: Ordering, xz: Ordering) -> bool {
    &&& xy == Ordering::Equal ==> xz == yz
    &&& yz == Ordering::Equal ==> xz == xy
    &&& xy == yz ==> xz == xy
}

} // verus!
