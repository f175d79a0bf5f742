//! The smaller of two values of an ordered type.

use vstd::prelude::*;
use core::cmp::Ordering;
use vstd::std_specs::cmp::OrdSpec;

verus! {

/// The first value unless the comparison found it greater than the second.
pub fn select_min<T>(a: T, b: T, order: Ordering) -> (least: T)
    ensures
        least == (match order {
            Ordering::Less | Ordering::Equal => a,
            Ordering::Greater => b,
        }),
{
    match order {
        Ordering::Less | Ordering::Equal => a,
        Ordering::Greater => b,
    }
}

/// The smaller of two values, and the first of them when they compare equal.
///
/// The values are compared by `Ord::cmp`. For a type whose `cmp` is known to
/// follow its specification the result is stated exactly; for any other type
/// it is one of the two arguments.
pub fn min<T: Ord>(a: T, b: T) -> (least: T)
    ensures
        least == a || least == b,
        T::obeys_cmp_spec() ==> least == (match a.cmp_spec(&b) {
            Ordering::Less | Ordering::Equal => a,
            Ordering::Greater => b,
        }),
{
    let order = a.cmp(&b);
    select_min(a, b, order)
}

} // verus!
