//! Pairs made of one value.

use vstd::prelude::*;
use vstd::pervasive::cloned;

verus! {

/// Two clones of one value.
pub fn duplicate<T: Clone>(a: T) -> (pair: (T, T))
    ensures
        cloned(a, pair.0),
        cloned(a, pair.1),
{
    (a.clone(), a.clone())
}

/// Two clones of one value; the bound on the type is written as a `where`
/// clause.
pub fn dup2<T>(a: T) -> (pair: (T, T))
    where T: Clone
    ensures
        cloned(a, pair.0),
        cloned(a, pair.1),
{
    (a.clone(), a.clone())
}

} // verus!
