//! Lengths, areas and a multiplication that changes the unit.

use vstd::prelude::*;

verus! {

/// A length in metres.
#[derive(Debug, Clone, Copy, PartialEq, Eq, Structural)]
pub struct Meters(pub i32);

/// An area in square metres.
#[derive(Debug, Clone, Copy, PartialEq, Eq, Structural)]
pub struct MetersSquared(pub i32);

/// A multiplication whose result may be of another type than its operands.
pub trait Multiply {
    /// The type of the product.
    type Output;

    /// Whether the product of the two values can be represented.
    spec fn multipliable(&self, other: &Self) -> bool;

    /// The product of the two values.
    spec fn product(&self, other: &Self) -> Self::Output;

    /// Multiplies the two values.
    fn multiply(&self, other: &Self) -> (out: Self::Output)
        requires
            self.multipliable(other),
        ensures
            out == self.product(other),
    ;
}

impl Multiply for Meters {
    type Output = MetersSquared;

    open spec fn multipliable(&self, other: &Self) -> bool {
        i32::MIN <= self.0 * other.0 <= i32::MAX
    }

    open spec fn product(&self, other: &Self) -> MetersSquared {
        MetersSquared((self.0 * other.0) as i32)
    }

    fn multiply(&self, other: &Self) -> (out: MetersSquared) {
        MetersSquared(self.0 * other.0)
    }
}

} // verus!
