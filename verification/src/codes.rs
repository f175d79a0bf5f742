//! An enumeration whose variants stand for numbers.

use vstd::prelude::*;

verus! {

/// Three variants, numbered 0, 10000 and 10001.
#[derive(Debug, Clone, Copy, PartialEq, Eq, Structural)]
pub enum Bar {
    A,
    B,
    C,
}

impl Bar {
    /// The number of the variant: `A` is 0, `B` is 10000, and `C`, which
    /// follows `B`, is 10001.
    pub open spec fn code_spec(self) -> u32 {
        match self {
            Bar::A => 0,
            Bar::B => 10000,
            Bar::C => 10001,
        }
    }

    /// The number of the variant.
    pub fn code(self) -> (number: u32)
        ensures
            number == self.code_spec(),
    {
        match self {
            Bar::A => 0,
            Bar::B => 10000,
            Bar::C => 10001,
        }
    }
}

} // verus!
