//! Records that know their default values.

use vstd::prelude::*;

verus! {

/// A text whose default is a name.
#[derive(Debug)]
pub struct Implemented(pub String);

impl Default for Implemented {
    /// The text "John Smith".
    fn default() -> (value: Implemented)
        ensures
            value.0@ == "John Smith"@,
    {
        Implemented("John Smith".to_owned())
    }
}

/// A record whose default is made of the defaults of its fields.
#[derive(Debug)]
pub struct Derived {
    pub x: u32,
    pub y: String,
    pub z: Implemented,
}

impl Default for Derived {
    /// The record of zero, the empty text and the default `Implemented`.
    fn default() -> (value: Derived)
        ensures
            value.x == 0,
            value.y@ == Seq::<char>::empty(),
            value.z.0@ == "John Smith"@,
    {
        Derived { x: 0, y: String::new(), z: Implemented::default() }
    }
}

} // verus!
