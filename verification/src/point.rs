//! Points of the integer plane and their addition.

use vstd::prelude::*;
use vstd::std_specs::ops::AddSpecImpl;

verus! {

/// A point of the plane with integer coordinates.
#[derive(Debug, Copy, Clone, PartialEq, Eq, Structural)]
pub struct Point {
    pub x: i32,
    pub y: i32,
}

impl Point {
    /// Whether moving the point by `dx` and `dy` keeps both coordinates in
    /// the `i32` range.
    pub open spec fn can_shift(self, dx: int, dy: int) -> bool {
        &&& i32::MIN <= self.x + dx <= i32::MAX
        &&& i32::MIN <= self.y + dy <= i32::MAX
    }

    /// The point moved by `dx` and `dy`.
    pub open spec fn shifted(self, dx: int, dy: int) -> Point {
        Point { x: (self.x + dx) as i32, y: (self.y + dy) as i32 }
    }
}

impl AddSpecImpl for Point {
    open spec fn obeys_add_spec() -> bool {
        true
    }

    open spec fn add_req(self, rhs: Point) -> bool {
        self.can_shift(rhs.x as int, rhs.y as int)
    }

    open spec fn add_spec(self, rhs: Point) -> Point {
        self.shifted(rhs.x as int, rhs.y as int)
    }
}

impl core::ops::Add for Point {
    type Output = Point;

    /// The sum of two points, coordinate by coordinate.
    fn add(self, rhs: Point) -> (sum: Point) {
        Point { x: self.x + rhs.x, y: self.y + rhs.y }
    }
}

impl<'a> AddSpecImpl for &'a Point {
    open spec fn obeys_add_spec() -> bool {
        true
    }

    open spec fn add_req(self, rhs: &'a Point) -> bool {
        self.can_shift(rhs.x as int, rhs.y as int)
    }

    open spec fn add_spec(self, rhs: &'a Point) -> Point {
        self.shifted(rhs.x as int, rhs.y as int)
    }
}

impl<'a> core::ops::Add for &'a Point {
    type Output = Point;

    /// The sum of two borrowed points, which stay usable.
    fn add(self, rhs: &'a Point) -> (sum: Point) {
        Point { x: self.x + rhs.x, y: self.y + rhs.y }
    }
}

impl AddSpecImpl<(i32, i32)> for Point {
    open spec fn obeys_add_spec() -> bool {
        true
    }

    open spec fn add_req(self, rhs: (i32, i32)) -> bool {
        self.can_shift(rhs.0 as int, rhs.1 as int)
    }

    open spec fn add_spec(self, rhs: (i32, i32)) -> Point {
        self.shifted(rhs.0 as int, rhs.1 as int)
    }
}

impl core::ops::Add<(i32, i32)> for Point {
    type Output = Point;

    /// The point moved by a pair of offsets.
    fn add(self, rhs: (i32, i32)) -> (sum: Point) {
        Point { x: self.x + rhs.0, y: self.y + rhs.1 }
    }
}

} // verus!
