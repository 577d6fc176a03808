//! Positions in space and in the drawing plane.
//!
//! A point holds coordinates of whatever kind the caller computes in. The
//! crate itself places static bodies in whole metres.

use std::ops::{Add, Sub};
use vstd::prelude::*;
use vstd::std_specs::convert::FromSpecImpl;
use vstd::std_specs::ops::{AddSpec, AddSpecImpl, SubSpec, SubSpecImpl};

verus! {

/// A position in space.
#[derive(Debug, Copy, Clone, PartialEq)]
pub struct Point3D<C>(pub C, pub C, pub C);

/// A position in the drawing plane.
#[derive(Debug, Copy, Clone, PartialEq)]
pub struct Point2D<C>(pub C, pub C);

impl<C> Point3D<C> {
    /// The three coordinates.
    pub fn loc(self) -> (at: (C, C, C))
        ensures
            at == (self.0, self.1, self.2),
    {
        let Point3D(x, y, z) = self;
        (x, y, z)
    }
}

impl<C> Point2D<C> {
    /// The two coordinates.
    pub fn loc(self) -> (at: (C, C))
        ensures
            at == (self.0, self.1),
    {
        let Point2D(x, y) = self;
        (x, y)
    }
}

impl<C> From<Point3D<C>> for Point2D<C> {
    /// The position in the drawing plane: the first and the third
    /// coordinate of the position in space.
    fn from(p: Point3D<C>) -> (flat: Point2D<C>) {
        let Point3D(x, _, z) = p;
        Point2D(x, z)
    }
}

impl<C> FromSpecImpl<Point3D<C>> for Point2D<C> {
    open spec fn obeys_from_spec() -> bool {
        true
    }

    open spec fn from_spec(p: Point3D<C>) -> Point2D<C> {
        Point2D(p.0, p.2)
    }
}

impl<C: Add<Output = C>> Add for Point3D<C> {
    type Output = Point3D<C>;

    /// The sum, coordinate by coordinate.
    fn add(self, other: Point3D<C>) -> (sum: Point3D<C>) {
        let Point3D(x, y, z) = self;
        let Point3D(x2, y2, z2) = other;
        Point3D(x + x2, y + y2, z + z2)
    }
}

impl<C: Add<Output = C>> AddSpecImpl for Point3D<C> {
    open spec fn obeys_add_spec() -> bool {
        C::obeys_add_spec()
    }

    open spec fn add_req(self, other: Point3D<C>) -> bool {
        self.0.add_req(other.0) && self.1.add_req(other.1) && self.2.add_req(other.2)
    }

    open spec fn add_spec(self, other: Point3D<C>) -> Point3D<C> {
        Point3D(self.0.add_spec(other.0), self.1.add_spec(other.1), self.2.add_spec(other.2))
    }
}

impl<C: Sub<Output = C>> Sub for Point3D<C> {
    type Output = Point3D<C>;

    /// The difference, coordinate by coordinate.
    fn sub(self, other: Point3D<C>) -> (difference: Point3D<C>) {
        let Point3D(x, y, z) = self;
        let Point3D(x2, y2, z2) = other;
        Point3D(x - x2, y - y2, z - z2)
    }
}

impl<C: Sub<Output = C>> SubSpecImpl for Point3D<C> {
    open spec fn obeys_sub_spec() -> bool {
        C::obeys_sub_spec()
    }

    open spec fn sub_req(self, other: Point3D<C>) -> bool {
        self.0.sub_req(other.0) && self.1.sub_req(other.1) && self.2.sub_req(other.2)
    }

    open spec fn sub_spec(self, other: Point3D<C>) -> Point3D<C> {
        Point3D(self.0.sub_spec(other.0), self.1.sub_spec(other.1), self.2.sub_spec(other.2))
    }
}

impl<C: Add<Output = C>> Add for Point2D<C> {
    type Output = Point2D<C>;

    /// The sum, coordinate by coordinate.
    fn add(self, other: Point2D<C>) -> (sum: Point2D<C>) {
        let Point2D(x, y) = self;
        let Point2D(x2, y2) = other;
        Point2D(x + x2, y + y2)
    }
}

impl<C: Add<Output = C>> AddSpecImpl for Point2D<C> {
    open spec fn obeys_add_spec() -> bool {
        C::obeys_add_spec()
    }

    open spec fn add_req(self, other: Point2D<C>) -> bool {
        self.0.add_req(other.0) && self.1.add_req(other.1)
    }

    open spec fn add_spec(self, other: Point2D<C>) -> Point2D<C> {
        Point2D(self.0.add_spec(other.0), self.1.add_spec(other.1))
    }
}

impl<C: Sub<Output = C>> Sub for Point2D<C> {
    type Output = Point2D<C>;

    /// The difference, coordinate by coordinate.
    fn sub(self, other: Point2D<C>) -> (difference: Point2D<C>) {
        let Point2D(x, y) = self;
        let Point2D(x2, y2) = other;
        Point2D(x - x2, y - y2)
    }
}

impl<C: Sub<Output = C>> SubSpecImpl for Point2D<C> {
    open spec fn obeys_sub_spec() -> bool {
        C::obeys_sub_spec()
    }

    open spec fn sub_req(self, other: Point2D<C>) -> bool {
        self.0.sub_req(other.0) && self.1.sub_req(other.1)
    }

    open spec fn sub_spec(self, other: Point2D<C>) -> Point2D<C> {
        Point2D(self.0.sub_spec(other.0), self.1.sub_spec(other.1))
    }
}

} // verus!
