//! Three-component vectors over fixed-point scalars.
//!
//! `Point` serves both as a position and as a direction, exactly as the
//! shading code uses it. Every operation returns a fresh value and has a
//! spec-level mirror that pins the result down component by component.

use crate::fixed::fx_add;
use crate::fixed::fx_div;
use crate::fixed::fx_mul;
use crate::fixed::fx_sqrt;
use crate::fixed::fx_sub;
use crate::fixed::spec_fx_add;
use crate::fixed::spec_fx_div;
use crate::fixed::spec_fx_mul;
use crate::fixed::spec_fx_sqrt;
use crate::fixed::spec_fx_sub;
use crate::fixed::FX_ONE;
use vstd::prelude::*;

verus! {

/// A vector or point with three fixed-point components.
#[derive(Clone, Copy, Debug, PartialEq, Eq, Structural)]
pub struct Point(pub i64, pub i64, pub i64);

impl Point {
    /// Componentwise sum.
    pub open spec fn spec_add(self, other: Point) -> Point {
        Point(
            spec_fx_add(self.0 as int, other.0 as int) as i64,
            spec_fx_add(self.1 as int, other.1 as int) as i64,
            spec_fx_add(self.2 as int, other.2 as int) as i64,
        )
    }

    /// Componentwise difference.
    pub open spec fn spec_sub(self, other: Point) -> Point {
        Point(
            spec_fx_sub(self.0 as int, other.0 as int) as i64,
            spec_fx_sub(self.1 as int, other.1 as int) as i64,
            spec_fx_sub(self.2 as int, other.2 as int) as i64,
        )
    }

    /// Every component scaled by `multiplier`.
    pub open spec fn spec_mult(self, multiplier: int) -> Point {
        Point(
            spec_fx_mul(self.0 as int, multiplier) as i64,
            spec_fx_mul(self.1 as int, multiplier) as i64,
            spec_fx_mul(self.2 as int, multiplier) as i64,
        )
    }

    /// Every component divided by `divisor`.
    pub open spec fn spec_div(self, divisor: int) -> Point
        recommends
            divisor != 0,
    {
        Point(
            spec_fx_div(self.0 as int, divisor) as i64,
            spec_fx_div(self.1 as int, divisor) as i64,
            spec_fx_div(self.2 as int, divisor) as i64,
        )
    }

    /// Scalar product.
    pub open spec fn spec_dot(self, other: Point) -> int {
        spec_fx_add(
            spec_fx_add(
                spec_fx_mul(self.0 as int, other.0 as int),
                spec_fx_mul(self.1 as int, other.1 as int),
            ),
            spec_fx_mul(self.2 as int, other.2 as int),
        )
    }

    /// Vector product.
    pub open spec fn spec_cross(self, other: Point) -> Point {
        Point(
            spec_fx_sub(
                spec_fx_mul(self.1 as int, other.2 as int),
                spec_fx_mul(self.2 as int, other.1 as int),
            ) as i64,
            spec_fx_sub(
                spec_fx_mul(self.2 as int, other.0 as int),
                spec_fx_mul(self.0 as int, other.2 as int),
            ) as i64,
            spec_fx_sub(
                spec_fx_mul(self.0 as int, other.1 as int),
                spec_fx_mul(self.1 as int, other.0 as int),
            ) as i64,
        )
    }

    /// Euclidean length: the square root of the vector's dot product
    /// with itself.
    pub open spec fn spec_len(self) -> int {
        spec_fx_sqrt(self.spec_dot(self))
    }

    /// The vector scaled to length one. A vector whose length rounds to
    /// zero has no usable direction and is returned unchanged, as the
    /// safe local default.
    pub open spec fn spec_normalised(self) -> Point {
        if self.spec_len() == 0 {
            self
        } else {
            self.spec_div(self.spec_len())
        }
    }

    /// Mirror reflection of `self` about the axis `other`:
    /// `self - other * (2 * dot(self, other))`.
    pub open spec fn spec_mirror(self, other: Point) -> Point {
        self.spec_sub(other.spec_mult(spec_fx_mul(2 * FX_ONE, self.spec_dot(other))))
    }

    pub fn new(x: i64, y: i64, z: i64) -> (r: Point)
        ensures
            r == Point(x, y, z),
    {
        Point(x, y, z)
    }

    pub fn add(&self, other: &Point) -> (r: Point)
        ensures
            r == self.spec_add(*other),
    {
        Point(fx_add(self.0, other.0), fx_add(self.1, other.1), fx_add(self.2, other.2))
    }

    pub fn sub(&self, other: &Point) -> (r: Point)
        ensures
            r == self.spec_sub(*other),
    {
        Point(fx_sub(self.0, other.0), fx_sub(self.1, other.1), fx_sub(self.2, other.2))
    }

    pub fn mult(&self, multiplier: i64) -> (r: Point)
        ensures
            r == self.spec_mult(multiplier as int),
    {
        Point(
            fx_mul(self.0, multiplier),
            fx_mul(self.1, multiplier),
            fx_mul(self.2, multiplier),
        )
    }

    pub fn div(&self, divisor: i64) -> (r: Point)
        requires
            divisor != 0,
        ensures
            r == self.spec_div(divisor as int),
    {
        Point(
            fx_div(self.0, divisor),
            fx_div(self.1, divisor),
            fx_div(self.2, divisor),
        )
    }

    pub fn dot(&self, other: &Point) -> (r: i64)
        ensures
            r as int == self.spec_dot(*other),
    {
        fx_add(
            fx_add(fx_mul(self.0, other.0), fx_mul(self.1, other.1)),
            fx_mul(self.2, other.2),
        )
    }

    pub fn cross(&self, other: &Point) -> (r: Point)
        ensures
            r == self.spec_cross(*other),
    {
        Point(
            fx_sub(fx_mul(self.1, other.2), fx_mul(self.2, other.1)),
            fx_sub(fx_mul(self.2, other.0), fx_mul(self.0, other.2)),
            fx_sub(fx_mul(self.0, other.1), fx_mul(self.1, other.0)),
        )
    }

    pub fn len(&self) -> (r: i64)
        ensures
            r as int == self.spec_len(),
    {
        fx_sqrt(self.dot(self))
    }

    pub fn normalised(&self) -> (r: Point)
        ensures
            r == self.spec_normalised(),
    {
        let l = self.len();
        if l == 0 {
            *self
        } else {
            self.div(l)
        }
    }

    pub fn mirror(&self, other: &Point) -> (r: Point)
        ensures
            r == self.spec_mirror(*other),
    {
        let k = fx_mul(2 * FX_ONE, self.dot(other));
        self.sub(&other.mult(k))
    }
}

} // verus!
