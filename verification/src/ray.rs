//! Rays: an origin, a direction, and the shutter time they were cast at.

use vstd::prelude::*;
use crate::scalar::Scalar;
use crate::vector::{Vector, vadd, vscale};

verus! {

#[derive(Clone, Copy, PartialEq, Eq, Structural, Debug)]
pub struct Ray {
    pub origin: Vector,
    pub direction: Vector,
    pub time: Scalar,
}

/// The point `origin + t * direction`.
pub open spec fn ray_at(r: Ray, t: Scalar) -> Vector {
    vadd(r.origin, vscale(t, r.direction))
}

impl Ray {
    pub fn new(origin: Vector, direction: Vector, time: Scalar) -> (r: Ray)
        ensures
            r == (Ray { origin, direction, time }),
    {
        Ray { origin, direction, time }
    }

    pub fn origin(&self) -> (v: Vector)
        ensures
            v == self.origin,
    {
        self.origin
    }

    pub fn direction(&self) -> (v: Vector)
        ensures
            v == self.direction,
    {
        self.direction
    }

    pub fn time(&self) -> (t: Scalar)
        ensures
            t == self.time,
    {
        self.time
    }

    pub fn point_at(&self, t: Scalar) -> (p: Vector)
        ensures
            p == ray_at(*self, t),
    {
        self.origin.add_v(self.direction.scale(t))
    }
}

} // verus!
