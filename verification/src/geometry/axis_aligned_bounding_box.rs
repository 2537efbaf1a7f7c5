//! Axis-aligned bounding boxes and their ray-slab test.

use vstd::prelude::*;
use crate::ray::Ray;
use crate::scalar::{Scalar, sc_add, sc_max, sc_min, sc_sub};
use crate::vector::{Vector, vmax, vmin};

verus! {

#[derive(Clone, Copy, PartialEq, Eq, Structural, Debug)]
pub struct AxisAlignedBoundingBox {
    pub min: Vector,
    pub max: Vector,
}

/// The box invariant: the lower corner is below the upper on every axis.
pub open spec fn aabb_wf(b: AxisAlignedBoundingBox) -> bool {
    b.min.x.v() <= b.max.x.v() && b.min.y.v() <= b.max.y.v() && b.min.z.v() <= b.max.z.v()
}

/// The smallest box enclosing both boxes: componentwise corner min/max.
pub open spec fn aabb_union(a: AxisAlignedBoundingBox, b: AxisAlignedBoundingBox)
    -> AxisAlignedBoundingBox {
    AxisAlignedBoundingBox { min: vmin(a.min, b.min), max: vmax(a.max, b.max) }
}

/// Outward slack on each slab plane, in raw fixed-point steps: the hit
/// computations round, and a reported hit the box should enclose may land
/// a few steps outside it; pushing the planes out keeps the pruning test
/// from cutting such hits away in the common cases. The slack is applied
/// in space, so a shallow direction amplifies it the same way it
/// amplifies the rounding; no exact enclosure bound is claimed.
pub const SLAB_SLACK_RAW: i64 = 64;

/// One slab of the test: the parameter interval in which the ray lies
/// between the two (slack-widened) planes of this axis, intersected with
/// the running interval; a ray parallel to the slab passes exactly when
/// its origin lies between the planes.
pub open spec fn slab_spec(
    min_c: Scalar,
    max_c: Scalar,
    o: Scalar,
    d: Scalar,
    acc: (Scalar, Scalar, bool),
) -> (Scalar, Scalar, bool) {
    let lo_c = sc_sub(min_c, Scalar { raw: SLAB_SLACK_RAW });
    let hi_c = sc_add(max_c, Scalar { raw: SLAB_SLACK_RAW });
    if !acc.2 {
        acc
    } else if d.v() == 0 {
        if o.v() < lo_c.v() || o.v() > hi_c.v() {
            (acc.0, acc.1, false)
        } else {
            acc
        }
    } else {
        let ta = crate::scalar::sc_div(sc_sub(lo_c, o), d);
        let tb = crate::scalar::sc_div(sc_sub(hi_c, o), d);
        let t0 = sc_min(ta, tb);
        let t1 = sc_max(ta, tb);
        let lo = sc_max(t0, acc.0);
        let hi = sc_min(t1, acc.1);
        if hi.v() <= lo.v() {
            (lo, hi, false)
        } else {
            (lo, hi, true)
        }
    }
}

/// Whether the ray passes through the box with a parameter in
/// `(tmin, tmax)`: the three slabs' intervals have a common part.
pub open spec fn aabb_hit_spec(
    b: AxisAlignedBoundingBox,
    ray: Ray,
    tmin: Scalar,
    tmax: Scalar,
) -> bool {
    let a0 = (tmin, tmax, true);
    let a1 = slab_spec(b.min.x, b.max.x, ray.origin.x, ray.direction.x, a0);
    let a2 = slab_spec(b.min.y, b.max.y, ray.origin.y, ray.direction.y, a1);
    let a3 = slab_spec(b.min.z, b.max.z, ray.origin.z, ray.direction.z, a2);
    a3.2
}

fn slab(min_c: Scalar, max_c: Scalar, o: Scalar, d: Scalar, acc: (Scalar, Scalar, bool)) -> (r: (
    Scalar,
    Scalar,
    bool,
))
    ensures
        r == slab_spec(min_c, max_c, o, d, acc),
{
    let lo_c = min_c.minus(Scalar { raw: SLAB_SLACK_RAW });
    let hi_c = max_c.plus(Scalar { raw: SLAB_SLACK_RAW });
    if !acc.2 {
        acc
    } else if d.raw == 0 {
        if o.lt(lo_c) || hi_c.lt(o) {
            (acc.0, acc.1, false)
        } else {
            acc
        }
    } else {
        let ta = lo_c.minus(o).over(d);
        let tb = hi_c.minus(o).over(d);
        let t0 = ta.min_s(tb);
        let t1 = ta.max_s(tb);
        let lo = t0.max_s(acc.0);
        let hi = t1.min_s(acc.1);
        if hi.le(lo) {
            (lo, hi, false)
        } else {
            (lo, hi, true)
        }
    }
}

impl AxisAlignedBoundingBox {
    pub fn new(min: Vector, max: Vector) -> (r: AxisAlignedBoundingBox)
        ensures
            r == (AxisAlignedBoundingBox { min, max }),
    {
        AxisAlignedBoundingBox { min, max }
    }

    pub fn union(self, o: AxisAlignedBoundingBox) -> (r: AxisAlignedBoundingBox)
        ensures
            r == aabb_union(self, o),
    {
        AxisAlignedBoundingBox { min: self.min.min_v(o.min), max: self.max.max_v(o.max) }
    }

    pub fn hit(&self, ray: &Ray, tmin: Scalar, tmax: Scalar) -> (r: bool)
        ensures
            r == aabb_hit_spec(*self, *ray, tmin, tmax),
    {
        let a1 = slab(self.min.x, self.max.x, ray.origin.x, ray.direction.x, (tmin, tmax, true));
        let a2 = slab(self.min.y, self.max.y, ray.origin.y, ray.direction.y, a1);
        let a3 = slab(self.min.z, self.max.z, ray.origin.z, ray.direction.z, a2);
        a3.2
    }
}

} // verus!
