//! Three-component vectors over the fixed-point scalar.

use vstd::prelude::*;
use crate::scalar::{Scalar, sc, sc_add, sc_sub, sc_neg, sc_mul, sc_div, sc_min, sc_max, is_sqrt_floor, SCALE};

verus! {

#[derive(Clone, Copy, PartialEq, Eq, Structural, Debug)]
pub struct Vector {
    pub x: Scalar,
    pub y: Scalar,
    pub z: Scalar,
}

pub open spec fn vadd(a: Vector, b: Vector) -> Vector {
    Vector { x: sc_add(a.x, b.x), y: sc_add(a.y, b.y), z: sc_add(a.z, b.z) }
}

pub open spec fn vsub(a: Vector, b: Vector) -> Vector {
    Vector { x: sc_sub(a.x, b.x), y: sc_sub(a.y, b.y), z: sc_sub(a.z, b.z) }
}

pub open spec fn vneg(a: Vector) -> Vector {
    Vector { x: sc_neg(a.x), y: sc_neg(a.y), z: sc_neg(a.z) }
}

pub open spec fn vscale(k: Scalar, a: Vector) -> Vector {
    Vector { x: sc_mul(k, a.x), y: sc_mul(k, a.y), z: sc_mul(k, a.z) }
}

/// Componentwise division by a scalar.
pub open spec fn vdivk(a: Vector, k: Scalar) -> Vector
    recommends
        k.v() != 0,
{
    Vector { x: sc_div(a.x, k), y: sc_div(a.y, k), z: sc_div(a.z, k) }
}

/// Componentwise minimum.
pub open spec fn vmin(a: Vector, b: Vector) -> Vector {
    Vector { x: sc_min(a.x, b.x), y: sc_min(a.y, b.y), z: sc_min(a.z, b.z) }
}

/// Componentwise maximum.
pub open spec fn vmax(a: Vector, b: Vector) -> Vector {
    Vector { x: sc_max(a.x, b.x), y: sc_max(a.y, b.y), z: sc_max(a.z, b.z) }
}

pub open spec fn vdot(a: Vector, b: Vector) -> Scalar {
    sc_add(sc_add(sc_mul(a.x, b.x), sc_mul(a.y, b.y)), sc_mul(a.z, b.z))
}

pub open spec fn vlen_sq(a: Vector) -> Scalar {
    vdot(a, a)
}

impl Vector {
    pub fn new(x: Scalar, y: Scalar, z: Scalar) -> (r: Vector)
        ensures
            r == (Vector { x, y, z }),
    {
        Vector { x, y, z }
    }

    pub fn add_v(self, o: Vector) -> (r: Vector)
        ensures
            r == vadd(self, o),
    {
        Vector { x: self.x.plus(o.x), y: self.y.plus(o.y), z: self.z.plus(o.z) }
    }

    pub fn sub_v(self, o: Vector) -> (r: Vector)
        ensures
            r == vsub(self, o),
    {
        Vector { x: self.x.minus(o.x), y: self.y.minus(o.y), z: self.z.minus(o.z) }
    }

    pub fn neg_v(self) -> (r: Vector)
        ensures
            r == vneg(self),
    {
        Vector { x: self.x.neg(), y: self.y.neg(), z: self.z.neg() }
    }

    pub fn scale(self, k: Scalar) -> (r: Vector)
        ensures
            r == vscale(k, self),
    {
        Vector { x: k.times(self.x), y: k.times(self.y), z: k.times(self.z) }
    }

    pub fn div_k(self, k: Scalar) -> (r: Vector)
        requires
            k.v() != 0,
        ensures
            r == vdivk(self, k),
    {
        Vector { x: self.x.over(k), y: self.y.over(k), z: self.z.over(k) }
    }

    pub fn min_v(self, o: Vector) -> (r: Vector)
        ensures
            r == vmin(self, o),
    {
        Vector { x: self.x.min_s(o.x), y: self.y.min_s(o.y), z: self.z.min_s(o.z) }
    }

    pub fn max_v(self, o: Vector) -> (r: Vector)
        ensures
            r == vmax(self, o),
    {
        Vector { x: self.x.max_s(o.x), y: self.y.max_s(o.y), z: self.z.max_s(o.z) }
    }

    pub fn dot(self, o: Vector) -> (r: Scalar)
        ensures
            r == vdot(self, o),
    {
        self.x.times(o.x).plus(self.y.times(o.y)).plus(self.z.times(o.z))
    }

    pub fn len_squared(self) -> (r: Scalar)
        ensures
            r == vlen_sq(self),
            0 <= r.v(),
    {
        proof {
            lemma_len_sq_nonneg(self);
        }
        self.dot(self)
    }

    /// Length in fixed point: the floor square root of the squared length.
    pub fn length(self) -> (r: Scalar)
        ensures
            0 <= r.v(),
            is_sqrt_floor(vlen_sq(self).v() * SCALE, r.v()),
    {
        self.len_squared().sqrt_s()
    }

    /// The vector scaled to (roughly, after rounding) unit length; the zero
    /// vector, whose direction is undefined, is handed back unchanged.
    pub fn unit_vector(self) -> (r: Vector)
        ensures
            unit_of(self, r),
    {
        let l = self.length();
        if l.raw == 0 {
            proof {
                assert(unit_witness(self, self, l));
            }
            self
        } else {
            let r = Vector { x: self.x.over(l), y: self.y.over(l), z: self.z.over(l) };
            proof {
                assert(unit_witness(self, r, l));
            }
            r
        }
    }
}

/// `l` is the fixed-point floor length of `a`, and `r` is `a` divided by it,
/// or `a` itself when that length rounds to zero.
pub open spec fn unit_witness(a: Vector, r: Vector, l: Scalar) -> bool {
    0 <= l.v() && is_sqrt_floor(vlen_sq(a).v() * SCALE, l.v()) && if l.v() == 0 {
        r == a
    } else {
        r == (Vector { x: sc_div(a.x, l), y: sc_div(a.y, l), z: sc_div(a.z, l) })
    }
}

/// `r` is `a` divided by the fixed-point floor length of `a`, or `a` itself
/// when that length rounds to zero.
pub open spec fn unit_of(a: Vector, r: Vector) -> bool {
    exists|l: Scalar| unit_witness(a, r, l)
}

pub proof fn lemma_len_sq_nonneg(a: Vector)
    ensures
        0 <= vlen_sq(a).v(),
{
    assert(0 <= sc_mul(a.x, a.x).v() && 0 <= sc_mul(a.y, a.y).v() && 0 <= sc_mul(a.z, a.z).v())
        by (nonlinear_arith);
}

} // verus!
