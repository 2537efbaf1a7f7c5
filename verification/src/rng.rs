//! The single source of randomness the core draws from.

use vstd::prelude::*;
use crate::scalar::{Scalar, SCALE};
use crate::vector::{Vector, vlen_sq};

verus! {

/// Relies on rand::random: a machine word drawn from the thread-local
/// generator. Nothing is promised of its value.
#[verifier::external_body]
pub(crate) fn random_word() -> u64 {
    rand::random()
}

/// A uniform draw with `0 <= r.v() < SCALE`, that is in `[0, 1)`.
pub(crate) fn random_unit_scalar() -> (r: Scalar)
    ensures
        0 <= r.v() < SCALE,
{
    let w = random_word();
    let raw = (w % (SCALE as u64)) as i64;
    Scalar { raw }
}

/// A uniform draw with `1 <= r.raw <= SCALE`, that is in `(0, 1]`.
pub(crate) fn random_positive_unit_scalar() -> (r: Scalar)
    ensures
        1 <= r.v() <= SCALE,
{
    let w = random_word();
    let raw = (w % (SCALE as u64)) as i64 + 1;
    Scalar { raw }
}

/// A uniform draw from `{0, 1, 2}`.
pub(crate) fn random_axis() -> (r: u64)
    ensures
        r < 3,
{
    random_word() % 3
}

/// The drawn point lies strictly inside the unit sphere.
pub open spec fn in_unit_sphere(p: Vector) -> bool {
    vlen_sq(p).v() < SCALE
}

fn random_unit_range_coord() -> (r: Scalar)
    ensures
        -SCALE <= r.v() < SCALE,
{
    let w = random_word();
    let raw = (w % ((2 * SCALE) as u64)) as i64 - SCALE;
    Scalar { raw }
}

/// Rejection sampling of a point inside the unit sphere, as the renderer's
/// diffuse bounce uses it. The draw is retried a bounded number of times;
/// on the (practically unreachable) exhaustion of the budget the centre,
/// which lies inside every unit sphere, is handed back.
pub(crate) fn random_point_in_unit_sphere() -> (r: Vector)
    ensures
        in_unit_sphere(r),
{
    let mut tries: usize = 0;
    while tries < 1024
        invariant
            tries <= 1024,
        decreases 1024 - tries,
    {
        let p = Vector {
            x: random_unit_range_coord(),
            y: random_unit_range_coord(),
            z: random_unit_range_coord(),
        };
        let l = p.len_squared();
        if l.raw < SCALE {
            return p;
        }
        tries = tries + 1;
    }
    let zero = Scalar { raw: 0 };
    let c = Vector { x: zero, y: zero, z: zero };
    proof {
        crate::vector::lemma_len_sq_nonneg(c);
        assert(vlen_sq(c).v() == 0);
    }
    c
}

} // verus!
