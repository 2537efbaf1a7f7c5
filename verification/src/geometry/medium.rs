//! Homogeneous participating media with probabilistic free-flight hits.

use vstd::prelude::*;
use crate::geometry::Geometry;
use crate::materials::Material;
use crate::scalar::{Scalar, SCALE};

verus! {

#[derive(Debug)]
pub struct ConstantMedium {
    pub boundary: Geometry,
    pub density: Scalar,
    pub phase_function: Material,
}

/// The parameter floor used when the boundary is probed a second time,
/// just past the entry hit, in raw fixed-point steps.
pub const MEDIUM_T_EPS_RAW: i64 = 66;

/// `-ln(u)` for a unit-interval `u`, non-negative by construction: the
/// argument is doubled into `[1/2, 1]` while whole multiples of `ln 2`
/// accumulate, and the remainder comes from the Mercator series.
pub(crate) fn neg_ln_unit(u: Scalar) -> (r: Scalar)
    requires
        1 <= u.v() <= SCALE,
    ensures
        0 <= r.v(),
        u.v() == SCALE ==> r.v() == 0,
{
    let mut v: i64 = u.raw;
    let mut acc = Scalar { raw: 0 };
    while v < 32768
        invariant
            1 <= v <= SCALE,
            0 <= acc.v(),
            u.v() == SCALE ==> (v == SCALE && acc.v() == 0),
        decreases SCALE - v,
    {
        v = 2 * v;
        acc = acc.plus(Scalar { raw: 45426 });
    }
    let z = Scalar { raw: SCALE - v };
    proof {
        assert(0 <= z.v() && z.v() <= SCALE);
        crate::scalar::lemma_sc_mul_nonneg(z, z);
    }
    let z2 = z.times(z);
    proof {
        crate::scalar::lemma_sc_mul_nonneg(z2, z);
        crate::scalar::lemma_sc_mul_nonneg(z2, z2);
    }
    let z3 = z2.times(z);
    let z4 = z2.times(z2);
    proof {
        crate::scalar::lemma_sc_div_nonneg(z2, Scalar { raw: 131072 });
        crate::scalar::lemma_sc_div_nonneg(z3, Scalar { raw: 196608 });
        crate::scalar::lemma_sc_div_nonneg(z4, Scalar { raw: 262144 });
    }
    let series = z.plus(z2.over(Scalar { raw: 131072 })).plus(
        z3.over(Scalar { raw: 196608 }),
    ).plus(z4.over(Scalar { raw: 262144 }));
    acc.plus(series)
}

} // verus!
