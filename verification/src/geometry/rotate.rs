//! Rotation of a wrapped geometry about the Y axis.

use vstd::prelude::*;
use crate::geometry::axis_aligned_bounding_box::AxisAlignedBoundingBox;
use crate::geometry::Geometry;
use crate::scalar::{Scalar, iabs, sc_add, sc_div, sc_max, sc_min, sc_mul, sc_sub, SCALE};

verus! {

/// Half a turn, in raw fixed-point steps.
pub const PI_RAW: i64 = 205887;

/// The raw radian count folded into `[-PI_RAW, PI_RAW]` by whole turns.
pub open spec fn wrap_half_turn(r: int) -> int
    decreases iabs(r),
{
    if r < -PI_RAW {
        wrap_half_turn(r + 2 * PI_RAW)
    } else if r > PI_RAW {
        wrap_half_turn(r - 2 * PI_RAW)
    } else {
        r
    }
}

/// Mirror of the truncated sine series over the wrapped angle, clamped
/// into `[-1, 1]`.
pub open spec fn taylor_sin(x: Scalar) -> Scalar {
    let x2 = sc_mul(x, x);
    let x3 = sc_mul(x2, x);
    let x4 = sc_mul(x2, x2);
    let x5 = sc_mul(x4, x);
    let x6 = sc_mul(x4, x2);
    let x7 = sc_mul(x6, x);
    let sum = sc_sub(
        sc_add(sc_sub(x, sc_div(x3, Scalar { raw: 393216 })), sc_div(x5, Scalar { raw: 7864320 })),
        sc_div(x7, Scalar { raw: 330301440 }),
    );
    sc_max(sc_min(sum, Scalar { raw: SCALE }), Scalar { raw: -65536i64 })
}

/// Mirror of the truncated cosine series, clamped into `[-1, 1]`.
pub open spec fn taylor_cos(x: Scalar) -> Scalar {
    let one = Scalar { raw: SCALE };
    let x2 = sc_mul(x, x);
    let x4 = sc_mul(x2, x2);
    let x6 = sc_mul(x4, x2);
    let sum = sc_sub(
        sc_add(sc_sub(one, sc_div(x2, Scalar { raw: 131072 })), sc_div(
            x4,
            Scalar { raw: 1572864 },
        )),
        sc_div(x6, Scalar { raw: 47185920 }),
    );
    sc_max(sc_min(sum, Scalar { raw: SCALE }), Scalar { raw: -65536i64 })
}

/// What `sin_cos_degrees` computes: degrees scaled into radians, wrapped
/// into a half turn each way, then the two truncated power series.
pub open spec fn sin_cos_spec(angle: Scalar) -> (Scalar, Scalar) {
    let rad0 = sc_div(sc_mul(angle, Scalar { raw: PI_RAW }), Scalar { raw: 11796480 });
    let x = Scalar { raw: wrap_half_turn(rad0.v()) as i64 };
    (taylor_sin(x), taylor_cos(x))
}

#[derive(Debug)]
pub struct RotateY {
    pub geometry: Geometry,
    pub sin_theta: Scalar,
    pub cos_theta: Scalar,
    pub bounding_box: AxisAlignedBoundingBox,
}

/// The sine and cosine of an angle given in degrees, by range reduction
/// into a half turn and a truncated power series, clamped into `[-1, 1]`.
pub(crate) fn sin_cos_degrees(angle: Scalar) -> (r: (Scalar, Scalar))
    ensures
        r == sin_cos_spec(angle),
        -SCALE <= r.0.v() <= SCALE,
        -SCALE <= r.1.v() <= SCALE,
{
    let pi = Scalar { raw: PI_RAW };
    let half_deg = Scalar { raw: 180 * SCALE };
    let mut rad = angle.times(pi).over(half_deg);
    let ghost rad0: int = rad.v();
    while rad.raw < -PI_RAW
        invariant
            wrap_half_turn(rad.v()) == wrap_half_turn(rad0),
        decreases i64::MAX as int - rad.raw,
    {
        rad = rad.plus(Scalar { raw: 2 * PI_RAW });
    }
    while rad.raw > PI_RAW
        invariant
            wrap_half_turn(rad.v()) == wrap_half_turn(rad0),
            -PI_RAW <= rad.raw,
        decreases rad.raw - i64::MIN as int,
    {
        rad = rad.minus(Scalar { raw: 2 * PI_RAW });
    }
    proof {
        assert(wrap_half_turn(rad.v()) == rad.v());
        assert(rad == (Scalar { raw: wrap_half_turn(rad0) as i64 }));
    }
    let one = Scalar { raw: SCALE };
    let neg_one = Scalar { raw: -SCALE };
    let x = rad;
    let x2 = x.times(x);
    let x3 = x2.times(x);
    let x4 = x2.times(x2);
    let x5 = x4.times(x);
    let x6 = x4.times(x2);
    let x7 = x6.times(x);
    let sin = x.minus(x3.over(Scalar { raw: 6 * SCALE })).plus(
        x5.over(Scalar { raw: 120 * SCALE }),
    ).minus(x7.over(Scalar { raw: 5040 * SCALE }));
    let cos = one.minus(x2.over(Scalar { raw: 2 * SCALE })).plus(
        x4.over(Scalar { raw: 24 * SCALE }),
    ).minus(x6.over(Scalar { raw: 720 * SCALE }));
    let sin = sin.min_s(one).max_s(neg_one);
    let cos = cos.min_s(one).max_s(neg_one);
    ((sin, cos))
}

} // verus!
