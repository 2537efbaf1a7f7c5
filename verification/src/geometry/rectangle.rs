//! Axis-aligned rectangles in the three coordinate planes.

use vstd::prelude::*;
use crate::geometry::axis_aligned_bounding_box::AxisAlignedBoundingBox;
use crate::geometry::HitResult;
use crate::materials::Material;
use crate::ray::{Ray, ray_at};
use crate::rng::random_unit_scalar;
use crate::scalar::{
    Scalar, lemma_sqrt_unique, sc_abs, sc_add, sc_div, sc_mul, sc_sub, sqrt_of, SCALE,
};
use crate::vector::{Vector, vdot, vlen_sq, vsub};

verus! {

/// Padding of a flat box on its degenerate axis, in raw fixed-point steps.
pub const RECT_PAD_RAW: i64 = 7;

/// The parameter floor used when a rectangle is probed as a light-sampling
/// target, in raw fixed-point steps.
pub const ATTRACTOR_T_EPS_RAW: i64 = 66;

#[derive(Clone, Copy, PartialEq, Eq, Structural, Debug)]
pub struct XyRect {
    pub x0: Scalar,
    pub x1: Scalar,
    pub y0: Scalar,
    pub y1: Scalar,
    pub k: Scalar,
    pub material: Material,
}

#[derive(Clone, Copy, PartialEq, Eq, Structural, Debug)]
pub struct XzRect {
    pub x0: Scalar,
    pub x1: Scalar,
    pub z0: Scalar,
    pub z1: Scalar,
    pub k: Scalar,
    pub material: Material,
}

#[derive(Clone, Copy, PartialEq, Eq, Structural, Debug)]
pub struct YzRect {
    pub y0: Scalar,
    pub y1: Scalar,
    pub z0: Scalar,
    pub z1: Scalar,
    pub k: Scalar,
    pub material: Material,
}

/// The shared plane-intersection mirror: the ray parameter at which the
/// fixed coordinate `k` is reached, the two in-plane coordinates there, and
/// the hit record if everything lies within range.
pub open spec fn plane_hit_spec(
    a0: Scalar,
    a1: Scalar,
    b0: Scalar,
    b1: Scalar,
    k: Scalar,
    o_fixed: Scalar,
    d_fixed: Scalar,
    o_a: Scalar,
    d_a: Scalar,
    o_b: Scalar,
    d_b: Scalar,
    tmin: Scalar,
    tmax: Scalar,
) -> Option<(Scalar, Scalar, Scalar)>
    recommends
        a0.v() < a1.v(),
        b0.v() < b1.v(),
{
    if d_fixed.v() == 0 {
        None
    } else {
        let t = sc_div(sc_sub(k, o_fixed), d_fixed);
        if !(tmin.v() < t.v() && t.v() <= tmax.v()) {
            None
        } else {
            let a = sc_add(o_a, sc_mul(t, d_a));
            let b = sc_add(o_b, sc_mul(t, d_b));
            if a.v() < a0.v() || a.v() > a1.v() || b.v() < b0.v() || b.v() > b1.v() {
                None
            } else {
                Some((t, sc_div(sc_sub(a, a0), sc_sub(a1, a0)), sc_div(sc_sub(b, b0), sc_sub(b1, b0))))
            }
        }
    }
}

fn plane_hit(
    a0: Scalar,
    a1: Scalar,
    b0: Scalar,
    b1: Scalar,
    k: Scalar,
    o_fixed: Scalar,
    d_fixed: Scalar,
    o_a: Scalar,
    d_a: Scalar,
    o_b: Scalar,
    d_b: Scalar,
    tmin: Scalar,
    tmax: Scalar,
) -> (res: Option<(Scalar, Scalar, Scalar)>)
    requires
        a0.v() < a1.v(),
        b0.v() < b1.v(),
    ensures
        res == plane_hit_spec(a0, a1, b0, b1, k, o_fixed, d_fixed, o_a, d_a, o_b, d_b, tmin, tmax),
{
    if d_fixed.raw == 0 {
        return None;
    }
    let t = k.minus(o_fixed).over(d_fixed);
    if !(tmin.lt(t) && t.le(tmax)) {
        return None;
    }
    let a = o_a.plus(t.times(d_a));
    let b = o_b.plus(t.times(d_b));
    if a.lt(a0) || a1.lt(a) || b.lt(b0) || b1.lt(b) {
        return None;
    }
    let span_a = a1.minus(a0);
    let span_b = b1.minus(b0);
    Some((t, a.minus(a0).over(span_a), b.minus(b0).over(span_b)))
}

pub open spec fn xy_hit_spec(r: XyRect, ray: Ray, tmin: Scalar, tmax: Scalar) -> Option<HitResult>
    recommends
        r.x0.v() < r.x1.v(),
        r.y0.v() < r.y1.v(),
{
    match plane_hit_spec(
        r.x0, r.x1, r.y0, r.y1, r.k,
        ray.origin.z, ray.direction.z,
        ray.origin.x, ray.direction.x,
        ray.origin.y, ray.direction.y,
        tmin, tmax,
    ) {
        None => None,
        Some((t, u, v)) => Some(HitResult {
            distance: t,
            ray,
            point: ray_at(ray, t),
            surface_normal: Vector {
                x: Scalar { raw: 0 },
                y: Scalar { raw: 0 },
                z: Scalar { raw: SCALE },
            },
            material: r.material,
            texture_coords: (u, v),
        }),
    }
}

pub open spec fn xz_hit_spec(r: XzRect, ray: Ray, tmin: Scalar, tmax: Scalar) -> Option<HitResult>
    recommends
        r.x0.v() < r.x1.v(),
        r.z0.v() < r.z1.v(),
{
    match plane_hit_spec(
        r.x0, r.x1, r.z0, r.z1, r.k,
        ray.origin.y, ray.direction.y,
        ray.origin.x, ray.direction.x,
        ray.origin.z, ray.direction.z,
        tmin, tmax,
    ) {
        None => None,
        Some((t, u, v)) => Some(HitResult {
            distance: t,
            ray,
            point: ray_at(ray, t),
            surface_normal: Vector {
                x: Scalar { raw: 0 },
                y: Scalar { raw: SCALE },
                z: Scalar { raw: 0 },
            },
            material: r.material,
            texture_coords: (u, v),
        }),
    }
}

pub open spec fn yz_hit_spec(r: YzRect, ray: Ray, tmin: Scalar, tmax: Scalar) -> Option<HitResult>
    recommends
        r.y0.v() < r.y1.v(),
        r.z0.v() < r.z1.v(),
{
    match plane_hit_spec(
        r.y0, r.y1, r.z0, r.z1, r.k,
        ray.origin.x, ray.direction.x,
        ray.origin.y, ray.direction.y,
        ray.origin.z, ray.direction.z,
        tmin, tmax,
    ) {
        None => None,
        Some((t, u, v)) => Some(HitResult {
            distance: t,
            ray,
            point: ray_at(ray, t),
            surface_normal: Vector {
                x: Scalar { raw: SCALE },
                y: Scalar { raw: 0 },
                z: Scalar { raw: 0 },
            },
            material: r.material,
            texture_coords: (u, v),
        }),
    }
}

impl XyRect {
    pub open spec fn wf(self) -> bool {
        self.x0.v() < self.x1.v() && self.y0.v() < self.y1.v()
    }

    pub(crate) fn hit(&self, ray: &Ray, tmin: Scalar, tmax: Scalar) -> (res: Option<HitResult>)
        requires
            self.wf(),
        ensures
            res == xy_hit_spec(*self, *ray, tmin, tmax),
    {
        match plane_hit(
            self.x0, self.x1, self.y0, self.y1, self.k,
            ray.origin.z, ray.direction.z,
            ray.origin.x, ray.direction.x,
            ray.origin.y, ray.direction.y,
            tmin, tmax,
        ) {
            None => None,
            Some((t, u, v)) => Some(HitResult {
                distance: t,
                ray: *ray,
                point: ray.point_at(t),
                surface_normal: Vector {
                    x: Scalar { raw: 0 },
                    y: Scalar { raw: 0 },
                    z: Scalar { raw: SCALE },
                },
                material: self.material,
                texture_coords: (u, v),
            }),
        }
    }

    /// The flat box around the rectangle, padded on the fixed axis.
    pub open spec fn bbox_spec(self) -> AxisAlignedBoundingBox {
        AxisAlignedBoundingBox {
            min: Vector { x: self.x0, y: self.y0, z: sc_sub(self.k, Scalar { raw: RECT_PAD_RAW }) },
            max: Vector { x: self.x1, y: self.y1, z: sc_add(self.k, Scalar { raw: RECT_PAD_RAW }) },
        }
    }

    pub(crate) fn bounding_box(&self) -> (r: AxisAlignedBoundingBox)
        ensures
            r == self.bbox_spec(),
    {
        let pad = Scalar { raw: RECT_PAD_RAW };
        AxisAlignedBoundingBox {
            min: Vector { x: self.x0, y: self.y0, z: self.k.minus(pad) },
            max: Vector { x: self.x1, y: self.y1, z: self.k.plus(pad) },
        }
    }
}

impl XzRect {
    pub open spec fn wf(self) -> bool {
        self.x0.v() < self.x1.v() && self.z0.v() < self.z1.v()
    }

    pub(crate) fn hit(&self, ray: &Ray, tmin: Scalar, tmax: Scalar) -> (res: Option<HitResult>)
        requires
            self.wf(),
        ensures
            res == xz_hit_spec(*self, *ray, tmin, tmax),
    {
        match plane_hit(
            self.x0, self.x1, self.z0, self.z1, self.k,
            ray.origin.y, ray.direction.y,
            ray.origin.x, ray.direction.x,
            ray.origin.z, ray.direction.z,
            tmin, tmax,
        ) {
            None => None,
            Some((t, u, v)) => Some(HitResult {
                distance: t,
                ray: *ray,
                point: ray.point_at(t),
                surface_normal: Vector {
                    x: Scalar { raw: 0 },
                    y: Scalar { raw: SCALE },
                    z: Scalar { raw: 0 },
                },
                material: self.material,
                texture_coords: (u, v),
            }),
        }
    }

    pub open spec fn bbox_spec(self) -> AxisAlignedBoundingBox {
        AxisAlignedBoundingBox {
            min: Vector { x: self.x0, y: sc_sub(self.k, Scalar { raw: RECT_PAD_RAW }), z: self.z0 },
            max: Vector { x: self.x1, y: sc_add(self.k, Scalar { raw: RECT_PAD_RAW }), z: self.z1 },
        }
    }

    pub(crate) fn bounding_box(&self) -> (r: AxisAlignedBoundingBox)
        ensures
            r == self.bbox_spec(),
    {
        let pad = Scalar { raw: RECT_PAD_RAW };
        AxisAlignedBoundingBox {
            min: Vector { x: self.x0, y: self.k.minus(pad), z: self.z0 },
            max: Vector { x: self.x1, y: self.k.plus(pad), z: self.z1 },
        }
    }
}

impl YzRect {
    pub open spec fn wf(self) -> bool {
        self.y0.v() < self.y1.v() && self.z0.v() < self.z1.v()
    }

    pub(crate) fn hit(&self, ray: &Ray, tmin: Scalar, tmax: Scalar) -> (res: Option<HitResult>)
        requires
            self.wf(),
        ensures
            res == yz_hit_spec(*self, *ray, tmin, tmax),
    {
        match plane_hit(
            self.y0, self.y1, self.z0, self.z1, self.k,
            ray.origin.x, ray.direction.x,
            ray.origin.y, ray.direction.y,
            ray.origin.z, ray.direction.z,
            tmin, tmax,
        ) {
            None => None,
            Some((t, u, v)) => Some(HitResult {
                distance: t,
                ray: *ray,
                point: ray.point_at(t),
                surface_normal: Vector {
                    x: Scalar { raw: SCALE },
                    y: Scalar { raw: 0 },
                    z: Scalar { raw: 0 },
                },
                material: self.material,
                texture_coords: (u, v),
            }),
        }
    }

    pub open spec fn bbox_spec(self) -> AxisAlignedBoundingBox {
        AxisAlignedBoundingBox {
            min: Vector { x: sc_sub(self.k, Scalar { raw: RECT_PAD_RAW }), y: self.y0, z: self.z0 },
            max: Vector { x: sc_add(self.k, Scalar { raw: RECT_PAD_RAW }), y: self.y1, z: self.z1 },
        }
    }

    pub(crate) fn bounding_box(&self) -> (r: AxisAlignedBoundingBox)
        ensures
            r == self.bbox_spec(),
    {
        let pad = Scalar { raw: RECT_PAD_RAW };
        AxisAlignedBoundingBox {
            min: Vector { x: self.k.minus(pad), y: self.y0, z: self.z0 },
            max: Vector { x: self.k.plus(pad), y: self.y1, z: self.z1 },
        }
    }
}

/// The probability density that a ray from `origin` along `direction`
/// samples this rectangle: squared distance over the cosine-weighted area,
/// and zero when the rectangle is missed or the weight degenerates.
pub open spec fn xz_pdf_spec(r: XzRect, origin: Vector, direction: Vector) -> Scalar
    recommends
        r.wf(),
{
    let probe = Ray { origin, direction, time: Scalar { raw: 0 } };
    match xz_hit_spec(r, probe, Scalar { raw: ATTRACTOR_T_EPS_RAW }, Scalar { raw: i64::MAX }) {
        None => Scalar { raw: 0 },
        Some(h) => {
            let len = sqrt_of(vlen_sq(direction));
            if len.v() == 0 {
                Scalar { raw: 0 }
            } else {
                let area = sc_mul(sc_sub(r.x1, r.x0), sc_sub(r.z1, r.z0));
                let dist_sq = sc_mul(sc_mul(h.distance, h.distance), vlen_sq(direction));
                let cosine = sc_div(sc_abs(direction.y), len);
                let denom = sc_mul(cosine, area);
                if denom.v() == 0 {
                    Scalar { raw: 0 }
                } else {
                    sc_div(dist_sq, denom)
                }
            }
        },
    }
}

/// A sampled direction from `origin` toward a uniformly drawn point of the
/// rectangle, with draws `u`, `v` in `[0, 1)`.
pub open spec fn xz_random_witness(
    r: XzRect,
    origin: Vector,
    res: Vector,
    u: Scalar,
    v: Scalar,
) -> bool {
    &&& 0 <= u.v() < SCALE
    &&& 0 <= v.v() < SCALE
    &&& res == vsub(
        Vector {
            x: sc_add(r.x0, sc_mul(u, sc_sub(r.x1, r.x0))),
            y: r.k,
            z: sc_add(r.z0, sc_mul(v, sc_sub(r.z1, r.z0))),
        },
        origin,
    )
}

impl XzRect {
    pub(crate) fn pdf_value(&self, origin: &Vector, direction: &Vector) -> (r: Scalar)
        requires
            self.wf(),
        ensures
            r == xz_pdf_spec(*self, *origin, *direction),
    {
        let probe = Ray::new(*origin, *direction, Scalar { raw: 0 });
        let zero = Scalar { raw: 0 };
        match self.hit(&probe, Scalar { raw: ATTRACTOR_T_EPS_RAW }, Scalar { raw: i64::MAX }) {
            None => zero,
            Some(h) => {
                let lsq = direction.len_squared();
                let len = lsq.sqrt_s();
                proof {
                    lemma_sqrt_unique(lsq, len);
                }
                if len.raw == 0 {
                    return zero;
                }
                let area = self.x1.minus(self.x0).times(self.z1.minus(self.z0));
                let dist_sq = h.distance.times(h.distance).times(lsq);
                let cosine = direction.y.abs_s().over(len);
                let denom = cosine.times(area);
                if denom.raw == 0 {
                    return zero;
                }
                dist_sq.over(denom)
            },
        }
    }

    pub(crate) fn random(&self, origin: &Vector) -> (r: Vector)
        ensures
            exists|u: Scalar, v: Scalar| xz_random_witness(*self, *origin, r, u, v),
    {
        let u = random_unit_scalar();
        let v = random_unit_scalar();
        let point = Vector {
            x: self.x0.plus(u.times(self.x1.minus(self.x0))),
            y: self.k,
            z: self.z0.plus(v.times(self.z1.minus(self.z0))),
        };
        let r = point.sub_v(*origin);
        proof {
            assert(xz_random_witness(*self, *origin, r, u, v));
        }
        r
    }
}

} // verus!
