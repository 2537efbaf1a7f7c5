//! Cubes, composed of six axis-aligned rectangles; the nearest face wins.

use vstd::prelude::*;
use crate::geometry::axis_aligned_bounding_box::AxisAlignedBoundingBox;
use crate::geometry::rectangle::{XyRect, XzRect, YzRect, xy_hit_spec, xz_hit_spec, yz_hit_spec};
use crate::geometry::HitResult;
use crate::materials::Material;
use crate::ray::Ray;
use crate::scalar::Scalar;
use crate::vector::Vector;

verus! {

#[derive(Clone, Copy, PartialEq, Eq, Structural, Debug)]
pub struct Cube {
    pub corner_min: Vector,
    pub corner_max: Vector,
    pub face_xy_lo: XyRect,
    pub face_xy_hi: XyRect,
    pub face_xz_lo: XzRect,
    pub face_xz_hi: XzRect,
    pub face_yz_lo: YzRect,
    pub face_yz_hi: YzRect,
}

/// The six faces a cube between `p0` and `p1` is made of.
pub open spec fn make_cube(p0: Vector, p1: Vector, material: Material) -> Cube {
    Cube {
        corner_min: p0,
        corner_max: p1,
        face_xy_lo: XyRect { x0: p0.x, x1: p1.x, y0: p0.y, y1: p1.y, k: p0.z, material },
        face_xy_hi: XyRect { x0: p0.x, x1: p1.x, y0: p0.y, y1: p1.y, k: p1.z, material },
        face_xz_lo: XzRect { x0: p0.x, x1: p1.x, z0: p0.z, z1: p1.z, k: p0.y, material },
        face_xz_hi: XzRect { x0: p0.x, x1: p1.x, z0: p0.z, z1: p1.z, k: p1.y, material },
        face_yz_lo: YzRect { y0: p0.y, y1: p1.y, z0: p0.z, z1: p1.z, k: p0.x, material },
        face_yz_hi: YzRect { y0: p0.y, y1: p1.y, z0: p0.z, z1: p1.z, k: p1.x, material },
    }
}

/// The running nearest hit: a new hit, found under a tightened upper
/// parameter bound, displaces the one found so far.
pub open spec fn nearer_hit(acc: Option<HitResult>, cur: Option<HitResult>) -> Option<HitResult> {
    match cur {
        Some(h) => Some(h),
        None => acc,
    }
}

/// The upper parameter bound after a candidate hit: its distance, or the
/// incoming bound when nothing was hit yet.
pub open spec fn cap_t(acc: Option<HitResult>, tmax: Scalar) -> Scalar {
    match acc {
        Some(h) => h.distance,
        None => tmax,
    }
}

/// The nearest intersection across the six faces: each face is probed with
/// the bound tightened to the best hit so far.
pub open spec fn cube_hit_spec(c: Cube, ray: Ray, tmin: Scalar, tmax: Scalar) -> Option<HitResult> {
    let b0: Option<HitResult> = None;
    let b1 = nearer_hit(b0, xy_hit_spec(c.face_xy_lo, ray, tmin, cap_t(b0, tmax)));
    let b2 = nearer_hit(b1, xy_hit_spec(c.face_xy_hi, ray, tmin, cap_t(b1, tmax)));
    let b3 = nearer_hit(b2, xz_hit_spec(c.face_xz_lo, ray, tmin, cap_t(b2, tmax)));
    let b4 = nearer_hit(b3, xz_hit_spec(c.face_xz_hi, ray, tmin, cap_t(b3, tmax)));
    let b5 = nearer_hit(b4, yz_hit_spec(c.face_yz_lo, ray, tmin, cap_t(b4, tmax)));
    nearer_hit(b5, yz_hit_spec(c.face_yz_hi, ray, tmin, cap_t(b5, tmax)))
}

impl Cube {
    /// The corners are ordered on every axis and the six faces are exactly
    /// the faces of the box those corners span.
    pub open spec fn wf(self) -> bool {
        &&& self.corner_min.x.v() < self.corner_max.x.v()
        &&& self.corner_min.y.v() < self.corner_max.y.v()
        &&& self.corner_min.z.v() < self.corner_max.z.v()
        &&& self == make_cube(self.corner_min, self.corner_max, self.face_xy_lo.material)
    }

    pub fn build(p0: Vector, p1: Vector, material: Material) -> (r: Cube)
        requires
            p0.x.v() < p1.x.v(),
            p0.y.v() < p1.y.v(),
            p0.z.v() < p1.z.v(),
        ensures
            r == make_cube(p0, p1, material),
            r.wf(),
    {
        Cube {
            corner_min: p0,
            corner_max: p1,
            face_xy_lo: XyRect { x0: p0.x, x1: p1.x, y0: p0.y, y1: p1.y, k: p0.z, material },
            face_xy_hi: XyRect { x0: p0.x, x1: p1.x, y0: p0.y, y1: p1.y, k: p1.z, material },
            face_xz_lo: XzRect { x0: p0.x, x1: p1.x, z0: p0.z, z1: p1.z, k: p0.y, material },
            face_xz_hi: XzRect { x0: p0.x, x1: p1.x, z0: p0.z, z1: p1.z, k: p1.y, material },
            face_yz_lo: YzRect { y0: p0.y, y1: p1.y, z0: p0.z, z1: p1.z, k: p0.x, material },
            face_yz_hi: YzRect { y0: p0.y, y1: p1.y, z0: p0.z, z1: p1.z, k: p1.x, material },
        }
    }

    pub(crate) fn hit(&self, ray: &Ray, tmin: Scalar, tmax: Scalar) -> (res: Option<HitResult>)
        requires
            self.wf(),
        ensures
            res == cube_hit_spec(*self, *ray, tmin, tmax),
    {
        let mut best: Option<HitResult> = None;
        let h = self.face_xy_lo.hit(ray, tmin, cap_exec(&best, tmax));
        best = nearer_exec(best, h);
        let h = self.face_xy_hi.hit(ray, tmin, cap_exec(&best, tmax));
        best = nearer_exec(best, h);
        let h = self.face_xz_lo.hit(ray, tmin, cap_exec(&best, tmax));
        best = nearer_exec(best, h);
        let h = self.face_xz_hi.hit(ray, tmin, cap_exec(&best, tmax));
        best = nearer_exec(best, h);
        let h = self.face_yz_lo.hit(ray, tmin, cap_exec(&best, tmax));
        best = nearer_exec(best, h);
        let h = self.face_yz_hi.hit(ray, tmin, cap_exec(&best, tmax));
        best = nearer_exec(best, h);
        best
    }

    pub open spec fn bbox_spec(self) -> AxisAlignedBoundingBox {
        AxisAlignedBoundingBox { min: self.corner_min, max: self.corner_max }
    }

    pub(crate) fn bounding_box(&self) -> (r: AxisAlignedBoundingBox)
        ensures
            r == self.bbox_spec(),
    {
        AxisAlignedBoundingBox { min: self.corner_min, max: self.corner_max }
    }
}

fn cap_exec(acc: &Option<HitResult>, tmax: Scalar) -> (r: Scalar)
    ensures
        r == cap_t(*acc, tmax),
{
    match acc {
        Some(h) => h.distance,
        None => tmax,
    }
}

fn nearer_exec(acc: Option<HitResult>, cur: Option<HitResult>) -> (r: Option<HitResult>)
    ensures
        r == nearer_hit(acc, cur),
{
    match cur {
        Some(h) => Some(h),
        None => acc,
    }
}

} // verus!
