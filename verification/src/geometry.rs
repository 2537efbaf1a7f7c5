//! The closed polymorphic set of geometries, and the single ray-intersection
//! entry point dispatching over it.

pub mod axis_aligned_bounding_box;
pub mod bounding_volume_hierarchy;
pub mod cube;
pub mod flip_normals;
pub mod medium;
pub mod rectangle;
pub mod rotate;
pub mod sphere;
pub mod translate;

use vstd::prelude::*;
use crate::assets::{Assets, ValidationError};
use crate::geometry::axis_aligned_bounding_box::{
    AxisAlignedBoundingBox, aabb_hit_spec, aabb_union, aabb_wf,
};
use crate::geometry::bounding_volume_hierarchy::BoundingVolumeHierarchyNode;
use crate::geometry::cube::{Cube, cube_hit_spec};
use crate::geometry::flip_normals::FlipNormals;
use crate::geometry::medium::{ConstantMedium, neg_ln_unit, MEDIUM_T_EPS_RAW};
use crate::geometry::rectangle::{
    XyRect, XzRect, YzRect, xy_hit_spec, xz_hit_spec, xz_pdf_spec, xz_random_witness, yz_hit_spec,
};
use crate::geometry::rotate::{RotateY, sin_cos_degrees, sin_cos_spec};
use crate::geometry::sphere::{MovingSphere, Sphere, moving_centre, sphere_hit_spec};
use crate::geometry::translate::Translate;
use crate::materials::Material;
use crate::ray::{Ray, ray_at};
use crate::rng::random_positive_unit_scalar;
use crate::scalar::{Scalar, sc_add, sc_max, sc_min, sc_mul, sc_sub, SCALE};
use crate::vector::{Vector, vadd, vmax, vmin, vneg, vsub};

verus! {

/// A failure while assembling a scene.
#[derive(Clone, Copy, PartialEq, Eq, Structural, Debug)]
pub enum BuildError {
    /// A geometry without a bounding box cannot be rotated or placed in a
    /// hierarchy.
    UnboundedGeometry,
    /// A hierarchy cannot be built over nothing.
    EmptyInput,
}

#[derive(Debug)]
pub enum Geometry {
    Bvh(Box<BoundingVolumeHierarchyNode>),
    Sphere(Box<Sphere>),
    MovingSphere(Box<MovingSphere>),
    Cube(Box<Cube>),
    ConstantMedium(Box<ConstantMedium>),
    XyRect(Box<XyRect>),
    XzRect(Box<XzRect>),
    YzRect(Box<YzRect>),
    Flip(Box<FlipNormals>),
    Translate(Box<Translate>),
    RotateY(Box<RotateY>),
}

/// The record of a successful intersection, ordered by distance alone.
#[derive(Clone, Copy, Debug)]
pub struct HitResult {
    pub distance: Scalar,
    pub ray: Ray,
    pub point: Vector,
    pub surface_normal: Vector,
    pub material: Material,
    pub texture_coords: (Scalar, Scalar),
}

impl HitResult {
    pub open spec fn front_face_spec(self) -> bool {
        crate::vector::vdot(self.ray.direction, self.surface_normal).v() < 0
    }

    /// True exactly when the ray arrives against the surface normal.
    pub fn front_face(&self) -> (r: bool)
        ensures
            r == self.front_face_spec(),
    {
        self.ray.direction().dot(self.surface_normal).lt(Scalar { raw: 0 })
    }

    /// The surface normal turned to oppose the incoming ray.
    pub fn face_normal(&self) -> (r: Vector)
        ensures
            self.front_face_spec() ==> r == self.surface_normal,
            !self.front_face_spec() ==> r == vneg(self.surface_normal),
    {
        if self.front_face() {
            self.surface_normal
        } else {
            self.surface_normal.neg_v()
        }
    }
}

impl PartialEq for HitResult {
    fn eq(&self, other: &HitResult) -> (r: bool) {
        self.distance.raw == other.distance.raw
    }
}

impl vstd::std_specs::cmp::PartialEqSpecImpl for HitResult {
    open spec fn obeys_eq_spec() -> bool {
        true
    }

    open spec fn eq_spec(&self, other: &HitResult) -> bool {
        self.distance.v() == other.distance.v()
    }
}

impl Eq for HitResult {

}

impl PartialOrd for HitResult {
    fn partial_cmp(&self, other: &HitResult) -> (r: Option<core::cmp::Ordering>) {
        if self.distance.raw < other.distance.raw {
            Some(core::cmp::Ordering::Less)
        } else if self.distance.raw == other.distance.raw {
            Some(core::cmp::Ordering::Equal)
        } else {
            Some(core::cmp::Ordering::Greater)
        }
    }
}

impl vstd::std_specs::cmp::PartialOrdSpecImpl for HitResult {
    open spec fn obeys_partial_cmp_spec() -> bool {
        true
    }

    open spec fn partial_cmp_spec(&self, other: &HitResult) -> Option<core::cmp::Ordering> {
        if self.distance.v() < other.distance.v() {
            Some(core::cmp::Ordering::Less)
        } else if self.distance.v() == other.distance.v() {
            Some(core::cmp::Ordering::Equal)
        } else {
            Some(core::cmp::Ordering::Greater)
        }
    }
}

/// A hit record with its reported surface normal negated.
pub open spec fn flip_res(res: Option<HitResult>) -> Option<HitResult> {
    match res {
        None => None,
        Some(h) => Some(HitResult { surface_normal: vneg(h.surface_normal), ..h }),
    }
}

/// A hit record with its point carried back out of the translated frame.
pub open spec fn translate_res(res: Option<HitResult>, offset: Vector) -> Option<HitResult> {
    match res {
        None => None,
        Some(h) => Some(HitResult { point: vadd(h.point, offset), ..h }),
    }
}

/// The ray carried into the local frame of a translated geometry.
pub open spec fn shift_ray(ray: Ray, offset: Vector) -> Ray {
    Ray { origin: vsub(ray.origin, offset), direction: ray.direction, time: ray.time }
}

/// Rotation into the local frame of a geometry rotated about Y.
pub open spec fn rot_in(v: Vector, sin_theta: Scalar, cos_theta: Scalar) -> Vector {
    Vector {
        x: sc_sub(sc_mul(cos_theta, v.x), sc_mul(sin_theta, v.z)),
        y: v.y,
        z: sc_add(sc_mul(sin_theta, v.x), sc_mul(cos_theta, v.z)),
    }
}

/// Rotation back out of that local frame.
pub open spec fn rot_out(v: Vector, sin_theta: Scalar, cos_theta: Scalar) -> Vector {
    Vector {
        x: sc_add(sc_mul(cos_theta, v.x), sc_mul(sin_theta, v.z)),
        y: v.y,
        z: sc_sub(sc_mul(cos_theta, v.z), sc_mul(sin_theta, v.x)),
    }
}

/// The ray carried into the rotated frame.
pub open spec fn rotate_ray_in(ray: Ray, sin_theta: Scalar, cos_theta: Scalar) -> Ray {
    Ray {
        origin: rot_in(ray.origin, sin_theta, cos_theta),
        direction: rot_in(ray.direction, sin_theta, cos_theta),
        time: ray.time,
    }
}

/// The box spanned by the eight corners of `b` carried out of the rotated
/// frame: the envelope a rotated geometry is pruned against.
pub open spec fn rotated_corners_box(
    b: AxisAlignedBoundingBox,
    sin_theta: Scalar,
    cos_theta: Scalar,
) -> AxisAlignedBoundingBox {
    let c0 = rot_out(Vector { x: b.min.x, y: b.min.y, z: b.min.z }, sin_theta, cos_theta);
    let c1 = rot_out(Vector { x: b.max.x, y: b.min.y, z: b.min.z }, sin_theta, cos_theta);
    let c2 = rot_out(Vector { x: b.min.x, y: b.min.y, z: b.max.z }, sin_theta, cos_theta);
    let c3 = rot_out(Vector { x: b.max.x, y: b.min.y, z: b.max.z }, sin_theta, cos_theta);
    let c4 = rot_out(Vector { x: b.min.x, y: b.max.y, z: b.min.z }, sin_theta, cos_theta);
    let c5 = rot_out(Vector { x: b.max.x, y: b.max.y, z: b.min.z }, sin_theta, cos_theta);
    let c6 = rot_out(Vector { x: b.min.x, y: b.max.y, z: b.max.z }, sin_theta, cos_theta);
    let c7 = rot_out(Vector { x: b.max.x, y: b.max.y, z: b.max.z }, sin_theta, cos_theta);
    AxisAlignedBoundingBox {
        min: vmin(vmin(vmin(vmin(vmin(vmin(vmin(c0, c1), c2), c3), c4), c5), c6), c7),
        max: vmax(vmax(vmax(vmax(vmax(vmax(vmax(c0, c1), c2), c3), c4), c5), c6), c7),
    }
}

/// A hit record carried back out of the rotated frame.
pub open spec fn rotate_res_out(
    res: Option<HitResult>,
    sin_theta: Scalar,
    cos_theta: Scalar,
) -> Option<HitResult> {
    match res {
        None => None,
        Some(h) => Some(
            HitResult {
                point: rot_out(h.point, sin_theta, cos_theta),
                surface_normal: rot_out(h.surface_normal, sin_theta, cos_theta),
                ..h
            },
        ),
    }
}

/// What every outcome of a participating medium's probabilistic hit
/// satisfies, whatever the free-flight draw was: a zero-density medium
/// never reports a hit, and a reported hit lies in range, on the ray, and
/// carries the medium's phase material.
pub open spec fn medium_ok(
    density: Scalar,
    phase: Material,
    ray: Ray,
    tmin: Scalar,
    tmax: Scalar,
    res: Option<HitResult>,
) -> bool {
    &&& density.v() == 0 ==> res is None
    &&& res matches Some(h) ==> h.material == phase && tmin.v() < h.distance.v() <= tmax.v()
        && h.ray == ray && h.point == ray_at(ray, h.distance)
}

/// The reported free-flight hit lies at or past the clamped entry of the
/// boundary-crossing interval, and that entry lies strictly before the
/// clamped exit.
pub open spec fn medium_interval_witness(
    b1: HitResult,
    b2: HitResult,
    tmin: Scalar,
    tmax: Scalar,
    h: HitResult,
) -> bool {
    let entry = sc_max(sc_max(b1.distance, tmin), Scalar { raw: 0 });
    &&& entry.v() <= h.distance.v()
    &&& entry.v() < sc_min(b2.distance, tmax).v()
}

/// What `Geometry::hit` returns, as a relation: deterministic shapes are
/// pinned to their mirror computation; the medium and anything that can
/// contain one are related to every admissible outcome.
pub open spec fn hit_ok(
    g: Geometry,
    ray: Ray,
    tmin: Scalar,
    tmax: Scalar,
    res: Option<HitResult>,
) -> bool
    decreases g,
{
    match g {
        Geometry::Sphere(s) => res == sphere_hit_spec(
            s.centre,
            s.radius,
            s.material,
            ray,
            tmin,
            tmax,
        ),
        Geometry::MovingSphere(s) => res == sphere_hit_spec(
            moving_centre(*s, ray.time),
            s.radius,
            s.material,
            ray,
            tmin,
            tmax,
        ),
        Geometry::XyRect(r) => res == xy_hit_spec(*r, ray, tmin, tmax),
        Geometry::XzRect(r) => res == xz_hit_spec(*r, ray, tmin, tmax),
        Geometry::YzRect(r) => res == yz_hit_spec(*r, ray, tmin, tmax),
        Geometry::Cube(c) => res == cube_hit_spec(*c, ray, tmin, tmax),
        Geometry::Flip(f) => exists|r0: Option<HitResult>|
            hit_ok(f.geometry, ray, tmin, tmax, r0) && res == flip_res(r0),
        Geometry::Translate(t) => exists|r0: Option<HitResult>|
            hit_ok(t.geometry, shift_ray(ray, t.offset), tmin, tmax, r0) && res == translate_res(
                r0,
                t.offset,
            ),
        Geometry::RotateY(rt) => exists|r0: Option<HitResult>|
            hit_ok(rt.geometry, rotate_ray_in(ray, rt.sin_theta, rt.cos_theta), tmin, tmax, r0)
                && res == rotate_res_out(r0, rt.sin_theta, rt.cos_theta),
        Geometry::ConstantMedium(m) => medium_ok(m.density, m.phase_function, ray, tmin, tmax, res)
            && (res matches Some(h) ==> exists|b1: HitResult, b2: HitResult|
            hit_ok(m.boundary, ray, Scalar { raw: i64::MIN }, Scalar { raw: i64::MAX }, Some(b1))
                && hit_ok(
                m.boundary,
                ray,
                sc_add(b1.distance, Scalar { raw: MEDIUM_T_EPS_RAW }),
                Scalar { raw: i64::MAX },
                Some(b2),
            ) && medium_interval_witness(b1, b2, tmin, tmax, h)),
        Geometry::Bvh(n) => if !aabb_hit_spec(n.bounding_box, ray, tmin, tmax) {
            res is None
        } else {
            exists|lres: Option<HitResult>, rres: Option<HitResult>|
                hit_ok(n.left, ray, tmin, tmax, lres) && hit_ok(
                    n.right,
                    ray,
                    tmin,
                    cube::cap_t(lres, tmax),
                    rres,
                ) && res == cube::nearer_hit(lres, rres)
        },
    }
}

impl Geometry {
    /// The numeric shape parameters every constructor establishes and every
    /// operation preserves, down the whole tree.
    pub open spec fn wf(self) -> bool
        decreases self,
    {
        match self {
            Geometry::Sphere(s) => s.radius.v() != 0 && s.material.wf(),
            Geometry::MovingSphere(s) => s.radius.v() != 0 && s.time_end.v() != s.time_start.v()
                && s.material.wf(),
            Geometry::XyRect(r) => r.wf() && r.material.wf(),
            Geometry::XzRect(r) => r.wf() && r.material.wf(),
            Geometry::YzRect(r) => r.wf() && r.material.wf(),
            Geometry::Cube(c) => c.wf() && c.face_xy_lo.material.wf(),
            Geometry::Flip(f) => f.geometry.wf(),
            Geometry::Translate(t) => t.geometry.wf(),
            Geometry::RotateY(rt) => rt.geometry.wf() && aabb_wf(rt.bounding_box),
            Geometry::ConstantMedium(m) => m.boundary.wf() && 0 <= m.density.v()
                && m.phase_function.wf(),
            Geometry::Bvh(n) => n.left.wf() && n.right.wf() && match (
                n.left.bbox_spec(n.time_start, n.time_end),
                n.right.bbox_spec(n.time_start, n.time_end),
            ) {
                (Some(lb), Some(rb)) => n.bounding_box == aabb_union(lb, rb),
                _ => false,
            },
        }
    }

    /// The box `bounding_box` reports over a ray-time interval.
    pub open spec fn bbox_spec(self, time_start: Scalar, time_end: Scalar) -> Option<
        AxisAlignedBoundingBox,
    >
        decreases self,
    {
        match self {
            Geometry::Sphere(s) => {
                let ra = crate::scalar::sc_abs(s.radius);
                let rv = Vector { x: ra, y: ra, z: ra };
                Some(
                    AxisAlignedBoundingBox { min: vsub(s.centre, rv), max: vadd(s.centre, rv) },
                )
            },
            Geometry::MovingSphere(s) => {
                let ra = crate::scalar::sc_abs(s.radius);
                let rv = Vector { x: ra, y: ra, z: ra };
                let c0 = moving_centre(*s, time_start);
                let c1 = moving_centre(*s, time_end);
                Some(
                    aabb_union(
                        AxisAlignedBoundingBox { min: vsub(c0, rv), max: vadd(c0, rv) },
                        AxisAlignedBoundingBox { min: vsub(c1, rv), max: vadd(c1, rv) },
                    ),
                )
            },
            Geometry::XyRect(r) => Some(r.bbox_spec()),
            Geometry::XzRect(r) => Some(r.bbox_spec()),
            Geometry::YzRect(r) => Some(r.bbox_spec()),
            Geometry::Cube(c) => Some(c.bbox_spec()),
            Geometry::Flip(f) => f.geometry.bbox_spec(time_start, time_end),
            Geometry::Translate(t) => match t.geometry.bbox_spec(time_start, time_end) {
                None => None,
                Some(b) => Some(
                    AxisAlignedBoundingBox {
                        min: vadd(b.min, t.offset),
                        max: vadd(b.max, t.offset),
                    },
                ),
            },
            Geometry::RotateY(rt) => Some(rt.bounding_box),
            Geometry::ConstantMedium(m) => m.boundary.bbox_spec(time_start, time_end),
            Geometry::Bvh(n) => Some(n.bounding_box),
        }
    }

    /// Every texture reference below this geometry resolves in the table.
    pub open spec fn refs_ok(self, assets: Assets) -> bool
        decreases self,
    {
        match self {
            Geometry::Sphere(s) => s.material.refs_ok(assets),
            Geometry::MovingSphere(s) => s.material.refs_ok(assets),
            Geometry::XyRect(r) => r.material.refs_ok(assets),
            Geometry::XzRect(r) => r.material.refs_ok(assets),
            Geometry::YzRect(r) => r.material.refs_ok(assets),
            Geometry::Cube(c) => c.face_xy_lo.material.refs_ok(assets)
                && c.face_xy_hi.material.refs_ok(assets) && c.face_xz_lo.material.refs_ok(assets)
                && c.face_xz_hi.material.refs_ok(assets) && c.face_yz_lo.material.refs_ok(assets)
                && c.face_yz_hi.material.refs_ok(assets),
            Geometry::Flip(f) => f.geometry.refs_ok(assets),
            Geometry::Translate(t) => t.geometry.refs_ok(assets),
            Geometry::RotateY(rt) => rt.geometry.refs_ok(assets),
            Geometry::ConstantMedium(m) => m.boundary.refs_ok(assets) && m.phase_function.refs_ok(
                assets,
            ),
            Geometry::Bvh(n) => n.left.refs_ok(assets) && n.right.refs_ok(assets),
        }
    }

    /// Whether this geometry is a Monte-Carlo light-sampling target: an
    /// emitting rectangle, possibly behind modifiers. An acceleration node
    /// is never one.
    pub open spec fn is_attractor_spec(self) -> bool
        decreases self,
    {
        match self {
            Geometry::XzRect(r) => r.material matches Material::DiffuseLight { .. },
            Geometry::Flip(f) => f.geometry.is_attractor_spec(),
            Geometry::Translate(t) => t.geometry.is_attractor_spec(),
            Geometry::RotateY(rt) => rt.geometry.is_attractor_spec(),
            _ => false,
        }
    }
}

/// What `Geometry::pdf_value` returns for an attractor, as a relation
/// following the modifiers down to the sampled rectangle.
pub open spec fn pdf_ok(g: Geometry, origin: Vector, direction: Vector, r: Scalar) -> bool
    decreases g,
{
    match g {
        Geometry::XzRect(rect) => r == xz_pdf_spec(*rect, origin, direction),
        Geometry::Flip(f) => pdf_ok(f.geometry, origin, direction, r),
        Geometry::Translate(t) => pdf_ok(t.geometry, vsub(origin, t.offset), direction, r),
        Geometry::RotateY(rt) => pdf_ok(
            rt.geometry,
            rot_in(origin, rt.sin_theta, rt.cos_theta),
            rot_in(direction, rt.sin_theta, rt.cos_theta),
            r,
        ),
        _ => false,
    }
}

/// What `Geometry::random` returns for an attractor, as a relation over
/// every admissible pair of draws.
pub open spec fn random_ok(g: Geometry, origin: Vector, r: Vector) -> bool
    decreases g,
{
    match g {
        Geometry::XzRect(rect) => exists|u: Scalar, v: Scalar|
            xz_random_witness(*rect, origin, r, u, v),
        Geometry::Flip(f) => random_ok(f.geometry, origin, r),
        Geometry::Translate(t) => random_ok(t.geometry, vsub(origin, t.offset), r),
        Geometry::RotateY(rt) => exists|r0: Vector|
            random_ok(rt.geometry, rot_in(origin, rt.sin_theta, rt.cos_theta), r0) && r == rot_out(
                r0,
                rt.sin_theta,
                rt.cos_theta,
            ),
        _ => false,
    }
}

impl Geometry {
    /// The nearest intersection with parameter in `(tmin, tmax]`, or none.
    #[verifier::rlimit(100)]
    pub fn hit(&self, ray: &Ray, tmin: Scalar, tmax: Scalar) -> (res: Option<HitResult>)
        requires
            self.wf(),
        ensures
            hit_ok(*self, *ray, tmin, tmax, res),
        decreases self,
    {
        match self {
            Geometry::Sphere(s) => crate::geometry::sphere::sphere_hit(
                s.centre,
                s.radius,
                &s.material,
                ray,
                tmin,
                tmax,
            ),
            Geometry::MovingSphere(s) => {
                let centre = s.centre_at(ray.time());
                crate::geometry::sphere::sphere_hit(centre, s.radius, &s.material, ray, tmin, tmax)
            },
            Geometry::XyRect(r) => r.hit(ray, tmin, tmax),
            Geometry::XzRect(r) => r.hit(ray, tmin, tmax),
            Geometry::YzRect(r) => r.hit(ray, tmin, tmax),
            Geometry::Cube(c) => c.hit(ray, tmin, tmax),
            Geometry::Flip(f) => {
                let r0 = f.geometry.hit(ray, tmin, tmax);
                let res = match r0 {
                    None => None,
                    Some(h) => Some(
                        HitResult {
                            distance: h.distance,
                            ray: h.ray,
                            point: h.point,
                            surface_normal: h.surface_normal.neg_v(),
                            material: h.material,
                            texture_coords: h.texture_coords,
                        },
                    ),
                };
                proof {
                    assert(hit_ok(f.geometry, *ray, tmin, tmax, r0) && res == flip_res(r0));
                }
                res
            },
            Geometry::Translate(t) => {
                let moved = Ray::new(ray.origin().sub_v(t.offset), ray.direction(), ray.time());
                let r0 = t.geometry.hit(&moved, tmin, tmax);
                let res = match r0 {
                    None => None,
                    Some(h) => Some(
                        HitResult {
                            distance: h.distance,
                            ray: h.ray,
                            point: h.point.add_v(t.offset),
                            surface_normal: h.surface_normal,
                            material: h.material,
                            texture_coords: h.texture_coords,
                        },
                    ),
                };
                proof {
                    assert(moved == shift_ray(*ray, t.offset));
                    assert(hit_ok(t.geometry, moved, tmin, tmax, r0) && res == translate_res(
                        r0,
                        t.offset,
                    ));
                }
                res
            },
            Geometry::RotateY(rt) => {
                let local = Ray::new(
                    rotate_in_exec(ray.origin(), rt.sin_theta, rt.cos_theta),
                    rotate_in_exec(ray.direction(), rt.sin_theta, rt.cos_theta),
                    ray.time(),
                );
                let r0 = rt.geometry.hit(&local, tmin, tmax);
                let res = match r0 {
                    None => None,
                    Some(h) => Some(
                        HitResult {
                            distance: h.distance,
                            ray: h.ray,
                            point: rotate_out_exec(h.point, rt.sin_theta, rt.cos_theta),
                            surface_normal: rotate_out_exec(
                                h.surface_normal,
                                rt.sin_theta,
                                rt.cos_theta,
                            ),
                            material: h.material,
                            texture_coords: h.texture_coords,
                        },
                    ),
                };
                proof {
                    assert(local == rotate_ray_in(*ray, rt.sin_theta, rt.cos_theta));
                    assert(hit_ok(rt.geometry, local, tmin, tmax, r0) && res == rotate_res_out(
                        r0,
                        rt.sin_theta,
                        rt.cos_theta,
                    ));
                }
                res
            },
            Geometry::ConstantMedium(m) => {
                if m.density.raw == 0 {
                    return None;
                }
                let wide_min = Scalar { raw: i64::MIN };
                let wide_max = Scalar { raw: i64::MAX };
                let rec1 = match m.boundary.hit(ray, wide_min, wide_max) {
                    None => {
                        return None;
                    },
                    Some(h) => h,
                };
                let rec2 = match m.boundary.hit(
                    ray,
                    rec1.distance.plus(Scalar { raw: MEDIUM_T_EPS_RAW }),
                    wide_max,
                ) {
                    None => {
                        return None;
                    },
                    Some(h) => h,
                };
                let t1 = rec1.distance.max_s(tmin).max_s(Scalar { raw: 0 });
                let t2 = rec2.distance.min_s(tmax);
                if !t1.lt(t2) {
                    return None;
                }
                let ray_len = ray.direction().length();
                if ray_len.raw == 0 {
                    return None;
                }
                let inside = t2.minus(t1).times(ray_len);
                let u = random_positive_unit_scalar();
                let neg_log = neg_ln_unit(u);
                let hit_distance = neg_log.over(m.density);
                if !hit_distance.lt(inside) {
                    return None;
                }
                proof {
                    crate::scalar::lemma_sc_div_nonneg(neg_log, m.density);
                    crate::scalar::lemma_sc_div_nonneg(hit_distance, ray_len);
                }
                let t = t1.plus(hit_distance.over(ray_len));
                if !(tmin.lt(t) && t.le(tmax)) {
                    return None;
                }
                let res = Some(
                    HitResult {
                        distance: t,
                        ray: *ray,
                        point: ray.point_at(t),
                        surface_normal: Vector {
                            x: Scalar { raw: SCALE },
                            y: Scalar { raw: 0 },
                            z: Scalar { raw: 0 },
                        },
                        material: m.phase_function,
                        texture_coords: (Scalar { raw: 0 }, Scalar { raw: 0 }),
                    },
                );
                proof {
                    let h = res->Some_0;
                    assert(hit_ok(
                        m.boundary,
                        *ray,
                        Scalar { raw: i64::MIN },
                        Scalar { raw: i64::MAX },
                        Some(rec1),
                    ) && hit_ok(
                        m.boundary,
                        *ray,
                        sc_add(rec1.distance, Scalar { raw: MEDIUM_T_EPS_RAW }),
                        Scalar { raw: i64::MAX },
                        Some(rec2),
                    ) && medium_interval_witness(rec1, rec2, tmin, tmax, h));
                }
                res
            },
            Geometry::Bvh(n) => {
                if !n.bounding_box.hit(ray, tmin, tmax) {
                    return None;
                }
                let lres = n.left.hit(ray, tmin, tmax);
                let new_tmax = match &lres {
                    Some(h) => h.distance,
                    None => tmax,
                };
                let rres = n.right.hit(ray, tmin, new_tmax);
                let res = match rres {
                    Some(h) => Some(h),
                    None => lres,
                };
                proof {
                    assert(hit_ok(n.left, *ray, tmin, tmax, lres) && hit_ok(
                        n.right,
                        *ray,
                        tmin,
                        cube::cap_t(lres, tmax),
                        rres,
                    ) && res == cube::nearer_hit(lres, rres));
                }
                res
            },
        }
    }

    /// The tightest enclosing box over the ray-time interval; none only for
    /// geometry without a bounded extent.
    pub fn bounding_box(&self, time_start: Scalar, time_end: Scalar) -> (res: Option<
        AxisAlignedBoundingBox,
    >)
        ensures
            res == self.bbox_spec(time_start, time_end),
        decreases self,
    {
        match self {
            Geometry::Sphere(s) => {
                let ra = s.radius.abs_s();
                let rv = Vector { x: ra, y: ra, z: ra };
                Some(
                    AxisAlignedBoundingBox {
                        min: s.centre.sub_v(rv),
                        max: s.centre.add_v(rv),
                    },
                )
            },
            Geometry::MovingSphere(s) => {
                let ra = s.radius.abs_s();
                let rv = Vector { x: ra, y: ra, z: ra };
                let c0 = s.centre_at(time_start);
                let c1 = s.centre_at(time_end);
                Some(
                    AxisAlignedBoundingBox { min: c0.sub_v(rv), max: c0.add_v(rv) }.union(
                        AxisAlignedBoundingBox { min: c1.sub_v(rv), max: c1.add_v(rv) },
                    ),
                )
            },
            Geometry::XyRect(r) => Some(r.bounding_box()),
            Geometry::XzRect(r) => Some(r.bounding_box()),
            Geometry::YzRect(r) => Some(r.bounding_box()),
            Geometry::Cube(c) => Some(c.bounding_box()),
            Geometry::Flip(f) => f.geometry.bounding_box(time_start, time_end),
            Geometry::Translate(t) => match t.geometry.bounding_box(time_start, time_end) {
                None => None,
                Some(b) => Some(
                    AxisAlignedBoundingBox {
                        min: b.min.add_v(t.offset),
                        max: b.max.add_v(t.offset),
                    },
                ),
            },
            Geometry::RotateY(rt) => Some(rt.bounding_box),
            Geometry::ConstantMedium(m) => m.boundary.bounding_box(time_start, time_end),
            Geometry::Bvh(n) => Some(n.bounding_box),
        }
    }

    /// Checks that every texture reference below this geometry resolves,
    /// naming a missing one otherwise.
    pub fn validate(&self, assets: &Assets) -> (r: Result<(), ValidationError>)
        ensures
            r is Ok <==> self.refs_ok(*assets),
            r matches Err(e) ==> !assets.has_id(e.missing_id),
        decreases self,
    {
        match self {
            Geometry::Sphere(s) => s.material.validate(assets),
            Geometry::MovingSphere(s) => s.material.validate(assets),
            Geometry::XyRect(r) => r.material.validate(assets),
            Geometry::XzRect(r) => r.material.validate(assets),
            Geometry::YzRect(r) => r.material.validate(assets),
            Geometry::Cube(c) => {
                match c.face_xy_lo.material.validate(assets) {
                    Err(e) => {
                        return Err(e);
                    },
                    Ok(_) => {},
                }
                match c.face_xy_hi.material.validate(assets) {
                    Err(e) => {
                        return Err(e);
                    },
                    Ok(_) => {},
                }
                match c.face_xz_lo.material.validate(assets) {
                    Err(e) => {
                        return Err(e);
                    },
                    Ok(_) => {},
                }
                match c.face_xz_hi.material.validate(assets) {
                    Err(e) => {
                        return Err(e);
                    },
                    Ok(_) => {},
                }
                match c.face_yz_lo.material.validate(assets) {
                    Err(e) => {
                        return Err(e);
                    },
                    Ok(_) => {},
                }
                c.face_yz_hi.material.validate(assets)
            },
            Geometry::Flip(f) => f.geometry.validate(assets),
            Geometry::Translate(t) => t.geometry.validate(assets),
            Geometry::RotateY(rt) => rt.geometry.validate(assets),
            Geometry::ConstantMedium(m) => {
                match m.boundary.validate(assets) {
                    Err(e) => {
                        return Err(e);
                    },
                    Ok(_) => {},
                }
                m.phase_function.validate(assets)
            },
            Geometry::Bvh(n) => {
                match n.left.validate(assets) {
                    Err(e) => {
                        return Err(e);
                    },
                    Ok(_) => {},
                }
                n.right.validate(assets)
            },
        }
    }

    /// Whether this geometry is a light-sampling target.
    pub fn is_attractor(&self) -> (r: bool)
        ensures
            r == self.is_attractor_spec(),
        decreases self,
    {
        match self {
            Geometry::XzRect(r) => match r.material {
                Material::DiffuseLight { .. } => true,
                _ => false,
            },
            Geometry::Flip(f) => f.geometry.is_attractor(),
            Geometry::Translate(t) => t.geometry.is_attractor(),
            Geometry::RotateY(rt) => rt.geometry.is_attractor(),
            _ => false,
        }
    }

    /// The sampling density of `direction` from `origin` toward this
    /// attractor. Querying a non-attractor is a programming error, which the
    /// precondition rules out.
    pub fn pdf_value(&self, origin: &Vector, direction: &Vector) -> (r: Scalar)
        requires
            self.wf(),
            self.is_attractor_spec(),
        ensures
            pdf_ok(*self, *origin, *direction, r),
        decreases self,
    {
        match self {
            Geometry::XzRect(rect) => rect.pdf_value(origin, direction),
            Geometry::Flip(f) => f.geometry.pdf_value(origin, direction),
            Geometry::Translate(t) => {
                let local = origin.sub_v(t.offset);
                t.geometry.pdf_value(&local, direction)
            },
            Geometry::RotateY(rt) => {
                let local_origin = rotate_in_exec(*origin, rt.sin_theta, rt.cos_theta);
                let local_direction = rotate_in_exec(*direction, rt.sin_theta, rt.cos_theta);
                rt.geometry.pdf_value(&local_origin, &local_direction)
            },
            _ => unreached(),
        }
    }

    /// A direction from `origin` toward a sampled point of this attractor.
    /// Querying a non-attractor is a programming error, which the
    /// precondition rules out.
    pub fn random(&self, origin: &Vector) -> (r: Vector)
        requires
            self.wf(),
            self.is_attractor_spec(),
        ensures
            random_ok(*self, *origin, r),
        decreases self,
    {
        match self {
            Geometry::XzRect(rect) => rect.random(origin),
            Geometry::Flip(f) => f.geometry.random(origin),
            Geometry::Translate(t) => {
                let local = origin.sub_v(t.offset);
                t.geometry.random(&local)
            },
            Geometry::RotateY(rt) => {
                let local_origin = rotate_in_exec(*origin, rt.sin_theta, rt.cos_theta);
                let r0 = rt.geometry.random(&local_origin);
                let r = rotate_out_exec(r0, rt.sin_theta, rt.cos_theta);
                proof {
                    assert(random_ok(rt.geometry, rot_in(*origin, rt.sin_theta, rt.cos_theta), r0)
                        && r == rot_out(r0, rt.sin_theta, rt.cos_theta));
                }
                r
            },
            _ => unreached(),
        }
    }

    /// Wraps this geometry so that every reported surface normal is negated.
    pub fn flip(self) -> (r: Geometry)
        ensures
            r matches Geometry::Flip(f) && f.geometry == self,
            r.wf() == self.wf(),
    {
        Geometry::Flip(Box::new(FlipNormals { geometry: self }))
    }

    /// Wraps this geometry so that it stands offset by `offset`.
    pub fn translate(self, offset: Vector) -> (r: Geometry)
        ensures
            r matches Geometry::Translate(t) && t.geometry == self && t.offset == offset,
            r.wf() == self.wf(),
    {
        Geometry::Translate(Box::new(Translate { geometry: self, offset }))
    }

    /// Wraps this geometry rotated about the Y axis by `angle` degrees;
    /// fails when the wrapped geometry has no bounding box to rotate.
    pub fn rotate_y(self, angle: Scalar) -> (r: Result<Geometry, BuildError>)
        ensures
            r matches Ok(g) ==> (g matches Geometry::RotateY(rt) && rt.geometry == self && g.wf()
                == self.wf() && rt.sin_theta == sin_cos_spec(angle).0 && rt.cos_theta
                == sin_cos_spec(angle).1 && (self.bbox_spec(
                Scalar { raw: 0 },
                Scalar { raw: SCALE },
            ) matches Some(b) && rt.bounding_box == rotated_corners_box(
                b,
                rt.sin_theta,
                rt.cos_theta,
            ))),
            r is Err <==> self.bbox_spec(Scalar { raw: 0 }, Scalar { raw: SCALE }) is None,
            self.wf() ==> r is Ok,
    {
        proof {
            if self.wf() {
                lemma_wf_bbox_some(self, Scalar { raw: 0 }, Scalar { raw: SCALE });
            }
        }
        let bb = match self.bounding_box(Scalar { raw: 0 }, Scalar { raw: SCALE }) {
            None => {
                return Err(BuildError::UnboundedGeometry);
            },
            Some(b) => b,
        };
        let (sin_theta, cos_theta) = sin_cos_degrees(angle);
        let c0 = rotate_out_exec(
            Vector { x: bb.min.x, y: bb.min.y, z: bb.min.z },
            sin_theta,
            cos_theta,
        );
        let c1 = rotate_out_exec(
            Vector { x: bb.max.x, y: bb.min.y, z: bb.min.z },
            sin_theta,
            cos_theta,
        );
        let c2 = rotate_out_exec(
            Vector { x: bb.min.x, y: bb.min.y, z: bb.max.z },
            sin_theta,
            cos_theta,
        );
        let c3 = rotate_out_exec(
            Vector { x: bb.max.x, y: bb.min.y, z: bb.max.z },
            sin_theta,
            cos_theta,
        );
        let c4 = rotate_out_exec(
            Vector { x: bb.min.x, y: bb.max.y, z: bb.min.z },
            sin_theta,
            cos_theta,
        );
        let c5 = rotate_out_exec(
            Vector { x: bb.max.x, y: bb.max.y, z: bb.min.z },
            sin_theta,
            cos_theta,
        );
        let c6 = rotate_out_exec(
            Vector { x: bb.min.x, y: bb.max.y, z: bb.max.z },
            sin_theta,
            cos_theta,
        );
        let c7 = rotate_out_exec(
            Vector { x: bb.max.x, y: bb.max.y, z: bb.max.z },
            sin_theta,
            cos_theta,
        );
        let min = c0.min_v(c1).min_v(c2).min_v(c3).min_v(c4).min_v(c5).min_v(c6).min_v(c7);
        let max = c0.max_v(c1).max_v(c2).max_v(c3).max_v(c4).max_v(c5).max_v(c6).max_v(c7);
        Ok(
            Geometry::RotateY(
                Box::new(
                    RotateY {
                        geometry: self,
                        sin_theta,
                        cos_theta,
                        bounding_box: AxisAlignedBoundingBox { min, max },
                    },
                ),
            ),
        )
    }
}

fn rotate_in_exec(v: Vector, sin_theta: Scalar, cos_theta: Scalar) -> (r: Vector)
    ensures
        r == rot_in(v, sin_theta, cos_theta),
{
    Vector {
        x: cos_theta.times(v.x).minus(sin_theta.times(v.z)),
        y: v.y,
        z: sin_theta.times(v.x).plus(cos_theta.times(v.z)),
    }
}

fn rotate_out_exec(v: Vector, sin_theta: Scalar, cos_theta: Scalar) -> (r: Vector)
    ensures
        r == rot_out(v, sin_theta, cos_theta),
{
    Vector {
        x: cos_theta.times(v.x).plus(sin_theta.times(v.z)),
        y: v.y,
        z: cos_theta.times(v.z).minus(sin_theta.times(v.x)),
    }
}

/// The multiset of geometries a tree stands over: a hierarchy node
/// flattens to its children's leaves; every other geometry, modifiers and
/// their contents included, is itself a leaf of the hierarchy.
pub open spec fn leaves(g: Geometry) -> vstd::multiset::Multiset<Geometry>
    decreases g,
{
    match g {
        Geometry::Bvh(n) => leaves(n.left).add(leaves(n.right)),
        _ => vstd::multiset::Multiset::empty().insert(g),
    }
}

/// Every well-formed geometry of the closed set has a bounding box: none
/// of them is unbounded, though the contract of `bounding_box` leaves room
/// for an unbounded extension.
pub proof fn lemma_wf_bbox_some(g: Geometry, time_start: Scalar, time_end: Scalar)
    requires
        g.wf(),
    ensures
        g.bbox_spec(time_start, time_end) is Some,
    decreases g,
{
    match g {
        Geometry::Flip(f) => lemma_wf_bbox_some(f.geometry, time_start, time_end),
        Geometry::Translate(t) => lemma_wf_bbox_some(t.geometry, time_start, time_end),
        Geometry::ConstantMedium(m) => lemma_wf_bbox_some(m.boundary, time_start, time_end),
        _ => {},
    }
}

/// A well-formed geometry's bounding box keeps the corner order of the
/// box invariant: the lower corner below the upper on every axis, with a
/// flat rectangle padded on its degenerate axis.
pub proof fn lemma_wf_bbox_ordered(g: Geometry, time_start: Scalar, time_end: Scalar)
    requires
        g.wf(),
    ensures
        g.bbox_spec(time_start, time_end) matches Some(b) ==> aabb_wf(b),
    decreases g,
{
    match g {
        Geometry::Flip(f) => lemma_wf_bbox_ordered(f.geometry, time_start, time_end),
        Geometry::ConstantMedium(m) => lemma_wf_bbox_ordered(m.boundary, time_start, time_end),
        Geometry::Translate(t) => lemma_wf_bbox_ordered(t.geometry, time_start, time_end),
        Geometry::Bvh(n) => {
            lemma_wf_bbox_ordered(n.left, n.time_start, n.time_end);
            lemma_wf_bbox_ordered(n.right, n.time_start, n.time_end);
        },
        _ => {},
    }
}

/// The box of a well-formed hierarchy node is exactly the union of its
/// children's boxes over the build-time interval, whatever tree shape a
/// randomized build chose.
pub proof fn lemma_bvh_box_is_union(g: Geometry)
    requires
        g matches Geometry::Bvh(n),
        g.wf(),
    ensures
        g matches Geometry::Bvh(n) ==> (n.left.bbox_spec(n.time_start, n.time_end) matches Some(lb)
            && n.right.bbox_spec(n.time_start, n.time_end) matches Some(rb) && n.bounding_box
            == aabb_union(lb, rb)),
{
}

/// A hit record whose normal is flipped twice is the record itself, away
/// from the single saturated value whose negation does not return.
pub proof fn lemma_flip_res_involution(res: Option<HitResult>)
    requires
        res matches Some(h) ==> h.surface_normal.x.raw > i64::MIN && h.surface_normal.y.raw
            > i64::MIN && h.surface_normal.z.raw > i64::MIN,
    ensures
        flip_res(flip_res(res)) == res,
{
}

/// Flipping a geometry twice yields one whose admissible hit outcomes are
/// exactly the original's with the surface normal negated twice — and so,
/// by `lemma_flip_res_involution`, the original's outcomes themselves.
pub proof fn lemma_double_flip(
    ff: Geometry,
    g: Geometry,
    ray: Ray,
    tmin: Scalar,
    tmax: Scalar,
    res: Option<HitResult>,
)
    requires
        ff matches Geometry::Flip(f1) && f1.geometry matches Geometry::Flip(f2) && f2.geometry
            == g,
    ensures
        hit_ok(ff, ray, tmin, tmax, res) <==> exists|r0: Option<HitResult>|
            hit_ok(g, ray, tmin, tmax, r0) && res == flip_res(flip_res(r0)),
{
    let f1 = ff->Flip_0;
    let inner = f1.geometry;
    assert(hit_ok(ff, ray, tmin, tmax, res) ==> exists|r0: Option<HitResult>|
        hit_ok(g, ray, tmin, tmax, r0) && res == flip_res(flip_res(r0))) by {
        if hit_ok(ff, ray, tmin, tmax, res) {
            let r1 = choose|r1: Option<HitResult>|
                hit_ok(inner, ray, tmin, tmax, r1) && res == flip_res(r1);
            let r0 = choose|r0: Option<HitResult>|
                hit_ok(g, ray, tmin, tmax, r0) && r1 == flip_res(r0);
            assert(hit_ok(g, ray, tmin, tmax, r0) && res == flip_res(flip_res(r0)));
        }
    };
    assert((exists|r0: Option<HitResult>|
        hit_ok(g, ray, tmin, tmax, r0) && res == flip_res(flip_res(r0))) ==> hit_ok(
        ff,
        ray,
        tmin,
        tmax,
        res,
    )) by {
        if exists|r0: Option<HitResult>|
            hit_ok(g, ray, tmin, tmax, r0) && res == flip_res(flip_res(r0)) {
            let r0 = choose|r0: Option<HitResult>|
                hit_ok(g, ray, tmin, tmax, r0) && res == flip_res(flip_res(r0));
            assert(hit_ok(inner, ray, tmin, tmax, flip_res(r0)) && res == flip_res(flip_res(r0)));
        }
    };
}

/// A translated geometry's admissible hit outcomes are exactly the inner
/// geometry's outcomes for the ray shifted by the opposite offset, with the
/// hit point carried back.
pub proof fn lemma_translate_hit(
    tg: Geometry,
    g: Geometry,
    offset: Vector,
    ray: Ray,
    tmin: Scalar,
    tmax: Scalar,
    res: Option<HitResult>,
)
    requires
        tg matches Geometry::Translate(t) && t.geometry == g && t.offset == offset,
    ensures
        hit_ok(tg, ray, tmin, tmax, res) <==> exists|r0: Option<HitResult>|
            hit_ok(g, shift_ray(ray, offset), tmin, tmax, r0) && res == translate_res(r0, offset),
{
}

} // verus!
