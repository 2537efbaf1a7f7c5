//! Spheres, still and moving: quadratic ray intersection.

use vstd::prelude::*;
use crate::geometry::HitResult;
use crate::materials::Material;
use crate::ray::{Ray, ray_at};
use crate::scalar::{
    Scalar, lemma_sqrt_unique, sc_add, sc_div, sc_mul, sc_neg, sc_sub, sqrt_of, SCALE,
};
use crate::vector::{Vector, lemma_len_sq_nonneg, vadd, vdivk, vdot, vscale, vsub};

verus! {

#[derive(Clone, Copy, PartialEq, Eq, Structural, Debug)]
pub struct Sphere {
    pub centre: Vector,
    pub radius: Scalar,
    pub material: Material,
}

#[derive(Clone, Copy, PartialEq, Eq, Structural, Debug)]
pub struct MovingSphere {
    pub centre_start: Vector,
    pub centre_end: Vector,
    pub time_start: Scalar,
    pub time_end: Scalar,
    pub radius: Scalar,
    pub material: Material,
}

/// The discriminant of `t^2 d.d + 2t d.(o-c) + (o-c).(o-c) - r^2 = 0`
/// in fixed point.
pub open spec fn sphere_disc(centre: Vector, radius: Scalar, ray: Ray) -> Scalar {
    let oc = vsub(ray.origin, centre);
    let a = vdot(ray.direction, ray.direction);
    let b = sc_add(vdot(oc, ray.direction), vdot(oc, ray.direction));
    let c = sc_sub(vdot(oc, oc), sc_mul(radius, radius));
    let four = Scalar { raw: 262144 };
    sc_sub(sc_mul(b, b), sc_mul(four, sc_mul(a, c)))
}

/// The two quadratic roots, smaller first.
pub open spec fn sphere_roots(centre: Vector, radius: Scalar, ray: Ray) -> (Scalar, Scalar)
    recommends
        vdot(ray.direction, ray.direction).v() > 0,
{
    let oc = vsub(ray.origin, centre);
    let a = vdot(ray.direction, ray.direction);
    let b = sc_add(vdot(oc, ray.direction), vdot(oc, ray.direction));
    let sq = sqrt_of(sphere_disc(centre, radius, ray));
    let two_a = sc_add(a, a);
    (sc_div(sc_sub(sc_neg(b), sq), two_a), sc_div(sc_add(sc_neg(b), sq), two_a))
}

/// The record reported for a sphere hit at parameter `t`: the point along
/// the ray, and the outward normal scaled by the inverse radius.
pub open spec fn sphere_record(
    centre: Vector,
    radius: Scalar,
    material: Material,
    ray: Ray,
    t: Scalar,
) -> HitResult
    recommends
        radius.v() != 0,
{
    let p = ray_at(ray, t);
    HitResult {
        distance: t,
        ray,
        point: p,
        surface_normal: vdivk(vsub(p, centre), radius),
        material,
        texture_coords: (Scalar { raw: 0 }, Scalar { raw: 0 }),
    }
}

/// The nearest in-range root wins; the larger root is the fallback when the
/// smaller lies outside `(tmin, tmax]`.
pub open spec fn sphere_hit_spec(
    centre: Vector,
    radius: Scalar,
    material: Material,
    ray: Ray,
    tmin: Scalar,
    tmax: Scalar,
) -> Option<HitResult>
    recommends
        radius.v() != 0,
{
    let a = vdot(ray.direction, ray.direction);
    if sphere_disc(centre, radius, ray).v() <= 0 || a.v() == 0 {
        None
    } else {
        let (t1, t2) = sphere_roots(centre, radius, ray);
        if tmin.v() < t1.v() && t1.v() <= tmax.v() {
            Some(sphere_record(centre, radius, material, ray, t1))
        } else if tmin.v() < t2.v() && t2.v() <= tmax.v() {
            Some(sphere_record(centre, radius, material, ray, t2))
        } else {
            None
        }
    }
}

/// The intersection computation shared by still and moving spheres.
pub(crate) fn sphere_hit(
    centre: Vector,
    radius: Scalar,
    material: &Material,
    ray: &Ray,
    tmin: Scalar,
    tmax: Scalar,
) -> (res: Option<HitResult>)
    requires
        radius.v() != 0,
    ensures
        res == sphere_hit_spec(centre, radius, *material, *ray, tmin, tmax),
{
    let oc = ray.origin().sub_v(centre);
    let dir = ray.direction();
    let a = dir.dot(dir);
    let half = oc.dot(dir);
    let b = half.plus(half);
    let c = oc.dot(oc).minus(radius.times(radius));
    let four = Scalar { raw: 262144 };
    let disc = b.times(b).minus(four.times(a.times(c)));
    if disc.le(Scalar { raw: 0 }) {
        return None;
    }
    if a.raw == 0 {
        return None;
    }
    proof {
        lemma_len_sq_nonneg(dir);
    }
    let sq = disc.sqrt_s();
    proof {
        lemma_sqrt_unique(disc, sq);
    }
    let two_a = a.plus(a);
    let nb = b.neg();
    let t1 = nb.minus(sq).over(two_a);
    let t2 = nb.plus(sq).over(two_a);
    if tmin.lt(t1) && t1.le(tmax) {
        Some(sphere_record_exec(centre, radius, material, ray, t1))
    } else if tmin.lt(t2) && t2.le(tmax) {
        Some(sphere_record_exec(centre, radius, material, ray, t2))
    } else {
        None
    }
}

fn sphere_record_exec(
    centre: Vector,
    radius: Scalar,
    material: &Material,
    ray: &Ray,
    t: Scalar,
) -> (res: HitResult)
    requires
        radius.v() != 0,
    ensures
        res == sphere_record(centre, radius, *material, *ray, t),
{
    let p = ray.point_at(t);
    HitResult {
        distance: t,
        ray: *ray,
        point: p,
        surface_normal: p.sub_v(centre).div_k(radius),
        material: *material,
        texture_coords: (Scalar { raw: 0 }, Scalar { raw: 0 }),
    }
}

/// The centre of a moving sphere, linearly interpolated by ray time; with
/// a degenerate time interval the sphere rests at its starting centre.
pub open spec fn moving_centre(s: MovingSphere, time: Scalar) -> Vector {
    if s.time_end.v() == s.time_start.v() {
        s.centre_start
    } else {
        let k = sc_div(sc_sub(time, s.time_start), sc_sub(s.time_end, s.time_start));
        vadd(s.centre_start, vscale(k, vsub(s.centre_end, s.centre_start)))
    }
}

impl MovingSphere {
    pub(crate) fn centre_at(&self, time: Scalar) -> (r: Vector)
        ensures
            r == moving_centre(*self, time),
    {
        if self.time_end.raw == self.time_start.raw {
            return self.centre_start;
        }
        let span = self.time_end.minus(self.time_start);
        proof {
            assert(span.v() != 0);
        }
        let k = time.minus(self.time_start).over(span);
        self.centre_start.add_v(self.centre_end.sub_v(self.centre_start).scale(k))
    }
}

/// A ray that does not meet the sphere — the quadratic discriminant of the
/// intersection equation is not positive — is never reported as a hit,
/// whatever the parameter interval.
pub proof fn lemma_sphere_miss(
    centre: Vector,
    radius: Scalar,
    material: Material,
    ray: Ray,
    tmin: Scalar,
    tmax: Scalar,
)
    requires
        sphere_disc(centre, radius, ray).v() <= 0,
    ensures
        sphere_hit_spec(centre, radius, material, ray, tmin, tmax) is None,
{
}

/// The two quadratic roots come out ordered: the first is never beyond the
/// second, so the hit reported is the nearest in-range one, the larger root
/// standing in only when the smaller is out of range.
pub proof fn lemma_sphere_roots_ordered(centre: Vector, radius: Scalar, ray: Ray)
    requires
        vdot(ray.direction, ray.direction).v() > 0,
        sphere_disc(centre, radius, ray).v() >= 0,
    ensures
        sphere_roots(centre, radius, ray).0.v() <= sphere_roots(centre, radius, ray).1.v(),
{
    let disc = sphere_disc(centre, radius, ray);
    crate::scalar::lemma_sqrt_of_nonneg(disc);
    let sq = sqrt_of(disc);
    let a = vdot(ray.direction, ray.direction);
    let oc = vsub(ray.origin, centre);
    let b = sc_add(vdot(oc, ray.direction), vdot(oc, ray.direction));
    let two_a = sc_add(a, a);
    assert(0 < two_a.v());
    crate::scalar::lemma_sc_div_mono(sc_sub(sc_neg(b), sq), sc_add(sc_neg(b), sq), two_a);
}

/// Of two in-range roots the nearer is reported: with the smaller root
/// inside `(tmin, tmax]` the hit stands at that root, never at the larger.
pub proof fn lemma_sphere_picks_smaller_root(
    centre: Vector,
    radius: Scalar,
    material: Material,
    ray: Ray,
    tmin: Scalar,
    tmax: Scalar,
)
    requires
        radius.v() != 0,
        sphere_disc(centre, radius, ray).v() > 0,
        vdot(ray.direction, ray.direction).v() != 0,
        tmin.v() < sphere_roots(centre, radius, ray).0.v(),
        sphere_roots(centre, radius, ray).0.v() <= tmax.v(),
    ensures
        sphere_hit_spec(centre, radius, material, ray, tmin, tmax) == Some(
            sphere_record(centre, radius, material, ray, sphere_roots(centre, radius, ray).0),
        ),
{
}

} // verus!
