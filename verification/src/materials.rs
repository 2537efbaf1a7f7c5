//! Materials: how light scatters off, or is emitted by, a surface.

use vstd::prelude::*;
use crate::assets::{Assets, ValidationError};
use crate::colour::{Colour, black, white};
use crate::ray::Ray;
use crate::rng::{in_unit_sphere, random_point_in_unit_sphere, random_unit_scalar};
use crate::scalar::{Scalar, lemma_sqrt_unique, sc_add, sc_div, sc_mul, sc_neg, sc_sub, sqrt_of, SCALE};
use crate::texture::Texture;
use crate::vector::{Vector, unit_of, vadd, vdot, vneg, vscale, vsub};

verus! {

#[derive(Clone, Copy, Debug)]
pub struct ScatterResult {
    pub ray: Ray,
    pub attenuation: Colour,
}

impl ScatterResult {
    pub fn new(ray: Ray, attenuation: Colour) -> (r: ScatterResult)
        ensures
            r.ray == ray,
            r.attenuation == attenuation,
    {
        ScatterResult { ray, attenuation }
    }

    pub fn ray(&self) -> (r: &Ray)
        ensures
            r == self.ray,
    {
        &self.ray
    }

    pub fn attenuation(&self) -> (r: &Colour)
        ensures
            r == self.attenuation,
    {
        &self.attenuation
    }
}

#[derive(Clone, Copy, PartialEq, Eq, Structural, Debug)]
pub enum Material {
    Lambertian { albedo: Texture },
    Metal { albedo: Colour, fuzz: Scalar },
    Dielectric { refractive_index: Scalar },
    DiffuseLight { emit: Texture },
    Isotropic { albedo: Texture },
}

/// Mirror of the reflection of `uv` about the surface normal `n`.
pub open spec fn reflect_spec(uv: Vector, n: Vector) -> Vector {
    vsub(uv, vscale(sc_add(vdot(uv, n), vdot(uv, n)), n))
}

/// A diffuse bounce: the new ray leaves the hit point toward the surface
/// normal perturbed by a point `d` of the unit sphere.
pub open spec fn lambertian_witness(
    albedo: Texture,
    ray: Ray,
    hit_point: Vector,
    surface_normal: Vector,
    assets: Assets,
    res: Option<ScatterResult>,
    d: Vector,
) -> bool {
    &&& in_unit_sphere(d)
    &&& res matches Some(s) && s.ray == (Ray {
        origin: hit_point,
        direction: vsub(vadd(vadd(hit_point, surface_normal), d), hit_point),
        time: ray.time,
    }) && s.attenuation == albedo.value_spec(assets)
}

/// A specular bounce off `u` (the unit incoming direction) perturbed by
/// `fuzz` times a point `d` of the unit sphere: the scattered ray is kept
/// exactly when it still points away from the surface.
pub open spec fn metal_witness(
    albedo: Colour,
    fuzz: Scalar,
    ray: Ray,
    hit_point: Vector,
    surface_normal: Vector,
    res: Option<ScatterResult>,
    u: Vector,
    d: Vector,
) -> bool {
    &&& unit_of(ray.direction, u)
    &&& in_unit_sphere(d)
    &&& {
        let dir = vadd(reflect_spec(u, surface_normal), vscale(fuzz, d));
        match res {
            Some(s) => vdot(dir, surface_normal).v() > 0 && s.ray == (Ray {
                origin: hit_point,
                direction: dir,
                time: ray.time,
            }) && s.attenuation == albedo,
            None => vdot(dir, surface_normal).v() <= 0,
        }
    }
}

/// An isotropic bounce: a uniformly random direction out of the hit point.
pub open spec fn isotropic_witness(
    albedo: Texture,
    ray: Ray,
    hit_point: Vector,
    assets: Assets,
    res: Option<ScatterResult>,
    d: Vector,
) -> bool {
    &&& in_unit_sphere(d)
    &&& res matches Some(s) && s.ray == (Ray { origin: hit_point, direction: d, time: ray.time })
        && s.attenuation == albedo.value_spec(assets)
}

/// A dielectric bounce off `u` (the unit incoming direction), decided by
/// the uniform draw `w`: the ray leaves the hit point reflected when the
/// draw falls below the Schlick reflectance or when the Snell discriminant
/// forbids refraction (total internal reflection), and refracted
/// otherwise; the medium takes no colour out. A transition between two
/// touching dielectrics is not modelled: one side of every crossing is
/// air.
pub open spec fn dielectric_witness(
    refractive_index: Scalar,
    ray: Ray,
    hit_point: Vector,
    surface_normal: Vector,
    res: Option<ScatterResult>,
    u: Vector,
    w: Scalar,
) -> bool {
    &&& unit_of(ray.direction, u)
    &&& 0 <= w.v() < SCALE
    &&& res matches Some(s) && s.attenuation == white() && s.ray.origin == hit_point
        && s.ray.time == ray.time && {
        let uvn = vdot(u, surface_normal);
        let one = Scalar { raw: SCALE };
        let leaving = uvn.v() > 0;
        let n_i = if leaving { refractive_index } else { one };
        let n_t = if leaving { one } else { refractive_index };
        let oriented = if leaving { vneg(surface_normal) } else { surface_normal };
        let cosine = if leaving { uvn } else { sc_neg(uvn) };
        let reflect_prob = schlick_spec(cosine, n_i, n_t);
        let refracted = refract_spec(u, oriented, sc_div(n_i, n_t));
        if w.v() < reflect_prob.v() || refracted is None {
            s.ray.direction == reflect_spec(u, surface_normal)
        } else {
            refracted == Some(s.ray.direction)
        }
    }
}

/// What every outcome of `Material::scatter` satisfies, whatever the
/// random draws were.
pub open spec fn scatter_ok(
    m: Material,
    ray: Ray,
    hit_point: Vector,
    surface_normal: Vector,
    assets: Assets,
    res: Option<ScatterResult>,
) -> bool {
    match m {
        Material::Lambertian { albedo } => exists|d: Vector|
            lambertian_witness(albedo, ray, hit_point, surface_normal, assets, res, d),
        Material::Metal { albedo, fuzz } => exists|u: Vector, d: Vector|
            metal_witness(albedo, fuzz, ray, hit_point, surface_normal, res, u, d),
        Material::Dielectric { refractive_index } => exists|u: Vector, w: Scalar|
            dielectric_witness(refractive_index, ray, hit_point, surface_normal, res, u, w),
        Material::DiffuseLight { .. } => res is None,
        Material::Isotropic { albedo } => exists|d: Vector|
            isotropic_witness(albedo, ray, hit_point, assets, res, d),
    }
}

impl Material {
    /// The numeric parameters a scene is built with: a fuzz factor within
    /// `[0, 1]` and a positive refractive index.
    pub open spec fn wf(self) -> bool {
        match self {
            Material::Metal { fuzz, .. } => 0 <= fuzz.v() <= SCALE,
            Material::Dielectric { refractive_index } => 0 < refractive_index.v(),
            _ => true,
        }
    }

    pub fn scatter(
        &self,
        ray: &Ray,
        hit_point: &Vector,
        surface_normal: &Vector,
        texture_coords: (Scalar, Scalar),
        assets: &Assets,
    ) -> (res: Option<ScatterResult>)
        requires
            self.wf(),
        ensures
            scatter_ok(*self, *ray, *hit_point, *surface_normal, *assets, res),
            (self matches Material::DiffuseLight { .. }) ==> res is None,
            (self matches Material::Lambertian { .. }) ==> res is Some,
            (self matches Material::Dielectric { .. }) ==> res is Some,
            (self matches Material::Isotropic { .. }) ==> res is Some,
    {
        match self {
            Material::Lambertian { albedo } => scatter_lambertian(
                albedo,
                ray,
                hit_point,
                surface_normal,
                texture_coords,
                assets,
            ),
            Material::Metal { albedo, fuzz } => scatter_metal(
                albedo,
                *fuzz,
                ray,
                hit_point,
                surface_normal,
            ),
            Material::Dielectric { refractive_index } => scatter_dielectric(
                *refractive_index,
                ray,
                hit_point,
                surface_normal,
            ),
            Material::DiffuseLight { .. } => None,
            Material::Isotropic { albedo } => scatter_isotropic(
                albedo,
                ray,
                hit_point,
                texture_coords,
                assets,
            ),
        }
    }

    pub fn emitted(&self, texture_coords: (Scalar, Scalar), point: &Vector, assets: &Assets) -> (r:
        Colour)
        ensures
            (self matches Material::DiffuseLight { emit } ==> r == emit.value_spec(*assets)),
            !(self matches Material::DiffuseLight { .. }) ==> r == black(),
    {
        match self {
            Material::DiffuseLight { emit } => emit.value(texture_coords, point, assets),
            _ => Colour::black_c(),
        }
    }

    /// Every texture reference this material owns resolves in the asset
    /// table; materials without textures have nothing to resolve.
    pub open spec fn refs_ok(self, assets: Assets) -> bool {
        match self {
            Material::Lambertian { albedo } => albedo.refs_ok(assets),
            Material::DiffuseLight { emit } => emit.refs_ok(assets),
            Material::Isotropic { albedo } => albedo.refs_ok(assets),
            _ => true,
        }
    }

    pub fn validate(&self, assets: &Assets) -> (r: Result<(), ValidationError>)
        ensures
            r is Ok <==> self.refs_ok(*assets),
            r matches Err(e) ==> !assets.has_id(e.missing_id),
    {
        match self {
            Material::Lambertian { albedo } => albedo.validate(assets),
            Material::DiffuseLight { emit } => emit.validate(assets),
            Material::Isotropic { albedo } => albedo.validate(assets),
            _ => Ok(()),
        }
    }
}

fn scatter_lambertian(
    albedo: &Texture,
    ray: &Ray,
    hit_point: &Vector,
    surface_normal: &Vector,
    texture_coords: (Scalar, Scalar),
    assets: &Assets,
) -> (res: Option<ScatterResult>)
    ensures
        exists|d: Vector|
            lambertian_witness(*albedo, *ray, *hit_point, *surface_normal, *assets, res, d),
        res is Some,
{
    let diffuse = random_point_in_unit_sphere();
    let target = hit_point.add_v(*surface_normal).add_v(diffuse);
    let out = Ray::new(*hit_point, target.sub_v(*hit_point), ray.time());
    let res = Some(
        ScatterResult { ray: out, attenuation: albedo.value(texture_coords, hit_point, assets) },
    );
    proof {
        assert(lambertian_witness(
            *albedo,
            *ray,
            *hit_point,
            *surface_normal,
            *assets,
            res,
            diffuse,
        ));
    }
    res
}

fn scatter_metal(
    albedo: &Colour,
    fuzz: Scalar,
    ray: &Ray,
    hit_point: &Vector,
    surface_normal: &Vector,
) -> (res: Option<ScatterResult>)
    ensures
        exists|u: Vector, d: Vector|
            metal_witness(*albedo, fuzz, *ray, *hit_point, *surface_normal, res, u, d),
{
    let unit_vector = ray.direction().unit_vector();
    let reflected = reflect(&unit_vector, surface_normal);
    let perturb = random_point_in_unit_sphere();
    let dir = reflected.add_v(perturb.scale(fuzz));
    let out = Ray::new(*hit_point, dir, ray.time());
    if out.direction().dot(*surface_normal).le(Scalar { raw: 0 }) {
        let res: Option<ScatterResult> = None;
        proof {
            assert(metal_witness(
                *albedo,
                fuzz,
                *ray,
                *hit_point,
                *surface_normal,
                res,
                unit_vector,
                perturb,
            ));
        }
        return res;
    }
    let res = Some(ScatterResult { ray: out, attenuation: *albedo });
    proof {
        assert(metal_witness(
            *albedo,
            fuzz,
            *ray,
            *hit_point,
            *surface_normal,
            res,
            unit_vector,
            perturb,
        ));
    }
    res
}

/// Mirror of the refracted direction per Snell's law, when the
/// discriminant allows one; otherwise total internal reflection.
pub open spec fn refract_spec(uv: Vector, n: Vector, ratio: Scalar) -> Option<Vector> {
    let dt = vdot(uv, n);
    let discriminant = sc_sub(
        Scalar { raw: SCALE },
        sc_mul(sc_mul(ratio, ratio), sc_sub(Scalar { raw: SCALE }, sc_mul(dt, dt))),
    );
    if discriminant.v() > 0 {
        Some(
            vsub(
                vscale(ratio, vsub(uv, vscale(dt, n))),
                vscale(sqrt_of(discriminant), n),
            ),
        )
    } else {
        None
    }
}

fn reflect(unit_vector: &Vector, surface_normal: &Vector) -> (r: Vector)
    ensures
        r == reflect_spec(*unit_vector, *surface_normal),
{
    let uv = *unit_vector;
    let n = *surface_normal;
    let b = uv.dot(n);
    uv.sub_v(n.scale(b.plus(b)))
}

fn refract(unit_vector: &Vector, surface_normal: &Vector, refractive_index_ratio: Scalar) -> (r:
    Option<Vector>)
    ensures
        r == refract_spec(*unit_vector, *surface_normal, refractive_index_ratio),
{
    let uv = *unit_vector;
    let n = *surface_normal;
    let dt = uv.dot(n);
    let one = Scalar { raw: SCALE };
    let ratio = refractive_index_ratio;
    let discriminant = one.minus(ratio.times(ratio).times(one.minus(dt.times(dt))));
    if discriminant.lt(Scalar { raw: 0 }) || discriminant.raw == 0 {
        return None;
    }
    let root = discriminant.sqrt_s();
    proof {
        lemma_sqrt_unique(discriminant, root);
    }
    Some(uv.sub_v(n.scale(dt)).scale(ratio).sub_v(n.scale(root)))
}

/// Mirror of Schlick's closed-form reflectance approximation:
/// `r0 + (1 - r0) * (1 - cosine)^5` with `r0 = ((n_i - n_t)/(n_i + n_t))^2`.
pub open spec fn schlick_spec(cosine: Scalar, n_i: Scalar, n_t: Scalar) -> Scalar
    recommends
        0 < n_i.v() + n_t.v(),
{
    let one = Scalar { raw: SCALE };
    let sum = sc_add(n_i, n_t);
    let r0a = sc_div(sc_sub(n_i, n_t), sum);
    let r0 = sc_mul(r0a, r0a);
    let base = sc_sub(one, cosine);
    let base5 = sc_mul(sc_mul(sc_mul(sc_mul(base, base), base), base), base);
    sc_add(r0, sc_mul(sc_sub(one, r0), base5))
}

fn reflectivity_schlick_approx(cosine: Scalar, n_i: Scalar, n_t: Scalar) -> (r: Scalar)
    requires
        0 < n_i.v() + n_t.v(),
    ensures
        r == schlick_spec(cosine, n_i, n_t),
{
    let sum = n_i.plus(n_t);
    let r0 = n_i.minus(n_t).over(sum);
    let r0 = r0.times(r0);
    let one = Scalar { raw: SCALE };
    let base = one.minus(cosine);
    let base5 = base.times(base).times(base).times(base).times(base);
    r0.plus(one.minus(r0).times(base5))
}

fn scatter_dielectric(
    refractive_index: Scalar,
    ray: &Ray,
    hit_point: &Vector,
    surface_normal: &Vector,
) -> (res: Option<ScatterResult>)
    requires
        0 < refractive_index.v(),
    ensures
        exists|u: Vector, w: Scalar|
            dielectric_witness(refractive_index, *ray, *hit_point, *surface_normal, res, u, w),
        res is Some,
{
    let unit_vector = ray.direction().unit_vector();
    let reflected = reflect(&unit_vector, surface_normal);
    let uvn = unit_vector.dot(*surface_normal);
    let one = Scalar { raw: SCALE };
    // Whether the ray runs from inside the geometry out into air, or the
    // other way; a transition between two touching dielectrics is not
    // modelled.
    let (sign_flips, n_i, n_t) = if uvn.lt(Scalar { raw: 0 }) || uvn.raw == 0 {
        (false, one, refractive_index)
    } else {
        (true, refractive_index, one)
    };
    let cosine = if sign_flips {
        uvn
    } else {
        uvn.neg()
    };
    let reflect_prob = reflectivity_schlick_approx(cosine, n_i, n_t);
    let reflect_rand = random_unit_scalar();
    let should_reflect = reflect_rand.lt(reflect_prob);
    let maybe_refracted = if should_reflect {
        None
    } else {
        let oriented = if sign_flips {
            surface_normal.neg_v()
        } else {
            *surface_normal
        };
        refract(&unit_vector, &oriented, n_i.over(n_t))
    };
    let out = match maybe_refracted {
        Some(refracted) => Ray::new(*hit_point, refracted, ray.time()),
        None => Ray::new(*hit_point, reflected, ray.time()),
    };
    let res = Some(ScatterResult { ray: out, attenuation: Colour::white_c() });
    proof {
        assert(dielectric_witness(
            refractive_index,
            *ray,
            *hit_point,
            *surface_normal,
            res,
            unit_vector,
            reflect_rand,
        ));
    }
    res
}

fn scatter_isotropic(
    albedo: &Texture,
    ray: &Ray,
    hit_point: &Vector,
    texture_coords: (Scalar, Scalar),
    assets: &Assets,
) -> (res: Option<ScatterResult>)
    ensures
        exists|d: Vector| isotropic_witness(*albedo, *ray, *hit_point, *assets, res, d),
        res is Some,
{
    let d = random_point_in_unit_sphere();
    let scattered = Ray::new(*hit_point, d, ray.time());
    let attenuation = albedo.value(texture_coords, hit_point, assets);
    let res = Some(ScatterResult::new(scattered, attenuation));
    proof {
        assert(isotropic_witness(*albedo, *ray, *hit_point, *assets, res, d));
    }
    res
}

} // verus!
