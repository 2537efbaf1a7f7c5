use tracer_core::assets::Assets;
use tracer_core::colour::Colour;
use tracer_core::materials::Material;
use tracer_core::ray::Ray;
use tracer_core::scalar::{Scalar, SCALE};
use tracer_core::texture::Texture;
use tracer_core::vector::Vector;

fn s(n: i64) -> Scalar {
    Scalar::from_int(n)
}

fn raw(r: i64) -> Scalar {
    Scalar::from_raw(r)
}

fn v(x: i64, y: i64, z: i64) -> Vector {
    Vector::new(s(x), s(y), s(z))
}

fn white() -> Colour {
    Colour::new(s(1), s(1), s(1))
}

fn no_assets() -> Assets {
    Assets::new()
}

#[test]
fn dielectric_attenuation_is_always_white() {
    let glass = Material::Dielectric { refractive_index: raw(3 * SCALE / 2) };
    let ray = Ray::new(v(0, 0, -5), v(0, 0, 1), raw(0));
    for _ in 0..200 {
        let out = glass
            .scatter(&ray, &v(0, 0, -1), &v(0, 0, -1), (raw(0), raw(0)), &no_assets())
            .expect("a dielectric always scatters");
        assert_eq!(*out.attenuation(), white());
        assert_eq!(out.ray().origin(), v(0, 0, -1));
    }
}

#[test]
fn metal_with_no_fuzz_reflects_exactly() {
    let mirror = Material::Metal { albedo: Colour::new(s(1), raw(0), raw(0)), fuzz: raw(0) };
    // Straight down onto a floor facing up.
    let ray = Ray::new(v(0, 5, 0), v(0, -1, 0), raw(0));
    let out = mirror
        .scatter(&ray, &v(0, 0, 0), &v(0, 1, 0), (raw(0), raw(0)), &no_assets())
        .expect("a head-on mirror reflection points away");
    assert_eq!(out.ray().direction().y, s(1));
    assert_eq!(out.ray().direction().x, raw(0));
    assert_eq!(out.ray().direction().z, raw(0));
    assert_eq!(*out.attenuation(), Colour::new(s(1), raw(0), raw(0)));
}

#[test]
fn fuzzy_metal_absorbs_exactly_the_inward_rays() {
    let rough = Material::Metal { albedo: white(), fuzz: s(1) };
    // A grazing arrival: the reflection leaves at a shallow angle, so a
    // full-strength perturbation sometimes turns it into the surface.
    let ray = Ray::new(v(-3, 4, 0), v(3, -4, 0), raw(0));
    let normal = v(0, 1, 0);
    let mut absorbed = 0u32;
    let mut scattered = 0u32;
    for _ in 0..400 {
        match rough.scatter(&ray, &v(0, 0, 0), &normal, (raw(0), raw(0)), &no_assets()) {
            None => absorbed += 1,
            Some(out) => {
                scattered += 1;
                let along = out.ray().direction().dot(normal);
                assert!(along > raw(0), "a kept ray must point away from the surface");
            }
        }
    }
    assert!(scattered > 0, "most perturbed reflections stay outside");
    assert!(absorbed > 0, "some perturbed reflections turn inward and are absorbed");
}

#[test]
fn diffuse_light_never_scatters_and_emits_its_texture() {
    let glow = Material::DiffuseLight {
        emit: Texture::Constant { colour: Colour::new(s(4), s(3), s(2)) },
    };
    let ray = Ray::new(v(0, 0, -5), v(0, 0, 1), raw(0));
    assert!(glow.scatter(&ray, &v(0, 0, 0), &v(0, 1, 0), (raw(0), raw(0)), &no_assets()).is_none());
    let e = glow.emitted((raw(0), raw(0)), &v(0, 0, 0), &no_assets());
    assert_eq!(e, Colour::new(s(4), s(3), s(2)));
    // Every other material emits nothing.
    let plain = Material::Lambertian { albedo: Texture::Constant { colour: white() } };
    assert_eq!(
        plain.emitted((raw(0), raw(0)), &v(0, 0, 0), &no_assets()),
        Colour::new(raw(0), raw(0), raw(0))
    );
}

#[test]
fn lambertian_always_scatters_from_the_hit_point() {
    let matte = Material::Lambertian {
        albedo: Texture::Constant { colour: Colour::new(raw(SCALE / 2), raw(0), raw(0)) },
    };
    let ray = Ray::new(v(0, 0, -5), v(0, 0, 1), s(7));
    for _ in 0..100 {
        let out = matte
            .scatter(&ray, &v(0, 0, -1), &v(0, 0, -1), (raw(0), raw(0)), &no_assets())
            .expect("diffuse surfaces always scatter");
        assert_eq!(out.ray().origin(), v(0, 0, -1));
        assert_eq!(out.ray().time(), s(7));
        assert_eq!(*out.attenuation(), Colour::new(raw(SCALE / 2), raw(0), raw(0)));
    }
}

#[test]
fn isotropic_scatters_inside_the_unit_sphere() {
    let fog = Material::Isotropic { albedo: Texture::Constant { colour: white() } };
    let ray = Ray::new(v(0, 0, -5), v(0, 0, 1), raw(0));
    for _ in 0..100 {
        let out = fog
            .scatter(&ray, &v(0, 0, 0), &v(0, 1, 0), (raw(0), raw(0)), &no_assets())
            .expect("a medium's phase function always scatters");
        let d = out.ray().direction();
        assert!(d.len_squared() < s(1));
    }
}

#[test]
fn texture_value_resolves_through_assets() {
    let mut assets = Assets::new();
    assets.insert(11, Colour::new(s(2), raw(0), raw(0)));
    let image = Texture::Image { id: 11 };
    let got = image.value((raw(0), raw(0)), &v(0, 0, 0), &assets);
    assert_eq!(got, Colour::new(s(2), raw(0), raw(0)));
    let missing = Texture::Image { id: 12 };
    let black = missing.value((raw(0), raw(0)), &v(0, 0, 0), &assets);
    assert_eq!(black, Colour::new(raw(0), raw(0), raw(0)));
}

#[test]
fn material_validate_checks_every_owned_texture() {
    let assets = Assets::new();
    let matte = Material::Lambertian { albedo: Texture::Image { id: 9 } };
    let err = matte.validate(&assets).expect_err("reference 9 does not resolve");
    assert_eq!(err.missing_id, 9);
    let glow = Material::DiffuseLight { emit: Texture::Image { id: 9 } };
    let err = glow.validate(&assets).expect_err("an emissive texture must resolve too");
    assert_eq!(err.missing_id, 9);
    let fog = Material::Isotropic { albedo: Texture::Image { id: 9 } };
    assert!(fog.validate(&assets).is_err());
    // Materials without textures have nothing to resolve.
    let glass = Material::Dielectric { refractive_index: raw(3 * SCALE / 2) };
    assert!(glass.validate(&assets).is_ok());
}

#[test]
fn fixed_point_arithmetic_is_exact_on_whole_numbers() {
    assert_eq!(s(2).times(s(3)), s(6));
    assert_eq!(s(7).over(s(2)), raw(7 * SCALE / 2));
    assert_eq!(s(4).sqrt_s(), s(2));
    assert_eq!(s(2).sqrt_s(), raw(92681));
    assert_eq!(s(-5).neg(), s(5));
    assert_eq!(s(3).minus(s(10)), s(-7));
    let d = v(1, 2, 3).dot(v(4, -5, 6));
    assert_eq!(d, s(4 - 10 + 18));
}

#[test]
fn scatter_result_accessors_hand_back_its_parts() {
    let ray = Ray::new(v(1, 2, 3), v(0, 0, 1), raw(0));
    let out = tracer_core::materials::ScatterResult::new(ray, white());
    assert_eq!(out.ray().origin(), v(1, 2, 3));
    assert_eq!(*out.attenuation(), white());
}
