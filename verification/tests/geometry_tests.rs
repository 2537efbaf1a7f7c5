use tracer_core::assets::Assets;
use tracer_core::colour::Colour;
use tracer_core::geometry::axis_aligned_bounding_box::AxisAlignedBoundingBox;
use tracer_core::geometry::bounding_volume_hierarchy::build_bvh;
use tracer_core::geometry::cube::Cube;
use tracer_core::geometry::medium::ConstantMedium;
use tracer_core::geometry::rectangle::{XyRect, XzRect, YzRect};
use tracer_core::geometry::sphere::{MovingSphere, Sphere};
use tracer_core::geometry::{BuildError, Geometry, HitResult};
use tracer_core::materials::Material;
use tracer_core::ray::Ray;
use tracer_core::scalar::{Scalar, SCALE};
use tracer_core::texture::Texture;
use tracer_core::vector::Vector;

fn s(n: i64) -> Scalar {
    Scalar::from_int(n)
}

fn raw(r: i64) -> Scalar {
    Scalar::from_raw(r)
}

fn v(x: i64, y: i64, z: i64) -> Vector {
    Vector::new(s(x), s(y), s(z))
}

fn grey() -> Material {
    Material::Lambertian {
        albedo: Texture::Constant {
            colour: Colour::new(raw(SCALE / 2), raw(SCALE / 2), raw(SCALE / 2)),
        },
    }
}

fn unit_sphere() -> Geometry {
    Geometry::Sphere(Box::new(Sphere { centre: v(0, 0, 0), radius: s(1), material: grey() }))
}

fn sphere_at(x: i64, y: i64, z: i64, r: i64) -> Geometry {
    Geometry::Sphere(Box::new(Sphere { centre: v(x, y, z), radius: s(r), material: grey() }))
}

#[test]
fn test_hit_result_eq() {
    let hit_result = HitResult {
        distance: raw(0),
        ray: Ray::new(v(0, 0, 0), v(0, 0, 0), raw(0)),
        point: v(0, 0, 0),
        surface_normal: v(0, 0, 0),
        material: Material::Dielectric { refractive_index: raw(3 * SCALE / 2) },
        texture_coords: (s(1), raw(SCALE / 2)),
    };
    assert_eq!(hit_result.clone(), hit_result.clone());

    let other_hit_result = HitResult {
        distance: s(1),
        ray: Ray::new(v(0, 0, 0), v(0, 0, 0), raw(0)),
        point: v(0, 0, 0),
        surface_normal: v(0, 0, 0),
        material: Material::Dielectric { refractive_index: raw(3 * SCALE / 2) },
        texture_coords: (s(1), raw(SCALE / 2)),
    };
    assert_ne!(hit_result, other_hit_result);
}

#[test]
fn test_hit_result_ord() {
    let hit_result = HitResult {
        distance: raw(0),
        ray: Ray::new(v(0, 0, 0), v(0, 0, 0), raw(0)),
        point: v(0, 0, 0),
        surface_normal: v(0, 0, 0),
        material: Material::Dielectric { refractive_index: raw(3 * SCALE / 2) },
        texture_coords: (s(1), raw(SCALE / 2)),
    };
    let other_hit_result = HitResult {
        distance: s(1),
        ray: Ray::new(v(0, 0, 0), v(0, 0, 0), raw(0)),
        point: v(0, 0, 0),
        surface_normal: v(0, 0, 0),
        material: Material::Dielectric { refractive_index: raw(3 * SCALE / 2) },
        texture_coords: (s(1), raw(SCALE / 2)),
    };
    assert!(other_hit_result > hit_result);
    assert!(hit_result < other_hit_result);
}

#[test]
fn sphere_missed_ray_returns_none() {
    let g = unit_sphere();
    let ray = Ray::new(v(0, 5, 0), v(1, 0, 0), raw(0));
    assert!(g.hit(&ray, raw(1), s(100)).is_none());
}

#[test]
fn sphere_through_centre_reports_nearest_root() {
    let g = unit_sphere();
    let ray = Ray::new(v(0, 0, -5), v(0, 0, 1), raw(0));
    let h = g.hit(&ray, raw(1), s(100)).expect("ray through the centre must hit");
    assert_eq!(h.distance, s(4));
    // With the near root excluded by the interval, the far root stands in.
    let far = g.hit(&ray, raw(5 * SCALE), s(100)).expect("far root in range");
    assert_eq!(far.distance, s(6));
}

#[test]
fn sphere_end_to_end_front_face() {
    let g = unit_sphere();
    let ray = Ray::new(v(0, 0, -5), v(0, 0, 1), raw(0));
    let h = g.hit(&ray, raw(1), s(100)).expect("must hit");
    assert_eq!(h.distance, s(4));
    assert_eq!(h.point, v(0, 0, -1));
    assert!(h.front_face());
}

#[test]
fn moving_sphere_follows_its_centre() {
    let g = Geometry::MovingSphere(Box::new(MovingSphere {
        centre_start: v(0, 0, 0),
        centre_end: v(0, 0, 10),
        time_start: s(0),
        time_end: s(1),
        radius: s(1),
        material: grey(),
    }));
    let early = Ray::new(v(0, 0, -5), v(0, 0, 1), s(0));
    let h = g.hit(&early, raw(1), s(100)).expect("must hit at start centre");
    assert_eq!(h.distance, s(4));
}

fn box_of(g: &Geometry) -> AxisAlignedBoundingBox {
    g.bounding_box(s(0), s(1)).expect("bounded geometry")
}

#[test]
fn bvh_root_box_is_union_of_children() {
    let scene = vec![
        sphere_at(0, 0, 0, 1),
        sphere_at(4, 0, 0, 1),
        sphere_at(0, 4, 0, 1),
        sphere_at(0, 0, 4, 1),
        sphere_at(-3, -3, -3, 1),
    ];
    let root = build_bvh(scene, s(0), s(1)).expect("build succeeds");
    match &root {
        Geometry::Bvh(node) => {
            let expect = box_of(&node.left).union(box_of(&node.right));
            assert_eq!(node.bounding_box, expect);
        }
        _ => panic!("a hierarchy over five geometries is a node"),
    }
}

#[test]
fn bvh_root_box_is_stable_across_randomized_builds() {
    let make_scene = || {
        vec![
            sphere_at(0, 0, 0, 1),
            sphere_at(4, 0, 0, 1),
            sphere_at(0, 4, 0, 1),
            sphere_at(0, 0, 4, 1),
            sphere_at(-3, -3, -3, 1),
        ]
    };
    let first = build_bvh(make_scene(), s(0), s(1)).expect("build succeeds");
    for _ in 0..20 {
        let again = build_bvh(make_scene(), s(0), s(1)).expect("build succeeds");
        assert_eq!(box_of(&first), box_of(&again));
    }
}

#[test]
fn bvh_build_over_nothing_is_refused() {
    assert!(matches!(build_bvh(Vec::new(), s(0), s(1)), Err(BuildError::EmptyInput)));
}

fn linear_nearest(leaves: &[Geometry], ray: &Ray, tmin: Scalar, tmax: Scalar) -> Option<Scalar> {
    let mut best: Option<Scalar> = None;
    let mut cap = tmax;
    for g in leaves {
        if let Some(h) = g.hit(ray, tmin, cap) {
            cap = h.distance;
            best = Some(h.distance);
        }
    }
    best
}

#[test]
fn bvh_hit_matches_linear_scan() {
    let leaves = vec![
        sphere_at(0, 0, 0, 1),
        sphere_at(4, 0, 0, 1),
        sphere_at(0, 4, 0, 2),
        sphere_at(8, 8, 8, 3),
        sphere_at(-5, 0, 2, 2),
        sphere_at(2, -6, 0, 1),
    ];
    let again = vec![
        sphere_at(0, 0, 0, 1),
        sphere_at(4, 0, 0, 1),
        sphere_at(0, 4, 0, 2),
        sphere_at(8, 8, 8, 3),
        sphere_at(-5, 0, 2, 2),
        sphere_at(2, -6, 0, 1),
    ];
    let root = build_bvh(again, s(0), s(1)).expect("build succeeds");
    // A small linear-congruential walk over ray origins and directions.
    let mut state: u64 = 12345;
    let mut next = move || {
        state = state.wrapping_mul(6364136223846793005).wrapping_add(1442695040888963407);
        ((state >> 33) % 41) as i64 - 20
    };
    for _ in 0..300 {
        let origin = v(next(), next(), next());
        let direction = v(next(), next(), next());
        let ray = Ray::new(origin, direction, raw(0));
        let brute = linear_nearest(&leaves, &ray, raw(66), s(1000));
        let fast = root.hit(&ray, raw(66), s(1000)).map(|h| h.distance);
        assert_eq!(brute, fast);
    }
}

#[test]
fn flip_twice_restores_hit_normals() {
    let ray = Ray::new(v(0, 0, -5), v(0, 0, 1), raw(0));
    let plain = unit_sphere();
    let base = plain.hit(&ray, raw(1), s(100)).expect("must hit");
    let double = unit_sphere().flip().flip();
    let h = double.hit(&ray, raw(1), s(100)).expect("must hit");
    assert_eq!(h.surface_normal, base.surface_normal);
    assert_eq!(h.distance, base.distance);
    // One flip alone negates the normal.
    let single = unit_sphere().flip();
    let f = single.hit(&ray, raw(1), s(100)).expect("must hit");
    assert_eq!(f.surface_normal, base.surface_normal.neg_v());
}

#[test]
fn translate_equals_hit_of_shifted_ray() {
    let offset = v(3, -2, 7);
    let moved = unit_sphere().translate(offset);
    let ray = Ray::new(v(3, -2, 0), v(0, 0, 1), raw(0));
    let shifted_ray = Ray::new(
        ray.origin().sub_v(offset),
        ray.direction(),
        ray.time(),
    );
    let h = moved.hit(&ray, raw(1), s(100)).expect("must hit the moved sphere");
    let base = unit_sphere().hit(&shifted_ray, raw(1), s(100)).expect("must hit");
    assert_eq!(h.distance, base.distance);
    assert_eq!(h.surface_normal, base.surface_normal);
    assert_eq!(h.point, base.point.add_v(offset));
}

#[test]
fn rotate_y_of_bounded_geometry_succeeds() {
    let g = unit_sphere().rotate_y(s(45)).expect("a sphere has a box");
    match &g {
        Geometry::RotateY(rt) => {
            assert!(rt.sin_theta.raw.abs() <= SCALE);
            assert!(rt.cos_theta.raw.abs() <= SCALE);
        }
        _ => panic!("rotation wraps the geometry"),
    }
    let ray = Ray::new(v(0, 0, -5), v(0, 0, 1), raw(0));
    let h = g.hit(&ray, raw(1), s(100)).expect("a rotated sphere at the origin still sits there");
    // Rotating a sphere about its own centre keeps the hit, up to the
    // rounding of the stored sine and cosine.
    assert!((h.distance.raw - s(4).raw).abs() <= 2);
}

fn unit_cube() -> Cube {
    Cube::build(v(-1, -1, -1), v(1, 1, 1), grey())
}

#[test]
fn cube_reports_nearest_face() {
    let g = Geometry::Cube(Box::new(unit_cube()));
    let ray = Ray::new(v(0, 0, -5), v(0, 0, 1), raw(0));
    let h = g.hit(&ray, raw(1), s(100)).expect("must hit the near face");
    assert_eq!(h.distance, s(4));
}

#[test]
fn zero_density_medium_never_hits() {
    for _ in 0..200 {
        let g = Geometry::ConstantMedium(Box::new(ConstantMedium {
            boundary: Geometry::Cube(Box::new(unit_cube())),
            density: raw(0),
            phase_function: Material::Isotropic {
                albedo: Texture::Constant { colour: Colour::new(s(1), s(1), s(1)) },
            },
        }));
        let ray = Ray::new(v(0, 0, -5), v(0, 0, 1), raw(0));
        assert!(g.hit(&ray, raw(1), s(100)).is_none());
    }
}

#[test]
fn dense_medium_hits_stay_in_range_with_its_phase() {
    let phase = Material::Isotropic {
        albedo: Texture::Constant { colour: Colour::new(s(1), s(1), s(1)) },
    };
    let g = Geometry::ConstantMedium(Box::new(ConstantMedium {
        boundary: Geometry::Cube(Box::new(unit_cube())),
        density: s(50),
        phase_function: phase.clone(),
    }));
    let tmin = raw(1);
    let tmax = s(100);
    let mut saw_hit = false;
    for _ in 0..200 {
        let ray = Ray::new(v(0, 0, -5), v(0, 0, 1), raw(0));
        if let Some(h) = g.hit(&ray, tmin, tmax) {
            saw_hit = true;
            assert!(tmin < h.distance && h.distance <= tmax);
            assert_eq!(h.material, phase);
        }
    }
    assert!(saw_hit, "a dense medium must scatter some of the time");
}

#[test]
fn validate_reports_missing_emissive_reference() {
    let assets = Assets::new();
    let g = Geometry::XzRect(Box::new(XzRect {
        x0: s(-1),
        x1: s(1),
        z0: s(-1),
        z1: s(1),
        k: s(1),
        material: Material::DiffuseLight { emit: Texture::Image { id: 5 } },
    }));
    let err = g.validate(&assets).expect_err("the emissive reference must resolve");
    assert_eq!(err.missing_id, 5);
}

#[test]
fn validate_reports_missing_texture_reference() {
    let mut assets = Assets::new();
    assets.insert(3, Colour::new(s(1), raw(0), raw(0)));
    let g = Geometry::Sphere(Box::new(Sphere {
        centre: v(0, 0, 0),
        radius: s(1),
        material: Material::Lambertian { albedo: Texture::Image { id: 7 } },
    }));
    let err = g.validate(&assets).expect_err("reference 7 does not resolve");
    assert_eq!(err.missing_id, 7);
    assets.insert(7, Colour::new(raw(0), s(1), raw(0)));
    assert!(g.validate(&assets).is_ok());
}

#[test]
fn attractor_flag_follows_emissive_rectangles() {
    let light = Geometry::XzRect(Box::new(XzRect {
        x0: s(-1),
        x1: s(1),
        z0: s(-1),
        z1: s(1),
        k: s(1),
        material: Material::DiffuseLight {
            emit: Texture::Constant { colour: Colour::new(s(4), s(4), s(4)) },
        },
    }));
    assert!(light.is_attractor());
    let wrapped = light.flip();
    assert!(wrapped.is_attractor());
    assert!(!unit_sphere().is_attractor());
    let plain_rect = Geometry::XzRect(Box::new(XzRect {
        x0: s(-1),
        x1: s(1),
        z0: s(-1),
        z1: s(1),
        k: s(1),
        material: grey(),
    }));
    assert!(!plain_rect.is_attractor());
}

#[test]
fn attractor_pdf_and_random_sample_the_rectangle() {
    let light = Geometry::XzRect(Box::new(XzRect {
        x0: s(-1),
        x1: s(1),
        z0: s(-1),
        z1: s(1),
        k: s(1),
        material: Material::DiffuseLight {
            emit: Texture::Constant { colour: Colour::new(s(4), s(4), s(4)) },
        },
    }));
    // Straight up at a 2 x 2 panel one unit above: t = 1, cosine = 1,
    // area = 4, so the density is exactly a quarter.
    let pdf = light.pdf_value(&v(0, 0, 0), &v(0, 1, 0));
    assert_eq!(pdf, Scalar::from_raw(SCALE / 4));
    // A missed panel has density zero.
    let missed = light.pdf_value(&v(0, 0, 0), &v(0, -1, 0));
    assert_eq!(missed, Scalar::from_raw(0));
    for _ in 0..50 {
        let d = light.random(&v(0, 0, 0));
        assert_eq!(d.y, s(1));
        assert!(s(-1) <= d.x && d.x <= s(1));
        assert!(s(-1) <= d.z && d.z <= s(1));
    }
}

#[test]
fn bounding_boxes_are_tight_for_spheres_and_padded_for_rectangles() {
    let b = box_of(&sphere_at(2, 0, 0, 1));
    assert_eq!(b.min, v(1, -1, -1));
    assert_eq!(b.max, v(3, 1, 1));
    let rect = Geometry::XzRect(Box::new(XzRect {
        x0: s(-1),
        x1: s(1),
        z0: s(-1),
        z1: s(1),
        k: s(1),
        material: grey(),
    }));
    let rb = box_of(&rect);
    assert!(rb.min.y < s(1) && s(1) < rb.max.y);
}

#[test]
fn xy_rect_hit_has_exact_parameter_and_texture_coords() {
    let rect = Geometry::XyRect(Box::new(XyRect {
        x0: s(0),
        x1: s(2),
        y0: s(0),
        y1: s(2),
        k: s(3),
        material: grey(),
    }));
    let ray = Ray::new(v(1, 1, 0), v(0, 0, 1), raw(0));
    let h = rect.hit(&ray, raw(1), s(100)).expect("must hit the plane");
    assert_eq!(h.distance, s(3));
    assert_eq!(h.surface_normal, v(0, 0, 1));
    assert_eq!(h.texture_coords, (raw(SCALE / 2), raw(SCALE / 2)));
    assert_eq!(h.point, v(1, 1, 3));
    // Outside the coordinate ranges the plane is not the rectangle.
    let wide = Ray::new(v(5, 1, 0), v(0, 0, 1), raw(0));
    assert!(rect.hit(&wide, raw(1), s(100)).is_none());
    // Parallel to the plane there is no parameter to report.
    let parallel = Ray::new(v(1, 1, 0), v(1, 0, 0), raw(0));
    assert!(rect.hit(&parallel, raw(1), s(100)).is_none());
}

#[test]
fn yz_rect_hit_faces_along_x() {
    let rect = Geometry::YzRect(Box::new(YzRect {
        y0: s(-1),
        y1: s(1),
        z0: s(-1),
        z1: s(1),
        k: s(2),
        material: grey(),
    }));
    let ray = Ray::new(v(0, 0, 0), v(1, 0, 0), raw(0));
    let h = rect.hit(&ray, raw(1), s(100)).expect("must hit");
    assert_eq!(h.distance, s(2));
    assert_eq!(h.surface_normal, v(1, 0, 0));
}

#[test]
fn translated_bounding_box_moves_with_the_geometry() {
    let offset = v(10, 0, 0);
    let g = unit_sphere().translate(offset);
    let b = box_of(&g);
    assert_eq!(b.min, v(9, -1, -1));
    assert_eq!(b.max, v(11, 1, 1));
}

#[test]
fn bvh_pruning_keeps_a_grazing_rounded_hit() {
    // A ray grazing the top of the unit sphere: the rounded quadratic
    // reports a hit whose point lies a few steps above the sphere's box,
    // and only the slack on the slab planes keeps the node test from
    // cutting it away.
    let leaves = vec![unit_sphere(), sphere_at(10, 10, 10, 1)];
    let root = build_bvh(vec![unit_sphere(), sphere_at(10, 10, 10, 1)], s(0), s(1))
        .expect("build succeeds");
    let ray = Ray::new(
        Vector::new(s(-5), raw(65535), raw(0)),
        Vector::new(s(1), raw(1), raw(0)),
        raw(0),
    );
    let brute = linear_nearest(&leaves, &ray, raw(66), s(1000));
    let fast = root.hit(&ray, raw(66), s(1000)).map(|h| h.distance);
    assert_eq!(brute, fast);
}

#[test]
fn bvh_build_tolerates_equal_sort_keys() {
    let scene = vec![
        sphere_at(0, 0, 0, 1),
        sphere_at(0, 0, 0, 1),
        sphere_at(0, 0, 0, 1),
    ];
    let root = build_bvh(scene, s(0), s(1)).expect("identical geometries still order");
    let ray = Ray::new(v(0, 0, -5), v(0, 0, 1), raw(0));
    let h = root.hit(&ray, raw(1), s(100)).expect("must hit");
    assert_eq!(h.distance, s(4));
}

#[test]
fn scalar_saturates_at_the_representable_extremes() {
    let huge = Scalar::from_int(i64::MAX);
    assert_eq!(huge.raw, i64::MAX);
    let low = Scalar::from_int(i64::MIN);
    assert_eq!(low.raw, i64::MIN);
    assert_eq!(huge.plus(huge).raw, i64::MAX);
    assert_eq!(low.minus(huge).raw, i64::MIN);
    assert_eq!(Scalar::from_raw(i64::MIN).neg().raw, i64::MAX);
}
