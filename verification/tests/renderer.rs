use shurdatracer::accum::FrameAccumulator;
use shurdatracer::camera::{Camera, CameraInput};
use shurdatracer::fx::{fx_add, fx_div, fx_mul, fx_sqrt, fx_sub, FX_MAX, SCALE};
use shurdatracer::render::render_frame;
use shurdatracer::scene::{GameObject, Material, Plane, Ray, Sphere, World};
use shurdatracer::trace::{average_samples, raytrace, shade};
use shurdatracer::utils::{vec3_from, vec3_rand_unit};
use shurdatracer::vec3::{v_dot, v_normalize, v_reflect, Vec3};

fn fxv(x: f64) -> i64 {
    (x * 65536.0).round() as i64
}

fn vec(x: f64, y: f64, z: f64) -> Vec3 {
    Vec3 { x: fxv(x), y: fxv(y), z: fxv(z) }
}

fn gray(emission: f64, reflectiveness: f64) -> Material {
    Material {
        color: vec(1.0, 1.0, 1.0),
        emission: fxv(emission),
        reflectiveness: fxv(reflectiveness),
    }
}

fn sphere_at(z: f64, radius: f64, material: Material) -> GameObject {
    GameObject::Sphere(Sphere { pos: vec(0.0, 0.0, z), radius: fxv(radius), material })
}

#[test]
fn fx_products_are_exact_on_representable_values() {
    assert_eq!(fx_mul(fxv(1.5), fxv(2.0)), fxv(3.0));
    assert_eq!(fx_mul(fxv(-1.5), fxv(1.0)), fxv(-1.5));
    assert_eq!(fx_mul(fxv(-0.5), fxv(-0.5)), fxv(0.25));
    assert_eq!(fx_div(fxv(3.0), fxv(2.0)), fxv(1.5));
    assert_eq!(fx_div(fxv(-1.0), fxv(2.0)), fxv(-0.5));
    assert_eq!(fx_div(fxv(1.0), 0), 0);
    assert_eq!(fx_sqrt(fxv(4.0)), fxv(2.0));
    assert_eq!(fx_sqrt(fxv(0.25)), fxv(0.5));
    assert_eq!(fx_sqrt(-65536), 0);
}

#[test]
fn fx_arithmetic_saturates_instead_of_wrapping() {
    assert_eq!(fx_add(FX_MAX, FX_MAX), FX_MAX);
    assert_eq!(fx_sub(-FX_MAX, FX_MAX), -FX_MAX);
    assert_eq!(fx_mul(FX_MAX, FX_MAX), FX_MAX);
    assert_eq!(fx_mul(FX_MAX, -FX_MAX), -FX_MAX);
}

#[test]
fn sphere_intersection_matches_closed_form_root() {
    // Sphere at (0, 0, -5) radius 1, ray from the origin toward -z: t = 4.
    let s = Sphere { pos: vec(0.0, 0.0, -5.0), radius: fxv(1.0), material: gray(0.0, 0.0) };
    let ray = Ray::new(vec(0.0, 0.0, 0.0), vec(0.0, 0.0, -1.0));
    let hit = s.hit(&ray).expect("the ray points straight at the sphere");
    assert_eq!(hit.t, fxv(4.0));
    assert_eq!(hit.point.z, fxv(-4.0));
    // The surface normal at the near pole points back along +z.
    assert_eq!(hit.normal.z, fxv(1.0));
}

#[test]
fn plane_intersection_distance_and_parallel_miss() {
    let p = Plane { pos: vec(0.0, -5.0, 0.0), normal: vec(0.0, 1.0, 0.0), material: gray(0.0, 0.0) };
    let down = Ray::new(vec(0.0, 0.0, 0.0), vec(0.0, -1.0, 0.0));
    let hit = p.hit(&down).expect("the ray points straight at the plane");
    assert_eq!(hit.t, fxv(5.0));
    assert_eq!(hit.point.y, fxv(-5.0));
    let level = Ray::new(vec(0.0, 0.0, 0.0), vec(1.0, 0.0, 0.0));
    assert!(p.hit(&level).is_none());
}

#[test]
fn ray_missing_every_primitive_yields_none() {
    let world = World {
        objects: vec![
            sphere_at(-5.0, 1.0, gray(0.0, 0.0)),
            GameObject::Plane(Plane {
                pos: vec(0.0, -5.0, 0.0),
                normal: vec(0.0, 1.0, 0.0),
                material: gray(0.0, 0.0),
            }),
        ],
        unlit: false,
        frame_averaging: false,
        max_bounces: 3,
        num_samples: 1,
    };
    // From above the plane, aim level along +x: negative discriminant for
    // the sphere, and the ray runs parallel to the plane.
    let ray = Ray::new(vec(0.0, 1.0, 0.0), vec(1.0, 0.0, 0.0));
    assert!(world.hit(&ray).is_none());
}

#[test]
fn nearest_hit_wins_regardless_of_scene_order() {
    let near = sphere_at(-5.0, 1.0, gray(0.0, 0.0));
    let far = sphere_at(-10.0, 1.0, gray(0.0, 0.0));
    let ray = Ray::new(vec(0.0, 0.0, 0.0), vec(0.0, 0.0, -1.0));
    for objects in [vec![near, far], vec![far, near]] {
        let world = World {
            objects,
            unlit: false,
            frame_averaging: false,
            max_bounces: 3,
            num_samples: 1,
        };
        let hit = world.hit(&ray).expect("both spheres sit on the ray");
        assert_eq!(hit.t, fxv(4.0));
    }
}

#[test]
fn zero_bounces_yield_black_in_both_modes() {
    for unlit in [false, true] {
        let world = World {
            objects: vec![sphere_at(-5.0, 1.0, gray(1.0, 0.0))],
            unlit,
            frame_averaging: false,
            max_bounces: 0,
            num_samples: 4,
        };
        let ray = Ray::new(vec(0.0, 0.0, 0.0), vec(0.0, 0.0, -1.0));
        let light = raytrace(&world, ray);
        assert_eq!(light, Vec3 { x: 0, y: 0, z: 0 });
    }
}

#[test]
fn integrator_light_stays_in_unit_interval() {
    // An over-bright emitter: without the clamp each channel would pass 1.
    let world = World {
        objects: vec![
            sphere_at(-5.0, 1.0, gray(3.0, 0.0)),
            sphere_at(-10.0, 4.0, gray(2.0, 0.5)),
        ],
        unlit: false,
        frame_averaging: false,
        max_bounces: 8,
        num_samples: 1,
    };
    for k in 0..200 {
        let dir = v_normalize(Vec3 { x: (k - 100) * 300, y: (100 - k) * 150, z: -SCALE });
        let light = raytrace(&world, Ray::new(vec(0.0, 0.0, 0.0), dir));
        for c in [light.x, light.y, light.z] {
            assert!(0 <= c && c <= SCALE);
        }
    }
}

#[test]
fn single_emissive_bounce_reaches_the_energy_ceiling() {
    let world = World {
        objects: vec![sphere_at(-5.0, 1.0, gray(1.0, 0.0))],
        unlit: false,
        frame_averaging: false,
        max_bounces: 1,
        num_samples: 1,
    };
    let light = raytrace(&world, Ray::new(vec(0.0, 0.0, 0.0), vec(0.0, 0.0, -1.0)));
    // emission 1 x albedo 1 x attenuation 1, then clamped: exactly white.
    assert_eq!(light, Vec3 { x: SCALE, y: SCALE, z: SCALE });
}

#[test]
fn unlit_mode_returns_first_hit_albedo() {
    let mut material = gray(0.0, 0.0);
    material.color = vec(0.6, 0.0, 0.8);
    let world = World {
        objects: vec![sphere_at(-5.0, 1.0, material)],
        unlit: true,
        frame_averaging: false,
        max_bounces: 3,
        num_samples: 30,
    };
    let c = shade(&world, vec(0.0, 0.0, 0.0), vec(0.0, 0.0, -1.0));
    assert_eq!(c, material.color);
}

#[test]
fn shade_with_zero_samples_is_black() {
    let world = World {
        objects: vec![sphere_at(-5.0, 1.0, gray(1.0, 0.0))],
        unlit: false,
        frame_averaging: false,
        max_bounces: 3,
        num_samples: 0,
    };
    let c = shade(&world, vec(0.0, 0.0, 0.0), vec(0.0, 0.0, -1.0));
    assert_eq!(c, Vec3 { x: 0, y: 0, z: 0 });
}

#[test]
fn mirror_reflection_reverses_the_normal_component() {
    // Head-on: the reflection of -z about +z is +z, exactly, and the normal
    // components of the incoming and outgoing directions cancel.
    let d = vec(0.0, 0.0, -1.0);
    let n = vec(0.0, 0.0, 1.0);
    let r = v_reflect(d, n);
    assert_eq!(r, vec(0.0, 0.0, 1.0));
    assert_eq!(v_dot(r, n), -v_dot(d, n));
    // A 45-degree incidence on representable values stays exact too.
    let d2 = vec(1.0, 0.0, -1.0);
    let r2 = v_reflect(d2, n);
    assert_eq!(r2, vec(1.0, 0.0, 1.0));
    assert_eq!(v_dot(r2, n), -v_dot(d2, n));
}

#[test]
fn random_unit_directions_vary_and_stay_near_unit_length() {
    let mut seen = std::collections::BTreeSet::new();
    for _ in 0..200 {
        let v = vec3_rand_unit();
        let len2 = v_dot(v, v);
        assert!((SCALE - 192..=SCALE + 192).contains(&len2));
        seen.insert((v.x, v.y, v.z));
    }
    // A generator stuck on one value would collapse every direction.
    assert!(seen.len() > 1);
}

#[test]
fn vec3_from_splats_one_value() {
    let v = vec3_from(fxv(0.25));
    assert_eq!((v.x, v.y, v.z), (fxv(0.25), fxv(0.25), fxv(0.25)));
}

#[test]
fn accumulator_running_mean_of_constant_signal_is_exact() {
    // The fixed-seed stand-in for an unbiased sampler: every frame the same
    // value. The running mean must return it exactly, for every frame count.
    let sample = vec(0.45, 0.3, 0.15);
    let mut acc = FrameAccumulator::new(1);
    for k in 1..=50u64 {
        acc.blend(0, sample, true);
        acc.advance();
        assert_eq!(acc.frame_count, k);
        let h = acc.history[0];
        assert_eq!(h.x as u64 / k, sample.x as u64);
        assert_eq!(h.y as u64 / k, sample.y as u64);
        assert_eq!(h.z as u64 / k, sample.z as u64);
    }
}

#[test]
fn accumulator_reset_zeroes_history_and_count() {
    let mut acc = FrameAccumulator::new(2);
    acc.blend(0, vec(0.5, 0.5, 0.5), true);
    acc.blend(1, vec(0.25, 0.25, 0.25), true);
    acc.advance();
    assert_eq!(acc.frame_count, 1);
    acc.reset(2);
    assert_eq!(acc.frame_count, 0);
    assert_eq!(acc.history.len(), 2);
    for h in &acc.history {
        assert_eq!(*h, Vec3 { x: 0, y: 0, z: 0 });
    }
}

fn unlit_test_world() -> World {
    let mut material = gray(0.0, 0.0);
    material.color = vec(0.5, 0.25, 0.75);
    World {
        objects: vec![sphere_at(-5.0, 1.0, material)],
        unlit: true,
        frame_averaging: true,
        max_bounces: 3,
        num_samples: 1,
    }
}

fn camera_with_rays(width: usize, height: usize) -> Camera {
    let mut camera = Camera::new(
        vec(0.0, 0.0, 2.0),
        vec(0.0, 0.0, -1.0),
        vec(0.0, 1.0, 0.0),
        fxv(0.005),
        fxv(3.0),
        fxv(10.0),
        fxv(45.0),
        fxv(0.1),
        fxv(100.0),
    );
    let input = CameraInput {
        mouse_x: 0,
        mouse_y: 0,
        rotate_held: false,
        fast_held: false,
        key_w: false,
        key_s: false,
        key_a: false,
        key_d: false,
        key_q: false,
        key_e: false,
        width,
        height,
    };
    camera.update(&input, fxv(0.016));
    camera
}

#[test]
fn camera_update_builds_one_ray_per_pixel_and_clears_dirty() {
    let camera = camera_with_rays(8, 6);
    assert!(camera.was_dirty);
    assert_eq!(camera.ray_dirs.len(), 48);
    // The camera looks along -z; every generated ray should too.
    for dir in &camera.ray_dirs {
        assert!(dir.z < 0);
    }
}

#[test]
fn camera_update_without_changes_reports_not_dirty() {
    let mut camera = camera_with_rays(8, 6);
    let input = CameraInput {
        mouse_x: 0,
        mouse_y: 0,
        rotate_held: false,
        fast_held: false,
        key_w: false,
        key_s: false,
        key_a: false,
        key_d: false,
        key_q: false,
        key_e: false,
        width: 8,
        height: 6,
    };
    let dirs_before = camera.ray_dirs.clone();
    camera.update(&input, fxv(0.016));
    assert!(!camera.was_dirty);
    assert_eq!(camera.ray_dirs, dirs_before);
}

#[test]
fn camera_movement_marks_dirty_and_moves_forward() {
    let mut camera = camera_with_rays(4, 4);
    let input = CameraInput {
        mouse_x: 0,
        mouse_y: 0,
        rotate_held: true,
        fast_held: false,
        key_w: true,
        key_s: false,
        key_a: false,
        key_d: false,
        key_q: false,
        key_e: false,
        width: 4,
        height: 4,
    };
    let z_before = camera.pos.z;
    camera.update(&input, fxv(1.0));
    assert!(camera.was_dirty);
    // One second forward at speed 3 along -z.
    assert_eq!(camera.pos.z, z_before - fxv(3.0));
}

#[test]
fn viewport_resize_marks_dirty_and_resizes_ray_field() {
    let mut camera = camera_with_rays(8, 6);
    let input = CameraInput {
        mouse_x: 0,
        mouse_y: 0,
        rotate_held: false,
        fast_held: false,
        key_w: false,
        key_s: false,
        key_a: false,
        key_d: false,
        key_q: false,
        key_e: false,
        width: 5,
        height: 3,
    };
    camera.update(&input, fxv(0.016));
    assert!(camera.was_dirty);
    assert_eq!(camera.ray_dirs.len(), 15);
}

#[test]
fn zero_area_viewport_yields_empty_ray_field() {
    let camera = camera_with_rays(0, 6);
    assert!(camera.was_dirty);
    assert_eq!(camera.ray_dirs.len(), 0);
}

#[test]
fn render_frame_after_dirty_transition_restarts_history() {
    let world = unlit_test_world();
    let mut camera = camera_with_rays(4, 4);
    let mut acc = FrameAccumulator::new(0);
    // First frame: the camera just became dirty, so the blend starts from
    // zeroed history and the counter restarts at one.
    let out = render_frame(&world, &camera, &mut acc);
    assert_eq!(out.len(), 16);
    assert_eq!(acc.frame_count, 1);
    for (o, h) in out.iter().zip(acc.history.iter()) {
        assert_eq!(o, h);
    }
    // Two clean frames of the same deterministic scene keep the mean fixed.
    camera.was_dirty = false;
    let out2 = render_frame(&world, &camera, &mut acc);
    let out3 = render_frame(&world, &camera, &mut acc);
    assert_eq!(acc.frame_count, 3);
    assert_eq!(out, out2);
    assert_eq!(out2, out3);
    // A dirty transition (as after toggling unlit or moving the camera)
    // forces the reset before the next blend: the counter is back at one.
    camera.was_dirty = true;
    let out4 = render_frame(&world, &camera, &mut acc);
    assert_eq!(acc.frame_count, 1);
    assert_eq!(out, out4);
}

#[test]
fn render_frame_output_stays_displayable() {
    let mut world = unlit_test_world();
    world.unlit = false;
    world.num_samples = 4;
    let mut objects = world.objects;
    objects.push(sphere_at(-3.0, 1.0, gray(2.0, 0.3)));
    world.objects = objects;
    let camera = camera_with_rays(6, 4);
    let mut acc = FrameAccumulator::new(24);
    for _ in 0..3 {
        let out = render_frame(&world, &camera, &mut acc);
        assert_eq!(out.len(), 24);
        for c in &out {
            for ch in [c.x, c.y, c.z] {
                assert!(0 <= ch && ch <= SCALE);
            }
        }
    }
}

#[test]
fn sample_average_is_the_exact_floor_mean() {
    let batch = vec![vec(0.5, 1.0, 0.0), vec(0.25, 0.5, 0.0), vec(0.25, 0.75, 0.25)];
    let m = average_samples(&batch);
    // Channel sums 1.0, 2.25 and 0.25 over three samples, floor-divided.
    assert_eq!(m.x, fxv(1.0) / 3);
    assert_eq!(m.y, fxv(2.25) / 3);
    assert_eq!(m.z, fxv(0.25) / 3);
    assert_eq!(average_samples(&Vec::new()), Vec3 { x: 0, y: 0, z: 0 });
}

#[test]
fn first_bounce_light_is_the_exact_emission_formula() {
    // One lit bounce: emission 0.5 times albedo 0.5, weighted by the
    // attenuation 0.5 (white times this albedo): exactly 0.125 per channel.
    let mut material = gray(0.5, 0.0);
    material.color = vec(0.5, 0.5, 0.5);
    let world = World {
        objects: vec![sphere_at(-5.0, 1.0, material)],
        unlit: false,
        frame_averaging: false,
        max_bounces: 1,
        num_samples: 1,
    };
    let light = raytrace(&world, Ray::new(vec(0.0, 0.0, 0.0), vec(0.0, 0.0, -1.0)));
    assert_eq!(light, vec(0.125, 0.125, 0.125));
}

#[test]
fn lit_shade_is_at_least_the_first_bounce_light() {
    // The first bounce saturates the energy ceiling, and every sample's
    // later bounces can only add under the clamp, so the whole multi-sample
    // mean is pinned to white despite the random bounce directions.
    let world = World {
        objects: vec![sphere_at(-5.0, 1.0, gray(1.0, 0.0))],
        unlit: false,
        frame_averaging: false,
        max_bounces: 2,
        num_samples: 5,
    };
    let c = shade(&world, vec(0.0, 0.0, 0.0), vec(0.0, 0.0, -1.0));
    assert_eq!(c, Vec3 { x: SCALE, y: SCALE, z: SCALE });
}
