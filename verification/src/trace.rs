//! The Monte-Carlo path integrator and the per-pixel sampler.

use vstd::prelude::*;
use vstd::arithmetic::div_mod::{lemma_div_is_ordered, lemma_div_multiples_vanish, lemma_div_of0,
    lemma_div_pos_is_pos};
use vstd::arithmetic::mul::lemma_mul_nonnegative;
use crate::fx::{fx_add, fx_add_s, fx_mul, fx_mul_s, lemma_fx_mul_unit, SCALE};
use crate::scene::{lemma_nearest_hit_props, material_wf, nearest_hit, object_material, Material,
    Ray, World};
use crate::utils::{rand_fx_range, vec3_from, vec3_rand_unit};
use crate::vec3::{v_add, v_mul, v_normalize, v_reflect, Vec3};

verus! {

/// What one pixel shows in unlit preview mode: the albedo of the nearest
/// primitive the ray hits, black on a miss or when no bounce is allowed.
pub open spec fn unlit_pixel_s(world: World, ray: Ray) -> Vec3 {
    if world.max_bounces == 0 {
        Vec3 { x: 0, y: 0, z: 0 }
    } else {
        match nearest_hit(world.objects@, ray) {
            Option::None => Vec3 { x: 0, y: 0, z: 0 },
            Option::Some(p) => object_material(world.objects@[p.0]).color,
        }
    }
}

/// One lit bounce's light update: `emission * albedo`, weighted by the
/// running attenuation, is added to each channel of the accumulator, which
/// is then clamped to at most one — the energy ceiling.
pub open spec fn accumulate_light_s(light: Vec3, m: Material, attn: Vec3) -> Vec3 {
    let gx = fx_add_s(
        light.x as int,
        fx_mul_s(fx_mul_s(m.emission as int, m.color.x as int), attn.x as int),
    );
    let gy = fx_add_s(
        light.y as int,
        fx_mul_s(fx_mul_s(m.emission as int, m.color.y as int), attn.y as int),
    );
    let gz = fx_add_s(
        light.z as int,
        fx_mul_s(fx_mul_s(m.emission as int, m.color.z as int), attn.z as int),
    );
    Vec3 {
        x: (if gx > SCALE as int {
            SCALE as int
        } else {
            gx
        }) as i64,
        y: (if gy > SCALE as int {
            SCALE as int
        } else {
            gy
        }) as i64,
        z: (if gz > SCALE as int {
            SCALE as int
        } else {
            gz
        }) as i64,
    }
}

/// The light a trace gathers at its first bounce: the bounce update applied
/// to a black accumulator, with the attenuation being opaque white already
/// multiplied by the hit's own albedo.
pub open spec fn first_bounce_light_s(m: Material) -> Vec3 {
    accumulate_light_s(Vec3 { x: 0, y: 0, z: 0 }, m, m.color)
}

/// The first-bounce light of a well-formed material lies in the unit
/// interval.
pub proof fn lemma_first_bounce_bounds(m: Material)
    requires
        material_wf(m),
    ensures
        0 <= first_bounce_light_s(m).x <= SCALE,
        0 <= first_bounce_light_s(m).y <= SCALE,
        0 <= first_bounce_light_s(m).z <= SCALE,
{
    lemma_fx_mul_unit(m.emission as int, m.color.x as int);
    lemma_fx_mul_unit(m.emission as int, m.color.y as int);
    lemma_fx_mul_unit(m.emission as int, m.color.z as int);
    lemma_fx_mul_unit(fx_mul_s(m.emission as int, m.color.x as int), m.color.x as int);
    lemma_fx_mul_unit(fx_mul_s(m.emission as int, m.color.y as int), m.color.y as int);
    lemma_fx_mul_unit(fx_mul_s(m.emission as int, m.color.z as int), m.color.z as int);
}

/// Apply one lit bounce's light update to the accumulator: exactly
/// `accumulate_light_s`, which never lowers a channel — light only
/// accumulates from bounce to bounce.
pub fn accumulate_light(light: Vec3, m: &Material, attn: Vec3) -> (r: Vec3)
    requires
        material_wf(*m),
        0 <= light.x <= SCALE,
        0 <= light.y <= SCALE,
        0 <= light.z <= SCALE,
        0 <= attn.x <= SCALE,
        0 <= attn.y <= SCALE,
        0 <= attn.z <= SCALE,
    ensures
        r == accumulate_light_s(light, *m, attn),
        0 <= r.x <= SCALE,
        0 <= r.y <= SCALE,
        0 <= r.z <= SCALE,
        r.x >= light.x,
        r.y >= light.y,
        r.z >= light.z,
{
    proof {
        lemma_fx_mul_unit(m.emission as int, m.color.x as int);
        lemma_fx_mul_unit(m.emission as int, m.color.y as int);
        lemma_fx_mul_unit(m.emission as int, m.color.z as int);
    }
    let ex = fx_mul(m.emission, m.color.x);
    let ey = fx_mul(m.emission, m.color.y);
    let ez = fx_mul(m.emission, m.color.z);
    proof {
        lemma_fx_mul_unit(ex as int, attn.x as int);
        lemma_fx_mul_unit(ey as int, attn.y as int);
        lemma_fx_mul_unit(ez as int, attn.z as int);
    }
    let gx = fx_add(light.x, fx_mul(ex, attn.x));
    let gy = fx_add(light.y, fx_mul(ey, attn.y));
    let gz = fx_add(light.z, fx_mul(ez, attn.z));
    Vec3 {
        x: if gx > SCALE {
            SCALE
        } else {
            gx
        },
        y: if gy > SCALE {
            SCALE
        } else {
            gy
        },
        z: if gz > SCALE {
            SCALE
        } else {
            gz
        },
    }
}

/// Trace one ray through up to `max_bounces` bounces and accumulate the
/// light it gathers.
///
/// At each bounce the nearest primitive is intersected (the trace ends when
/// the ray escapes); a uniform random draw against the material's
/// reflectiveness decides between a mirror bounce and a diffuse bounce to a
/// random hemisphere-biased direction (normal plus a random unit vector,
/// normalized); the running attenuation color is multiplied by the albedo;
/// in unlit mode that attenuation is returned at the first hit, otherwise
/// the light accumulator takes one `accumulate_light` update. The loop runs
/// at most `max_bounces` iterations — its `decreases` clause and the
/// `bounce <= max_bounces` invariant — with one intersection query each.
///
/// The contract pins everything the randomness leaves fixed: every channel
/// of the result lies in `[0, SCALE]` whatever directions were drawn; zero
/// bounces yield black; a ray that hits nothing yields black; in unlit mode
/// the result is exactly `unlit_pixel_s`; and in lit mode the first bounce
/// is deterministic — the input ray's nearest hit does not depend on any
/// draw — so the result is at least `first_bounce_light_s` of that hit's
/// material (later bounces only add light under the clamp), with equality
/// when exactly one bounce is allowed.
pub fn raytrace(world: &World, ray: Ray) -> (light: Vec3)
    requires
        world.wf(),
    ensures
        0 <= light.x <= SCALE,
        0 <= light.y <= SCALE,
        0 <= light.z <= SCALE,
        world.max_bounces == 0 ==> light == (Vec3 { x: 0, y: 0, z: 0 }),
        nearest_hit(world.objects@, ray) is None ==> light == (Vec3 { x: 0, y: 0, z: 0 }),
        world.unlit ==> light == unlit_pixel_s(*world, ray),
        !world.unlit && world.max_bounces > 0
            ==> (nearest_hit(world.objects@, ray) matches Some(p) ==> {
                &&& light.x >= first_bounce_light_s(object_material(world.objects@[p.0])).x
                &&& light.y >= first_bounce_light_s(object_material(world.objects@[p.0])).y
                &&& light.z >= first_bounce_light_s(object_material(world.objects@[p.0])).z
            }),
        !world.unlit && world.max_bounces == 1
            ==> (nearest_hit(world.objects@, ray) matches Some(p)
                ==> light == first_bounce_light_s(object_material(world.objects@[p.0]))),
{
    let mut ray_color = vec3_from(SCALE);
    let mut light = vec3_from(0);
    let mut curr_ray = ray;
    let mut bounce: usize = 0;
    while bounce < world.max_bounces
        invariant
            world.wf(),
            bounce <= world.max_bounces,
            0 <= light.x <= SCALE,
            0 <= light.y <= SCALE,
            0 <= light.z <= SCALE,
            0 <= ray_color.x <= SCALE,
            0 <= ray_color.y <= SCALE,
            0 <= ray_color.z <= SCALE,
            world.unlit ==> bounce == 0,
            bounce == 0 ==> curr_ray == ray && light == (Vec3 { x: 0, y: 0, z: 0 })
                && ray_color == (Vec3 { x: SCALE, y: SCALE, z: SCALE }),
            nearest_hit(world.objects@, ray) is None
                ==> bounce == 0 && light == (Vec3 { x: 0, y: 0, z: 0 }),
            !world.unlit && bounce >= 1
                ==> (nearest_hit(world.objects@, ray) matches Some(p) ==> {
                    &&& light.x >= first_bounce_light_s(object_material(world.objects@[p.0])).x
                    &&& light.y >= first_bounce_light_s(object_material(world.objects@[p.0])).y
                    &&& light.z >= first_bounce_light_s(object_material(world.objects@[p.0])).z
                }),
            !world.unlit && bounce == 1
                ==> (nearest_hit(world.objects@, ray) matches Some(p)
                    ==> light == first_bounce_light_s(object_material(world.objects@[p.0]))),
        ensures
            0 <= light.x <= SCALE,
            0 <= light.y <= SCALE,
            0 <= light.z <= SCALE,
            world.max_bounces == 0 ==> light == (Vec3 { x: 0, y: 0, z: 0 }),
            nearest_hit(world.objects@, ray) is None ==> light == (Vec3 { x: 0, y: 0, z: 0 }),
            world.unlit && world.max_bounces > 0 ==> nearest_hit(world.objects@, ray) is None,
            !world.unlit && world.max_bounces > 0
                ==> (nearest_hit(world.objects@, ray) matches Some(p) ==> {
                    &&& light.x >= first_bounce_light_s(object_material(world.objects@[p.0])).x
                    &&& light.y >= first_bounce_light_s(object_material(world.objects@[p.0])).y
                    &&& light.z >= first_bounce_light_s(object_material(world.objects@[p.0])).z
                }),
            !world.unlit && world.max_bounces == 1
                ==> (nearest_hit(world.objects@, ray) matches Some(p)
                    ==> light == first_bounce_light_s(object_material(world.objects@[p.0]))),
        decreases world.max_bounces - bounce,
    {
        let hit = world.hit(&curr_ray);
        match hit {
            Option::None => {
                break;
            },
            Option::Some(h) => {
                proof {
                    assert(material_wf(h.material));
                }
                let draw = rand_fx_range(0, SCALE);
                let new_dir = if draw < h.material.reflectiveness {
                    v_reflect(curr_ray.dir, h.normal)
                } else {
                    v_normalize(v_add(h.normal, vec3_rand_unit()))
                };
                curr_ray = Ray { origin: h.point, dir: new_dir };
                proof {
                    lemma_fx_mul_unit(ray_color.x as int, h.material.color.x as int);
                    lemma_fx_mul_unit(ray_color.y as int, h.material.color.y as int);
                    lemma_fx_mul_unit(ray_color.z as int, h.material.color.z as int);
                    if bounce == 0 {
                        lemma_fx_mul_one(h.material.color.x as int);
                        lemma_fx_mul_one(h.material.color.y as int);
                        lemma_fx_mul_one(h.material.color.z as int);
                    }
                }
                ray_color = v_mul(ray_color, h.material.color);
                proof {
                    if bounce == 0 {
                        assert(ray_color =~= h.material.color);
                    }
                }
                if world.unlit {
                    proof {
                        assert(ray_color =~= unlit_pixel_s(*world, ray));
                    }
                    return ray_color;
                }
                light = accumulate_light(light, &h.material, ray_color);
                bounce = bounce + 1;
            },
        }
    }
    light
}

/// Multiplying by opaque white (`SCALE`, one in fixed point) is the identity
/// on unit-interval channels.
pub proof fn lemma_fx_mul_one(c: int)
    requires
        0 <= c <= SCALE as int,
    ensures
        fx_mul_s(SCALE as int, c) == c,
{
    lemma_div_multiples_vanish(c, SCALE as int);
}

/// Channel sums of a sequence of colors.
pub open spec fn sum_x(s: Seq<Vec3>) -> int
    decreases s.len(),
{
    if s.len() == 0 {
        0
    } else {
        sum_x(s.drop_last()) + s.last().x
    }
}

pub open spec fn sum_y(s: Seq<Vec3>) -> int
    decreases s.len(),
{
    if s.len() == 0 {
        0
    } else {
        sum_y(s.drop_last()) + s.last().y
    }
}

pub open spec fn sum_z(s: Seq<Vec3>) -> int
    decreases s.len(),
{
    if s.len() == 0 {
        0
    } else {
        sum_z(s.drop_last()) + s.last().z
    }
}

/// A sum of channel values each within `[lo, hi]` lies between `len * lo`
/// and `len * hi`.
pub proof fn lemma_sum_x_bounds(s: Seq<Vec3>, lo: int, hi: int)
    requires
        forall|i: int| 0 <= i < s.len() ==> lo <= (#[trigger] s[i]).x <= hi,
    ensures
        s.len() * lo <= sum_x(s),
        sum_x(s) <= s.len() * hi,
    decreases s.len(),
{
    if s.len() == 0 {
        assert(s.len() * lo == 0) by (nonlinear_arith)
            requires
                s.len() == 0,
        ;
        assert(s.len() * hi == 0) by (nonlinear_arith)
            requires
                s.len() == 0,
        ;
    } else {
        assert forall|i: int| 0 <= i < s.drop_last().len()
            implies lo <= (#[trigger] s.drop_last()[i]).x <= hi by {
            assert(s.drop_last()[i] == s[i]);
        }
        lemma_sum_x_bounds(s.drop_last(), lo, hi);
        assert(s.last() == s[s.len() - 1]);
        assert((s.len() - 1) * lo + lo == s.len() * lo) by (nonlinear_arith);
        assert((s.len() - 1) * hi + hi == s.len() * hi) by (nonlinear_arith);
    }
}

pub proof fn lemma_sum_y_bounds(s: Seq<Vec3>, lo: int, hi: int)
    requires
        forall|i: int| 0 <= i < s.len() ==> lo <= (#[trigger] s[i]).y <= hi,
    ensures
        s.len() * lo <= sum_y(s),
        sum_y(s) <= s.len() * hi,
    decreases s.len(),
{
    if s.len() == 0 {
        assert(s.len() * lo == 0) by (nonlinear_arith)
            requires
                s.len() == 0,
        ;
        assert(s.len() * hi == 0) by (nonlinear_arith)
            requires
                s.len() == 0,
        ;
    } else {
        assert forall|i: int| 0 <= i < s.drop_last().len()
            implies lo <= (#[trigger] s.drop_last()[i]).y <= hi by {
            assert(s.drop_last()[i] == s[i]);
        }
        lemma_sum_y_bounds(s.drop_last(), lo, hi);
        assert(s.last() == s[s.len() - 1]);
        assert((s.len() - 1) * lo + lo == s.len() * lo) by (nonlinear_arith);
        assert((s.len() - 1) * hi + hi == s.len() * hi) by (nonlinear_arith);
    }
}

pub proof fn lemma_sum_z_bounds(s: Seq<Vec3>, lo: int, hi: int)
    requires
        forall|i: int| 0 <= i < s.len() ==> lo <= (#[trigger] s[i]).z <= hi,
    ensures
        s.len() * lo <= sum_z(s),
        sum_z(s) <= s.len() * hi,
    decreases s.len(),
{
    if s.len() == 0 {
        assert(s.len() * lo == 0) by (nonlinear_arith)
            requires
                s.len() == 0,
        ;
        assert(s.len() * hi == 0) by (nonlinear_arith)
            requires
                s.len() == 0,
        ;
    } else {
        assert forall|i: int| 0 <= i < s.drop_last().len()
            implies lo <= (#[trigger] s.drop_last()[i]).z <= hi by {
            assert(s.drop_last()[i] == s[i]);
        }
        lemma_sum_z_bounds(s.drop_last(), lo, hi);
        assert(s.last() == s[s.len() - 1]);
        assert((s.len() - 1) * lo + lo == s.len() * lo) by (nonlinear_arith);
        assert((s.len() - 1) * hi + hi == s.len() * hi) by (nonlinear_arith);
    }
}

/// The floor-mean of a sum bounded below by `n * v` is itself at least `v`.
pub proof fn lemma_mean_lower(s: int, n: int, v: int)
    requires
        0 < n,
        0 <= v,
        n * v <= s,
    ensures
        v <= s / n,
{
    lemma_mul_nonnegative(n, v);
    lemma_div_is_ordered(n * v, s, n);
    lemma_div_multiples_vanish(v, n);
}

/// The arithmetic-mean estimator over a batch of per-sample colors: the
/// floor of each channel sum divided by the count, exactly; an empty batch
/// (zero samples per pixel is valid-but-degenerate configuration) yields
/// black rather than a division by zero.
pub fn average_samples(samples: &Vec<Vec3>) -> (m: Vec3)
    requires
        samples@.len() <= 0x4000_0000,
        forall|i: int| 0 <= i < samples@.len() ==> {
            &&& 0 <= (#[trigger] samples@[i]).x <= SCALE
            &&& 0 <= samples@[i].y <= SCALE
            &&& 0 <= samples@[i].z <= SCALE
        },
    ensures
        0 <= m.x <= SCALE,
        0 <= m.y <= SCALE,
        0 <= m.z <= SCALE,
        samples@.len() == 0 ==> m == (Vec3 { x: 0, y: 0, z: 0 }),
        samples@.len() > 0 ==> {
            &&& m.x as int == sum_x(samples@) / samples@.len() as int
            &&& m.y as int == sum_y(samples@) / samples@.len() as int
            &&& m.z as int == sum_z(samples@) / samples@.len() as int
        },
{
    let n = samples.len();
    if n == 0 {
        return Vec3 { x: 0, y: 0, z: 0 };
    }
    let mut sx: i64 = 0;
    let mut sy: i64 = 0;
    let mut sz: i64 = 0;
    let mut k: usize = 0;
    while k < n
        invariant
            k <= n,
            n == samples@.len(),
            n <= 0x4000_0000,
            forall|i: int| 0 <= i < samples@.len() ==> {
                &&& 0 <= (#[trigger] samples@[i]).x <= SCALE
                &&& 0 <= samples@[i].y <= SCALE
                &&& 0 <= samples@[i].z <= SCALE
            },
            0 <= sx <= k * (SCALE as int),
            0 <= sy <= k * (SCALE as int),
            0 <= sz <= k * (SCALE as int),
            sx == sum_x(samples@.take(k as int)),
            sy == sum_y(samples@.take(k as int)),
            sz == sum_z(samples@.take(k as int)),
        decreases n - k,
    {
        proof {
            assert(samples@.take(k + 1 as int).drop_last() =~= samples@.take(k as int));
            assert(samples@.take(k + 1 as int).last() == samples@[k as int]);
        }
        sx = sx + samples[k].x;
        sy = sy + samples[k].y;
        sz = sz + samples[k].z;
        k = k + 1;
    }
    proof {
        assert(samples@.take(n as int) =~= samples@);
        lemma_mean_in_unit(sx as int, n as int);
        lemma_mean_in_unit(sy as int, n as int);
        lemma_mean_in_unit(sz as int, n as int);
    }
    let d = n as u64;
    Vec3 { x: ((sx as u64) / d) as i64, y: ((sy as u64) / d) as i64, z: ((sz as u64) / d) as i64 }
}

/// Average `world.num_samples` independent path traces of the same ray
/// (a single trace in unlit mode): the arithmetic-mean estimator of the
/// pixel's radiance, exactly as `average_samples` states it. Zero samples
/// yield black rather than a division by zero. Every channel of the result
/// lies in `[0, SCALE]`; zero bounces yield black; in unlit mode the result
/// is exactly `unlit_pixel_s`; and in lit mode, since every sample is at
/// least the deterministic first-bounce light, so is their floor-mean.
pub fn shade(world: &World, origin: Vec3, dir: Vec3) -> (c: Vec3)
    requires
        world.wf(),
    ensures
        0 <= c.x <= SCALE,
        0 <= c.y <= SCALE,
        0 <= c.z <= SCALE,
        world.unlit ==> c == unlit_pixel_s(*world, (Ray { origin, dir })),
        world.max_bounces == 0 ==> c == (Vec3 { x: 0, y: 0, z: 0 }),
        !world.unlit && world.max_bounces > 0 && world.num_samples > 0
            ==> (nearest_hit(world.objects@, (Ray { origin, dir })) matches Some(p) ==> {
                &&& c.x >= first_bounce_light_s(object_material(world.objects@[p.0])).x
                &&& c.y >= first_bounce_light_s(object_material(world.objects@[p.0])).y
                &&& c.z >= first_bounce_light_s(object_material(world.objects@[p.0])).z
            }),
{
    let samples: usize = if world.unlit {
        1
    } else {
        world.num_samples
    };
    if samples == 0 {
        return vec3_from(0);
    }
    let mut batch: Vec<Vec3> = Vec::new();
    let mut k: usize = 0;
    let ghost first = Ray { origin, dir };
    while k < samples
        invariant
            world.wf(),
            first == (Ray { origin, dir }),
            k <= samples,
            samples <= 0x4000_0000,
            batch@.len() == k,
            forall|i: int| 0 <= i < batch@.len() ==> {
                &&& 0 <= (#[trigger] batch@[i]).x <= SCALE
                &&& 0 <= batch@[i].y <= SCALE
                &&& 0 <= batch@[i].z <= SCALE
            },
            world.unlit ==> samples == 1,
            world.unlit && k == 1 ==> batch@[0] == unlit_pixel_s(*world, first),
            world.max_bounces == 0 ==> forall|i: int| 0 <= i < batch@.len()
                ==> #[trigger] batch@[i] == (Vec3 { x: 0, y: 0, z: 0 }),
            !world.unlit && world.max_bounces > 0
                ==> (nearest_hit(world.objects@, first) matches Some(p)
                    ==> forall|i: int| 0 <= i < batch@.len() ==> {
                        &&& (#[trigger] batch@[i]).x
                            >= first_bounce_light_s(object_material(world.objects@[p.0])).x
                        &&& batch@[i].y
                            >= first_bounce_light_s(object_material(world.objects@[p.0])).y
                        &&& batch@[i].z
                            >= first_bounce_light_s(object_material(world.objects@[p.0])).z
                    }),
        decreases samples - k,
    {
        let sampled_ray = Ray::new(origin, dir);
        proof {
            assert(sampled_ray == first);
        }
        batch.push(raytrace(world, sampled_ray));
        k = k + 1;
    }
    let m = average_samples(&batch);
    proof {
        if world.unlit {
            reveal_with_fuel(sum_x, 2);
            reveal_with_fuel(sum_y, 2);
            reveal_with_fuel(sum_z, 2);
            assert(batch@.drop_last() =~= Seq::<Vec3>::empty());
            assert(sum_x(batch@) == batch@[0].x);
            assert(sum_y(batch@) == batch@[0].y);
            assert(sum_z(batch@) == batch@[0].z);
            lemma_mean_in_unit(sum_x(batch@), 1int);
            lemma_mean_in_unit(sum_y(batch@), 1int);
            lemma_mean_in_unit(sum_z(batch@), 1int);
            assert(m =~= unlit_pixel_s(*world, first));
        }
        if world.max_bounces == 0 {
            lemma_sum_x_bounds(batch@, 0, 0);
            lemma_sum_y_bounds(batch@, 0, 0);
            lemma_sum_z_bounds(batch@, 0, 0);
            lemma_div_of0(samples as int);
            assert(m =~= (Vec3 { x: 0, y: 0, z: 0 }));
        }
        if !world.unlit && world.max_bounces > 0 {
            match nearest_hit(world.objects@, first) {
                Option::Some(p) => {
                    lemma_nearest_hit_props(world.objects@, first);
                    let fb = first_bounce_light_s(object_material(world.objects@[p.0]));
                    lemma_first_bounce_bounds(object_material(world.objects@[p.0]));
                    lemma_sum_x_bounds(batch@, fb.x as int, SCALE as int);
                    lemma_sum_y_bounds(batch@, fb.y as int, SCALE as int);
                    lemma_sum_z_bounds(batch@, fb.z as int, SCALE as int);
                    lemma_mean_lower(sum_x(batch@), samples as int, fb.x as int);
                    lemma_mean_lower(sum_y(batch@), samples as int, fb.y as int);
                    lemma_mean_lower(sum_z(batch@), samples as int, fb.z as int);
                },
                Option::None => {},
            }
        }
    }
    m
}

/// The floor-mean of a sum of at most `n` unit-interval values is itself in
/// the unit interval.
pub proof fn lemma_mean_in_unit(s: int, n: int)
    requires
        0 < n,
        0 <= s <= n * (SCALE as int),
    ensures
        0 <= s / n <= SCALE as int,
        n == 1 ==> s / n == s,
{
    lemma_div_pos_is_pos(s, n);
    lemma_div_is_ordered(s, n * (SCALE as int), n);
    lemma_div_multiples_vanish(SCALE as int, n);
    if n == 1 {
        lemma_div_multiples_vanish(s, 1);
    }
}

} // verus!
