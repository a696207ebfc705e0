//! Scene primitives and the intersector: spheres and planes with materials,
//! rays, hit records, and the linear nearest-hit scan over an ordered world.

use vstd::prelude::*;
use crate::fx::{fx_add, fx_add_s, fx_div, fx_div_s, fx_mul, fx_mul_s, fx_sqrt, fx_sqrt_s, fx_sub,
    fx_sub_s, SCALE};
use crate::vec3::{dot_s, normalize_s, v_add, v_dot, v_normalize, v_scale, v_sub, vadd_s,
    vscale_s, vsub_s, Vec3};

verus! {

/// Surface material: albedo color (each channel in `[0, SCALE]`), emission
/// intensity (non-negative) and the probability (in `[0, SCALE]`) that a
/// bounce is specular rather than diffuse.
#[derive(Clone, Copy, Debug, PartialEq, Eq, Structural)]
pub struct Material {
    pub color: Vec3,
    pub emission: i64,
    pub reflectiveness: i64,
}

pub open spec fn material_wf(m: Material) -> bool {
    &&& 0 <= m.color.x <= SCALE
    &&& 0 <= m.color.y <= SCALE
    &&& 0 <= m.color.z <= SCALE
    &&& 0 <= m.emission
    &&& 0 <= m.reflectiveness <= SCALE
}

#[derive(Clone, Copy, Debug, PartialEq, Eq, Structural)]
pub struct Sphere {
    pub pos: Vec3,
    pub radius: i64,
    pub material: Material,
}

#[derive(Clone, Copy, Debug, PartialEq, Eq, Structural)]
pub struct Plane {
    pub pos: Vec3,
    pub normal: Vec3,
    pub material: Material,
}

#[derive(Clone, Copy, Debug, PartialEq, Eq, Structural)]
pub enum GameObject {
    Sphere(Sphere),
    Plane(Plane),
}

#[derive(Clone, Copy, Debug, PartialEq, Eq, Structural)]
pub struct Ray {
    pub origin: Vec3,
    pub dir: Vec3,
}

/// One intersection: the hit point, its parametric distance along the ray,
/// the surface normal there, and the material of the primitive that was hit.
#[derive(Clone, Copy, Debug, PartialEq, Eq, Structural)]
pub struct HitData {
    pub point: Vec3,
    pub t: i64,
    pub normal: Vec3,
    pub material: Material,
}

impl Ray {
    pub fn new(origin: Vec3, dir: Vec3) -> (r: Ray)
        ensures
            r == (Ray { origin, dir }),
    {
        Ray { origin, dir }
    }
}

/// The point a ray reaches at parametric distance `t`.
pub open spec fn hit_point_s(ray: Ray, t: i64) -> Vec3 {
    vadd_s(ray.origin, vscale_s(ray.dir, t))
}

/// Distance of the nearest non-negative sphere intersection, from the
/// quadratic `a t^2 + b t + c = 0` with `a = dot(d, d)`,
/// `b = 2 dot(o - center, d)`, `c = dot(o - center, o - center) - r^2`:
/// none when the discriminant is negative or the nearer root lies behind
/// the ray origin.
#[verifier::opaque]
pub open spec fn sphere_hit_t(s: Sphere, ray: Ray) -> Option<int> {
    let oc = vsub_s(ray.origin, s.pos);
    let a = dot_s(ray.dir, ray.dir);
    let b = fx_add_s(dot_s(oc, ray.dir), dot_s(oc, ray.dir));
    let c = fx_sub_s(dot_s(oc, oc), fx_mul_s(s.radius as int, s.radius as int));
    let ac = fx_mul_s(a, c);
    let four_ac = fx_add_s(fx_add_s(ac, ac), fx_add_s(ac, ac));
    let disc = fx_sub_s(fx_mul_s(b, b), four_ac);
    if disc < 0 {
        None
    } else {
        let t = fx_div_s(fx_sub_s(-b, fx_sqrt_s(disc)), fx_add_s(a, a));
        if t < 0 {
            None
        } else {
            Some(t)
        }
    }
}

/// Distance of a plane intersection: none when the ray is parallel to the
/// plane (the fixed-point denominator truncates to zero) or the intersection
/// lies behind the ray origin.
#[verifier::opaque]
pub open spec fn plane_hit_t(p: Plane, ray: Ray) -> Option<int> {
    let d = dot_s(p.normal, ray.dir);
    if d == 0 {
        None
    } else {
        let t = fx_div_s(dot_s(vsub_s(p.pos, ray.origin), p.normal), d);
        if t < 0 {
            None
        } else {
            Some(t)
        }
    }
}

pub open spec fn object_hit_t(o: GameObject, ray: Ray) -> Option<int> {
    match o {
        GameObject::Sphere(s) => sphere_hit_t(s, ray),
        GameObject::Plane(p) => plane_hit_t(p, ray),
    }
}

pub open spec fn object_material(o: GameObject) -> Material {
    match o {
        GameObject::Sphere(s) => s.material,
        GameObject::Plane(p) => p.material,
    }
}

/// Surface normal at a hit point: for a sphere the normalized offset of the
/// point from the center, for a plane its stored normal (normalized, so the
/// convention is consistent whatever scale the caller stored it at).
pub open spec fn object_hit_normal(o: GameObject, point: Vec3) -> Vec3 {
    match o {
        GameObject::Sphere(s) => normalize_s(vsub_s(point, s.pos)),
        GameObject::Plane(p) => normalize_s(p.normal),
    }
}

impl Sphere {
    pub fn hit(&self, ray: &Ray) -> (r: Option<HitData>)
        ensures
            (r is Some) == (sphere_hit_t(*self, *ray) is Some),
            r matches Some(h) ==> {
                &&& sphere_hit_t(*self, *ray) == Some(h.t as int)
                &&& h.t >= 0
                &&& h.point == hit_point_s(*ray, h.t)
                &&& h.normal == normalize_s(vsub_s(h.point, self.pos))
                &&& h.material == self.material
            },
    {
        proof {
            reveal(sphere_hit_t);
        }
        let oc = v_sub(ray.origin, self.pos);
        let a = v_dot(ray.dir, ray.dir);
        let half = v_dot(oc, ray.dir);
        let b = fx_add(half, half);
        let c = fx_sub(v_dot(oc, oc), fx_mul(self.radius, self.radius));
        let ac = fx_mul(a, c);
        let four_ac = fx_add(fx_add(ac, ac), fx_add(ac, ac));
        let disc = fx_sub(fx_mul(b, b), four_ac);
        if disc < 0 {
            return None;
        }
        let t = fx_div(fx_sub(-b, fx_sqrt(disc)), fx_add(a, a));
        if t < 0 {
            return None;
        }
        let point = v_add(ray.origin, v_scale(ray.dir, t));
        Some(HitData { point, t, normal: v_normalize(v_sub(point, self.pos)), material: self.material })
    }

    pub fn material(&self) -> (m: &Material)
        ensures
            *m == self.material,
    {
        &self.material
    }

    pub fn pos(&self) -> (p: Vec3)
        ensures
            p == self.pos,
    {
        self.pos
    }
}

impl Plane {
    pub fn hit(&self, ray: &Ray) -> (r: Option<HitData>)
        ensures
            (r is Some) == (plane_hit_t(*self, *ray) is Some),
            r matches Some(h) ==> {
                &&& plane_hit_t(*self, *ray) == Some(h.t as int)
                &&& h.t >= 0
                &&& h.point == hit_point_s(*ray, h.t)
                &&& h.normal == normalize_s(self.normal)
                &&& h.material == self.material
            },
    {
        proof {
            reveal(plane_hit_t);
        }
        let d = v_dot(self.normal, ray.dir);
        if d == 0 {
            return None;
        }
        let t = fx_div(v_dot(v_sub(self.pos, ray.origin), self.normal), d);
        if t < 0 {
            return None;
        }
        let point = v_add(ray.origin, v_scale(ray.dir, t));
        Some(HitData { point, t, normal: v_normalize(self.normal), material: self.material })
    }

    pub fn material(&self) -> (m: &Material)
        ensures
            *m == self.material,
    {
        &self.material
    }

    pub fn pos(&self) -> (p: Vec3)
        ensures
            p == self.pos,
    {
        self.pos
    }
}

impl GameObject {
    pub fn hit(&self, ray: &Ray) -> (r: Option<HitData>)
        ensures
            (r is Some) == (object_hit_t(*self, *ray) is Some),
            r matches Some(h) ==> {
                &&& object_hit_t(*self, *ray) == Some(h.t as int)
                &&& h.t >= 0
                &&& h.point == hit_point_s(*ray, h.t)
                &&& h.normal == object_hit_normal(*self, h.point)
                &&& h.material == object_material(*self)
            },
    {
        match self {
            GameObject::Sphere(s) => s.hit(ray),
            GameObject::Plane(p) => p.hit(ray),
        }
    }
}

/// The nearest hit over an ordered sequence of primitives: the strictly
/// smallest distance wins, and among equal distances the earliest primitive
/// in scan order. Returns the winning index and its distance.
pub open spec fn nearest_hit(objs: Seq<GameObject>, ray: Ray) -> Option<(int, int)>
    decreases objs.len(),
{
    if objs.len() == 0 {
        None
    } else {
        let rest = nearest_hit(objs.drop_last(), ray);
        let last_i = objs.len() - 1;
        match rest {
            Option::None => {
                match object_hit_t(objs.last(), ray) {
                    Option::None => None,
                    Option::Some(t) => Some((last_i as int, t)),
                }
            },
            Option::Some(best) => {
                match object_hit_t(objs.last(), ray) {
                    Option::None => Some(best),
                    Option::Some(t) => if t < best.1 {
                        Some((last_i as int, t))
                    } else {
                        Some(best)
                    },
                }
            },
        }
    }
}

/// What `nearest_hit` selects: a real hit, with the smallest distance of any
/// hit in the sequence, and the earliest index among equal distances; when it
/// selects nothing, no primitive is hit at all.
pub proof fn lemma_nearest_hit_props(objs: Seq<GameObject>, ray: Ray)
    ensures
        nearest_hit(objs, ray) is None ==> forall|j: int|
            0 <= j < objs.len() ==> object_hit_t(#[trigger] objs[j], ray) is None,
        nearest_hit(objs, ray) matches Some(p) ==> {
            &&& 0 <= p.0 < objs.len()
            &&& object_hit_t(objs[p.0], ray) == Some(p.1)
            &&& forall|j: int| 0 <= j < objs.len()
                ==> (object_hit_t(#[trigger] objs[j], ray) matches Some(tj) ==> p.1 <= tj)
            &&& forall|j: int| 0 <= j < p.0
                ==> (object_hit_t(#[trigger] objs[j], ray) matches Some(tj) ==> p.1 < tj)
        },
    decreases objs.len(),
{
    if objs.len() > 0 {
        lemma_nearest_hit_props(objs.drop_last(), ray);
        assert(forall|j: int| 0 <= j < objs.len() - 1 ==> objs.drop_last()[j] == #[trigger] objs[j]);
        assert(objs.last() == objs[objs.len() - 1]);
    }
}

/// The world: the ordered primitives and the global render-mode flags.
pub struct World {
    pub objects: Vec<GameObject>,
    pub unlit: bool,
    pub frame_averaging: bool,
    pub max_bounces: usize,
    pub num_samples: usize,
}

impl World {
    /// Well-formed world: every material is within its ranges, and the
    /// per-pixel sample count is small enough that a sum of unit-interval
    /// samples cannot overflow an `i64`.
    pub open spec fn wf(self) -> bool {
        &&& forall|i: int| 0 <= i < self.objects@.len()
            ==> material_wf(object_material(#[trigger] self.objects@[i]))
        &&& self.num_samples <= 0x4000_0000
    }

    /// Nearest-hit intersection: scans every primitive and keeps the hit
    /// with the strictly smallest non-negative distance; returns `None`
    /// exactly when no primitive is hit.
    pub fn hit(&self, ray: &Ray) -> (r: Option<HitData>)
        ensures
            (r is Some) == (nearest_hit(self.objects@, *ray) is Some),
            r is None ==> forall|j: int| 0 <= j < self.objects@.len()
                ==> object_hit_t(#[trigger] self.objects@[j], *ray) is None,
            r matches Some(h) ==> {
                &&& nearest_hit(self.objects@, *ray) matches Some(p)
                &&& 0 <= p.0 < self.objects@.len()
                &&& h.t as int == p.1
                &&& object_hit_t(self.objects@[p.0], *ray) == Some(h.t as int)
                &&& h.t >= 0
                &&& h.point == hit_point_s(*ray, h.t)
                &&& h.normal == object_hit_normal(self.objects@[p.0], h.point)
                &&& h.material == object_material(self.objects@[p.0])
            },
            r matches Some(h) ==> forall|j: int| 0 <= j < self.objects@.len()
                ==> (object_hit_t(#[trigger] self.objects@[j], *ray) matches Some(tj)
                    ==> h.t as int <= tj),
    {
        let mut closest: Option<HitData> = None;
        let mut i: usize = 0;
        while i < self.objects.len()
            invariant
                i <= self.objects@.len(),
                (closest is Some) == (nearest_hit(self.objects@.take(i as int), *ray) is Some),
                closest matches Some(h) ==> {
                    &&& nearest_hit(self.objects@.take(i as int), *ray) matches Some(p)
                    &&& 0 <= p.0 < i
                    &&& h.t as int == p.1
                    &&& object_hit_t(self.objects@[p.0], *ray) == Some(h.t as int)
                    &&& h.t >= 0
                    &&& h.point == hit_point_s(*ray, h.t)
                    &&& h.normal == object_hit_normal(self.objects@[p.0], h.point)
                    &&& h.material == object_material(self.objects@[p.0])
                },
            decreases self.objects@.len() - i,
        {
            let ghost prefix = self.objects@.take(i as int);
            let cur = self.objects[i].hit(ray);
            proof {
                assert(self.objects@.take(i + 1 as int).drop_last() =~= prefix);
                assert(self.objects@.take(i + 1 as int).last() == self.objects@[i as int]);
            }
            match cur {
                Option::None => {},
                Option::Some(h) => {
                    match &closest {
                        Option::None => {
                            closest = Some(h);
                        },
                        Option::Some(best) => {
                            if h.t < best.t {
                                closest = Some(h);
                            }
                        },
                    }
                },
            }
            i = i + 1;
        }
        proof {
            assert(self.objects@.take(self.objects@.len() as int) =~= self.objects@);
            lemma_nearest_hit_props(self.objects@, *ray);
        }
        closest
    }
}

/// Distance selected by the nearest-hit scan, index forgotten.
pub open spec fn nearest_t(objs: Seq<GameObject>, ray: Ray) -> Option<int> {
    match nearest_hit(objs, ray) {
        Option::None => None,
        Option::Some(p) => Some(p.1),
    }
}

/// Nearest-hit selection is independent of scene order: two primitives along
/// the same ray yield the same winning distance whichever of them the scene
/// lists first.
pub proof fn lemma_nearest_order_independent(o1: GameObject, o2: GameObject, ray: Ray)
    ensures
        nearest_t(seq![o1, o2], ray) == nearest_t(seq![o2, o1], ray),
{
    reveal_with_fuel(nearest_hit, 3);
    let a = seq![o1, o2];
    let b = seq![o2, o1];
    assert(a.drop_last() =~= seq![o1]);
    assert(b.drop_last() =~= seq![o2]);
    assert(seq![o1].drop_last() =~= Seq::<GameObject>::empty());
    assert(seq![o2].drop_last() =~= Seq::<GameObject>::empty());
    assert(a.last() == o2);
    assert(b.last() == o1);
    assert(seq![o1].last() == o1);
    assert(seq![o2].last() == o2);
}

} // verus!
