//! The camera: pose, lens parameters, derived view and projection matrices
//! with their inverses, and a precomputed world-space ray direction for
//! every pixel of the viewport, recomputed lazily exactly once per dirty
//! transition.
//!
//! Angles use truncated Maclaurin series for sine and cosine — the chosen
//! convention for this renderer, accurate to well under a percent over the
//! small mouse-rotation angles and half-field-of-view values it is fed.

use vstd::prelude::*;
use vstd::arithmetic::div_mod::lemma_fundamental_div_mod_converse;
use crate::fx::{fx_add, fx_add_s, fx_div, fx_div_s, fx_mul, fx_mul_s, fx_sub, fx_sub_s, SCALE};
use crate::mat4::{mat4_identity, mat4_identity_s, mat4_mul_vec4, mat4_mul_vec4_s, Mat4, Vec4};
use crate::vec3::{cross_s, dot_s, normalize_s, v_add, v_cross, v_dot, v_normalize, v_scale, v_sub,
    vadd_s, vscale_s, vsub_s, Vec3};

verus! {

/// Pi at fixed-point scale.
pub const PI_FX: i64 = 205887;

/// Mouse position marker for "no position seen yet".
pub const MOUSE_SENTINEL: i64 = 999999 * 65536;

/// Sine by truncated Maclaurin series: `x - x^3/6 + x^5/120` in fixed point.
pub open spec fn sin_s(x: i64) -> i64 {
    let xi = x as int;
    let x2 = fx_mul_s(xi, xi);
    let x3 = fx_mul_s(x2, xi);
    let x5 = fx_mul_s(x2, x3);
    fx_add_s(fx_sub_s(xi, fx_div_s(x3, 393216)), fx_div_s(x5, 7864320)) as i64
}

/// Cosine by truncated Maclaurin series: `1 - x^2/2 + x^4/24` in fixed point.
pub open spec fn cos_s(x: i64) -> i64 {
    let xi = x as int;
    let x2 = fx_mul_s(xi, xi);
    let x4 = fx_mul_s(x2, x2);
    fx_add_s(fx_sub_s(SCALE as int, fx_div_s(x2, 131072)), fx_div_s(x4, 1572864)) as i64
}

pub fn sin_fx(x: i64) -> (r: i64)
    ensures
        r == sin_s(x),
{
    let x2 = fx_mul(x, x);
    let x3 = fx_mul(x2, x);
    let x5 = fx_mul(x2, x3);
    fx_add(fx_sub(x, fx_div(x3, 393216)), fx_div(x5, 7864320))
}

pub fn cos_fx(x: i64) -> (r: i64)
    ensures
        r == cos_s(x),
{
    let x2 = fx_mul(x, x);
    let x4 = fx_mul(x2, x2);
    fx_add(fx_sub(SCALE, fx_div(x2, 131072)), fx_div(x4, 1572864))
}

/// Rodrigues rotation of `v` about the axis `k` with precomputed cosine and
/// sine of the angle: `v cos + (k x v) sin + k (k . v)(1 - cos)`.
pub open spec fn rotate_axis_s(v: Vec3, k: Vec3, cs: i64, sn: i64) -> Vec3 {
    let cterm = vscale_s(v, cs);
    let sterm = vscale_s(cross_s(k, v), sn);
    let kdv = dot_s(k, v);
    let oneminus = fx_sub_s(SCALE as int, cs as int);
    let kterm = vscale_s(k, fx_mul_s(kdv, oneminus) as i64);
    vadd_s(vadd_s(cterm, sterm), kterm)
}

pub fn rotate_axis(v: Vec3, k: Vec3, cs: i64, sn: i64) -> (r: Vec3)
    ensures
        r == rotate_axis_s(v, k, cs, sn),
{
    let cterm = v_scale(v, cs);
    let sterm = v_scale(v_cross(k, v), sn);
    let kdv = v_dot(k, v);
    let oneminus = fx_sub(SCALE, cs);
    let kterm = v_scale(k, fx_mul(kdv, oneminus));
    v_add(v_add(cterm, sterm), kterm)
}

/// The look-at view matrix: rows of the orthonormal camera frame (side, up,
/// negative forward) and the eye position projected onto that frame.
pub open spec fn look_at_s(eye: Vec3, fwd: Vec3, up: Vec3) -> Mat4 {
    let f = normalize_s(fwd);
    let s = normalize_s(cross_s(f, up));
    let u = cross_s(s, f);
    Mat4 {
        c0: Vec4 { x: s.x, y: u.x, z: fx_sub_s(0, f.x as int) as i64, w: 0 },
        c1: Vec4 { x: s.y, y: u.y, z: fx_sub_s(0, f.y as int) as i64, w: 0 },
        c2: Vec4 { x: s.z, y: u.z, z: fx_sub_s(0, f.z as int) as i64, w: 0 },
        c3: Vec4 {
            x: fx_sub_s(0, dot_s(s, eye)) as i64,
            y: fx_sub_s(0, dot_s(u, eye)) as i64,
            z: dot_s(f, eye) as i64,
            w: SCALE,
        },
    }
}

/// The inverse of the look-at matrix, taken analytically from the same
/// orthonormal frame: the rotation part transposed, the eye position as the
/// translation column.
pub open spec fn inv_view_s(eye: Vec3, fwd: Vec3, up: Vec3) -> Mat4 {
    let f = normalize_s(fwd);
    let s = normalize_s(cross_s(f, up));
    let u = cross_s(s, f);
    Mat4 {
        c0: Vec4 { x: s.x, y: s.y, z: s.z, w: 0 },
        c1: Vec4 { x: u.x, y: u.y, z: u.z, w: 0 },
        c2: Vec4 {
            x: fx_sub_s(0, f.x as int) as i64,
            y: fx_sub_s(0, f.y as int) as i64,
            z: fx_sub_s(0, f.z as int) as i64,
            w: 0,
        },
        c3: Vec4 { x: eye.x, y: eye.y, z: eye.z, w: SCALE },
    }
}

pub fn look_at(eye: Vec3, fwd: Vec3, up: Vec3) -> (r: Mat4)
    ensures
        r == look_at_s(eye, fwd, up),
{
    let f = v_normalize(fwd);
    let s = v_normalize(v_cross(f, up));
    let u = v_cross(s, f);
    Mat4 {
        c0: Vec4 { x: s.x, y: u.x, z: fx_sub(0, f.x), w: 0 },
        c1: Vec4 { x: s.y, y: u.y, z: fx_sub(0, f.y), w: 0 },
        c2: Vec4 { x: s.z, y: u.z, z: fx_sub(0, f.z), w: 0 },
        c3: Vec4 {
            x: fx_sub(0, v_dot(s, eye)),
            y: fx_sub(0, v_dot(u, eye)),
            z: v_dot(f, eye),
            w: SCALE,
        },
    }
}

pub fn inv_view(eye: Vec3, fwd: Vec3, up: Vec3) -> (r: Mat4)
    ensures
        r == inv_view_s(eye, fwd, up),
{
    let f = v_normalize(fwd);
    let s = v_normalize(v_cross(f, up));
    let u = v_cross(s, f);
    Mat4 {
        c0: Vec4 { x: s.x, y: s.y, z: s.z, w: 0 },
        c1: Vec4 { x: u.x, y: u.y, z: u.z, w: 0 },
        c2: Vec4 { x: fx_sub(0, f.x), y: fx_sub(0, f.y), z: fx_sub(0, f.z), w: 0 },
        c3: Vec4 { x: eye.x, y: eye.y, z: eye.z, w: SCALE },
    }
}

/// Cotangent of half the vertical field of view (given in degrees).
pub open spec fn fov_cot_s(fov: i64) -> i64 {
    let rad = fx_div_s(fx_mul_s(fov as int, PI_FX as int), 11796480);
    let half = fx_mul_s(rad, 32768) as i64;
    fx_div_s(cos_s(half) as int, sin_s(half) as int) as i64
}

pub fn fov_cot(fov: i64) -> (r: i64)
    ensures
        r == fov_cot_s(fov),
{
    let rad = fx_div(fx_mul(fov, PI_FX), 11796480);
    let half = fx_mul(rad, 32768);
    fx_div(cos_fx(half), sin_fx(half))
}

/// The perspective projection from vertical field of view (degrees),
/// viewport size and the clip distances, in the usual column layout: the
/// cotangent terms on the diagonal, the depth terms in the third and fourth
/// columns, `-1` carrying the perspective divide.
pub open spec fn perspective_s(fov: i64, width: usize, height: usize, near: i64, far: i64) -> Mat4 {
    let cot = fov_cot_s(fov);
    let a = fx_div_s(
        fx_mul_s(cot as int, (height as int) * (SCALE as int)),
        (width as int) * (SCALE as int),
    ) as i64;
    let c = fx_div_s(
        fx_sub_s(0, fx_add_s(far as int, near as int)),
        fx_sub_s(far as int, near as int),
    ) as i64;
    let fn2 = fx_mul_s(far as int, near as int);
    let d = fx_div_s(fx_sub_s(0, fx_add_s(fn2, fn2)), fx_sub_s(far as int, near as int)) as i64;
    Mat4 {
        c0: Vec4 { x: a, y: 0, z: 0, w: 0 },
        c1: Vec4 { x: 0, y: cot, z: 0, w: 0 },
        c2: Vec4 { x: 0, y: 0, z: c, w: -65536i64 },
        c3: Vec4 { x: 0, y: 0, z: d, w: 0 },
    }
}

/// The analytic inverse of `perspective_s`: reciprocals of the diagonal
/// terms, the depth row unfolded through `1/D` and `C/D`.
pub open spec fn inv_perspective_s(fov: i64, width: usize, height: usize, near: i64, far: i64)
    -> Mat4 {
    let p = perspective_s(fov, width, height, near, far);
    Mat4 {
        c0: Vec4 { x: fx_div_s(SCALE as int, p.c0.x as int) as i64, y: 0, z: 0, w: 0 },
        c1: Vec4 { x: 0, y: fx_div_s(SCALE as int, p.c1.y as int) as i64, z: 0, w: 0 },
        c2: Vec4 { x: 0, y: 0, z: 0, w: fx_div_s(SCALE as int, p.c3.z as int) as i64 },
        c3: Vec4 {
            x: 0,
            y: 0,
            z: -65536i64,
            w: fx_div_s(p.c2.z as int, p.c3.z as int) as i64,
        },
    }
}

pub fn perspective(fov: i64, width: usize, height: usize, near: i64, far: i64) -> (r: Mat4)
    requires
        width <= 16384,
        height <= 16384,
    ensures
        r == perspective_s(fov, width, height, near, far),
{
    let cot = fov_cot(fov);
    let a = fx_div(fx_mul(cot, (height as i64) * SCALE), (width as i64) * SCALE);
    let c = fx_div(fx_sub(0, fx_add(far, near)), fx_sub(far, near));
    let fn2 = fx_mul(far, near);
    let d = fx_div(fx_sub(0, fx_add(fn2, fn2)), fx_sub(far, near));
    Mat4 {
        c0: Vec4 { x: a, y: 0, z: 0, w: 0 },
        c1: Vec4 { x: 0, y: cot, z: 0, w: 0 },
        c2: Vec4 { x: 0, y: 0, z: c, w: -65536 },
        c3: Vec4 { x: 0, y: 0, z: d, w: 0 },
    }
}

pub fn inv_perspective(fov: i64, width: usize, height: usize, near: i64, far: i64) -> (r: Mat4)
    requires
        width <= 16384,
        height <= 16384,
    ensures
        r == inv_perspective_s(fov, width, height, near, far),
{
    let p = perspective(fov, width, height, near, far);
    Mat4 {
        c0: Vec4 { x: fx_div(SCALE, p.c0.x), y: 0, z: 0, w: 0 },
        c1: Vec4 { x: 0, y: fx_div(SCALE, p.c1.y), z: 0, w: 0 },
        c2: Vec4 { x: 0, y: 0, z: 0, w: fx_div(SCALE, p.c3.z) },
        c3: Vec4 { x: 0, y: 0, z: -65536, w: fx_div(p.c2.z, p.c3.z) },
    }
}

/// World-space ray direction for pixel `(x, y)` of a `w` by `h` viewport:
/// normalized device coordinates in `[-1, 1]^2` with row zero at the top of
/// the image, unprojected through the inverse projection, divided by the
/// homogeneous coordinate, normalized, and carried into world space by the
/// inverse view.
pub open spec fn ray_dir_s(ip: Mat4, iv: Mat4, x: int, y: int, w: int, h: int) -> Vec3 {
    let cx0 = fx_div_s(x * (SCALE as int), w * (SCALE as int));
    let cy0 = fx_sub_s(SCALE as int, fx_div_s(y * (SCALE as int), h * (SCALE as int)));
    let cx = fx_sub_s(fx_add_s(cx0, cx0), SCALE as int) as i64;
    let cy = fx_sub_s(fx_add_s(cy0, cy0), SCALE as int) as i64;
    let target = mat4_mul_vec4_s(ip, Vec4 { x: cx, y: cy, z: SCALE, w: SCALE });
    let p1 = normalize_s(Vec3 {
        x: fx_div_s(target.x as int, target.w as int) as i64,
        y: fx_div_s(target.y as int, target.w as int) as i64,
        z: fx_div_s(target.z as int, target.w as int) as i64,
    });
    let p2 = mat4_mul_vec4_s(iv, Vec4 { x: p1.x, y: p1.y, z: p1.z, w: 0 });
    Vec3 { x: p2.x, y: p2.y, z: p2.z }
}

pub fn ray_direction(ip: &Mat4, iv: &Mat4, x: usize, y: usize, w: usize, h: usize) -> (r: Vec3)
    requires
        x < w <= 16384,
        y < h <= 16384,
    ensures
        r == ray_dir_s(*ip, *iv, x as int, y as int, w as int, h as int),
{
    let cx0 = fx_div((x as i64) * SCALE, (w as i64) * SCALE);
    let cy0 = fx_sub(SCALE, fx_div((y as i64) * SCALE, (h as i64) * SCALE));
    let cx = fx_sub(fx_add(cx0, cx0), SCALE);
    let cy = fx_sub(fx_add(cy0, cy0), SCALE);
    let target = mat4_mul_vec4(ip, Vec4 { x: cx, y: cy, z: SCALE, w: SCALE });
    let p1 = v_normalize(Vec3 {
        x: fx_div(target.x, target.w),
        y: fx_div(target.y, target.w),
        z: fx_div(target.z, target.w),
    });
    let p2 = mat4_mul_vec4(iv, Vec4 { x: p1.x, y: p1.y, z: p1.z, w: 0 });
    Vec3 { x: p2.x, y: p2.y, z: p2.z }
}

/// Plain input snapshot for one frame: mouse position in fixed-point
/// pixels, button and key states, and the current viewport size. The
/// surrounding application polls its window and fills this in.
#[derive(Clone, Copy, Debug, PartialEq, Eq, Structural)]
pub struct CameraInput {
    pub mouse_x: i64,
    pub mouse_y: i64,
    pub rotate_held: bool,
    pub fast_held: bool,
    pub key_w: bool,
    pub key_s: bool,
    pub key_a: bool,
    pub key_d: bool,
    pub key_q: bool,
    pub key_e: bool,
    pub width: usize,
    pub height: usize,
}

pub struct Camera {
    pub view: Mat4,
    pub proj: Mat4,
    pub inv_view: Mat4,
    pub inv_proj: Mat4,

    pub fov: i64,
    pub near_clip: i64,
    pub far_clip: i64,

    pub pos: Vec3,
    pub forward: Vec3,
    pub up: Vec3,

    pub ray_dirs: Vec<Vec3>,

    pub sensitivity: i64,
    pub speed: i64,
    pub fast_speed: i64,

    pub last_mouse_x: i64,
    pub last_mouse_y: i64,
    pub last_width: usize,
    pub last_height: usize,

    pub dirty: bool,

    pub was_dirty: bool,
}

/// The side direction of the camera frame.
pub open spec fn cam_right_s(cam: Camera) -> Vec3 {
    normalize_s(cross_s(cam.forward, cam.up))
}

/// Mouse motion since the last frame; the first frame ever seen adopts the
/// current position and reports no motion.
pub open spec fn mouse_delta_s(cam: Camera, input: CameraInput) -> (int, int) {
    if cam.last_mouse_x == MOUSE_SENTINEL && cam.last_mouse_y == MOUSE_SENTINEL {
        (0, 0)
    } else {
        (
            fx_sub_s(input.mouse_x as int, cam.last_mouse_x as int),
            fx_sub_s(input.mouse_y as int, cam.last_mouse_y as int),
        )
    }
}

/// Pose translation for one frame: while the rotate button is held, each
/// held movement key steps the position along the camera frame by
/// `speed * dt` (the fast speed while the fast key is held), in the fixed
/// order forward, back, left, right, down, up.
pub open spec fn moved_pos_s(cam: Camera, input: CameraInput, dt: i64) -> Vec3 {
    if !input.rotate_held {
        cam.pos
    } else {
        let speed = if input.fast_held {
            cam.fast_speed
        } else {
            cam.speed
        };
        let step = fx_mul_s(speed as int, dt as int) as i64;
        let right = cam_right_s(cam);
        let p0 = cam.pos;
        let p1 = if input.key_w {
            vadd_s(p0, vscale_s(cam.forward, step))
        } else {
            p0
        };
        let p2 = if input.key_s {
            vsub_s(p1, vscale_s(cam.forward, step))
        } else {
            p1
        };
        let p3 = if input.key_a {
            vsub_s(p2, vscale_s(right, step))
        } else {
            p2
        };
        let p4 = if input.key_d {
            vadd_s(p3, vscale_s(right, step))
        } else {
            p3
        };
        let p5 = if input.key_q {
            vsub_s(p4, vscale_s(cam.up, step))
        } else {
            p4
        };
        if input.key_e {
            vadd_s(p5, vscale_s(cam.up, step))
        } else {
            p5
        }
    }
}

/// Pose rotation for one frame: while the rotate button is held and the
/// mouse moved, the forward direction turns about the up axis by the
/// negated yaw (mouse x times sensitivity) and then about the side axis by
/// the negated pitch, and is re-normalized.
pub open spec fn new_forward_s(cam: Camera, input: CameraInput) -> Vec3 {
    let d = mouse_delta_s(cam, input);
    if !input.rotate_held || (d.0 == 0 && d.1 == 0) {
        cam.forward
    } else {
        let nyaw = fx_sub_s(0, fx_mul_s(d.0, cam.sensitivity as int)) as i64;
        let npitch = fx_sub_s(0, fx_mul_s(d.1, cam.sensitivity as int)) as i64;
        let right = cam_right_s(cam);
        let f1 = rotate_axis_s(cam.forward, cam.up, cos_s(nyaw), sin_s(nyaw));
        let f2 = rotate_axis_s(f1, right, cos_s(npitch), sin_s(npitch));
        normalize_s(f2)
    }
}

/// When an update leaves the camera dirty for this frame: it already was,
/// the viewport was resized, a movement key was applied, or the mouse
/// turned the camera.
pub open spec fn update_dirty_s(cam: Camera, input: CameraInput) -> bool {
    ||| cam.dirty
    ||| input.width != cam.last_width
    ||| input.height != cam.last_height
    ||| (input.rotate_held && (input.key_w || input.key_s || input.key_a || input.key_d
        || input.key_q || input.key_e))
    ||| (input.rotate_held && {
        let d = mouse_delta_s(cam, input);
        d.0 != 0 || d.1 != 0
    })
}

impl Camera {
    pub fn new(
        pos: Vec3,
        forward: Vec3,
        up: Vec3,
        sensitivity: i64,
        move_speed: i64,
        fast_move_speed: i64,
        fov: i64,
        near_clip: i64,
        far_clip: i64,
    ) -> (r: Camera)
        ensures
            r.view == mat4_identity_s(),
            r.proj == mat4_identity_s(),
            r.inv_view == mat4_identity_s(),
            r.inv_proj == mat4_identity_s(),
            r.pos == pos,
            r.forward == forward,
            r.up == up,
            r.sensitivity == sensitivity,
            r.speed == move_speed,
            r.fast_speed == fast_move_speed,
            r.fov == fov,
            r.near_clip == near_clip,
            r.far_clip == far_clip,
            r.ray_dirs@.len() == 0,
            r.dirty == true,
            r.was_dirty == false,
            r.last_mouse_x == MOUSE_SENTINEL,
            r.last_mouse_y == MOUSE_SENTINEL,
            r.last_width == 0,
            r.last_height == 0,
    {
        Camera {
            view: mat4_identity(),
            inv_view: mat4_identity(),
            proj: mat4_identity(),
            inv_proj: mat4_identity(),
            speed: move_speed,
            fast_speed: fast_move_speed,
            ray_dirs: Vec::new(),
            dirty: true,
            was_dirty: false,
            last_mouse_x: MOUSE_SENTINEL,
            last_mouse_y: MOUSE_SENTINEL,
            last_width: 0,
            last_height: 0,
            pos,
            forward,
            up,
            sensitivity,
            fov,
            near_clip,
            far_clip,
        }
    }

    /// Recompute every derived quantity from the current pose and the given
    /// viewport: view and projection matrices with their inverses, and one
    /// world-space ray direction per pixel, indexed row-major with row zero
    /// at the top.
    fn recompute(&mut self, width: usize, height: usize)
        requires
            width <= 16384,
            height <= 16384,
        ensures
            final(self).view == look_at_s(old(self).pos, old(self).forward, old(self).up),
            final(self).inv_view == inv_view_s(old(self).pos, old(self).forward, old(self).up),
            final(self).proj == perspective_s(
                old(self).fov, width, height, old(self).near_clip, old(self).far_clip),
            final(self).inv_proj == inv_perspective_s(
                old(self).fov, width, height, old(self).near_clip, old(self).far_clip),
            final(self).ray_dirs@.len() == width * height,
            forall|idx: int| 0 <= idx < width * height
                ==> #[trigger] final(self).ray_dirs@[idx] == ray_dir_s(
                    final(self).inv_proj,
                    final(self).inv_view,
                    idx % (width as int),
                    idx / (width as int),
                    width as int,
                    height as int,
                ),
            final(self).pos == old(self).pos,
            final(self).forward == old(self).forward,
            final(self).up == old(self).up,
            final(self).fov == old(self).fov,
            final(self).near_clip == old(self).near_clip,
            final(self).far_clip == old(self).far_clip,
            final(self).sensitivity == old(self).sensitivity,
            final(self).speed == old(self).speed,
            final(self).fast_speed == old(self).fast_speed,
            final(self).last_mouse_x == old(self).last_mouse_x,
            final(self).last_mouse_y == old(self).last_mouse_y,
            final(self).last_width == old(self).last_width,
            final(self).last_height == old(self).last_height,
            final(self).dirty == old(self).dirty,
            final(self).was_dirty == old(self).was_dirty,
    {
        self.view = look_at(self.pos, self.forward, self.up);
        self.inv_view = inv_view(self.pos, self.forward, self.up);
        self.proj = perspective(self.fov, width, height, self.near_clip, self.far_clip);
        self.inv_proj = inv_perspective(self.fov, width, height, self.near_clip, self.far_clip);
        let mut dirs: Vec<Vec3> = Vec::new();
        let mut y: usize = 0;
        while y < height
            invariant
                y <= height,
                width <= 16384,
                height <= 16384,
                dirs@.len() == y * width,
                forall|idx: int| 0 <= idx < y * width
                    ==> #[trigger] dirs@[idx] == ray_dir_s(
                        self.inv_proj, self.inv_view,
                        idx % (width as int), idx / (width as int),
                        width as int, height as int),
            decreases height - y,
        {
            let mut x: usize = 0;
            while x < width
                invariant
                    y < height,
                    x <= width,
                    width <= 16384,
                    height <= 16384,
                    dirs@.len() == y * width + x,
                    forall|idx: int| 0 <= idx < y * width + x
                        ==> #[trigger] dirs@[idx] == ray_dir_s(
                            self.inv_proj, self.inv_view,
                            idx % (width as int), idx / (width as int),
                            width as int, height as int),
                decreases width - x,
            {
                let dir = ray_direction(&self.inv_proj, &self.inv_view, x, y, width, height);
                proof {
                    lemma_fundamental_div_mod_converse(
                        (y * width + x) as int, width as int, y as int, x as int);
                }
                dirs.push(dir);
                x = x + 1;
            }
            proof {
                assert((y + 1) * width == y * width + width) by (nonlinear_arith);
            }
            y = y + 1;
        }
        proof {
            assert(height * width == width * height) by (nonlinear_arith);
        }
        self.ray_dirs = dirs;
    }

    /// Consume one frame's input snapshot and elapsed time: apply pose
    /// translation and rotation, detect a viewport resize, and — exactly
    /// when anything changed since the last frame (or an earlier change was
    /// still pending) — recompute the matrices and the per-pixel ray
    /// directions, atomically for readers of this structure. `was_dirty`
    /// reports that transition for the frame accumulator to consult.
    pub fn update(&mut self, input: &CameraInput, dt: i64)
        requires
            input.width <= 16384,
            input.height <= 16384,
        ensures
            final(self).was_dirty == update_dirty_s(*old(self), *input),
            final(self).dirty == false,
            final(self).pos == moved_pos_s(*old(self), *input, dt),
            final(self).forward == new_forward_s(*old(self), *input),
            final(self).up == old(self).up,
            final(self).fov == old(self).fov,
            final(self).near_clip == old(self).near_clip,
            final(self).far_clip == old(self).far_clip,
            final(self).sensitivity == old(self).sensitivity,
            final(self).speed == old(self).speed,
            final(self).fast_speed == old(self).fast_speed,
            final(self).last_mouse_x == input.mouse_x,
            final(self).last_mouse_y == input.mouse_y,
            final(self).last_width == input.width,
            final(self).last_height == input.height,
            final(self).was_dirty ==> {
                &&& final(self).ray_dirs@.len() == input.width * input.height
                &&& final(self).view == look_at_s(
                    final(self).pos, final(self).forward, old(self).up)
                &&& final(self).inv_view == inv_view_s(
                    final(self).pos, final(self).forward, old(self).up)
                &&& final(self).proj == perspective_s(
                    old(self).fov, input.width, input.height,
                    old(self).near_clip, old(self).far_clip)
                &&& final(self).inv_proj == inv_perspective_s(
                    old(self).fov, input.width, input.height,
                    old(self).near_clip, old(self).far_clip)
                &&& forall|idx: int| 0 <= idx < input.width * input.height
                    ==> #[trigger] final(self).ray_dirs@[idx] == ray_dir_s(
                        final(self).inv_proj,
                        final(self).inv_view,
                        idx % (input.width as int),
                        idx / (input.width as int),
                        input.width as int,
                        input.height as int,
                    )
            },
            !final(self).was_dirty ==> {
                &&& final(self).ray_dirs == old(self).ray_dirs
                &&& final(self).view == old(self).view
                &&& final(self).inv_view == old(self).inv_view
                &&& final(self).proj == old(self).proj
                &&& final(self).inv_proj == old(self).inv_proj
            },
    {
        let ghost before = *self;
        let lmx = if self.last_mouse_x == MOUSE_SENTINEL && self.last_mouse_y == MOUSE_SENTINEL {
            input.mouse_x
        } else {
            self.last_mouse_x
        };
        let lmy = if self.last_mouse_x == MOUSE_SENTINEL && self.last_mouse_y == MOUSE_SENTINEL {
            input.mouse_y
        } else {
            self.last_mouse_y
        };
        let dx = fx_sub(input.mouse_x, lmx);
        let dy = fx_sub(input.mouse_y, lmy);
        proof {
            assert((dx as int, dy as int) == mouse_delta_s(before, *input));
        }
        self.last_mouse_x = input.mouse_x;
        self.last_mouse_y = input.mouse_y;

        let right = v_normalize(v_cross(self.forward, self.up));

        if input.width != self.last_width || input.height != self.last_height {
            self.dirty = true;
            self.last_width = input.width;
            self.last_height = input.height;
        }

        if input.rotate_held {
            let speed = if input.fast_held {
                self.fast_speed
            } else {
                self.speed
            };
            let step = fx_mul(speed, dt);
            if input.key_w {
                self.pos = v_add(self.pos, v_scale(self.forward, step));
                self.dirty = true;
            }
            if input.key_s {
                self.pos = v_sub(self.pos, v_scale(self.forward, step));
                self.dirty = true;
            }
            if input.key_a {
                self.pos = v_sub(self.pos, v_scale(right, step));
                self.dirty = true;
            }
            if input.key_d {
                self.pos = v_add(self.pos, v_scale(right, step));
                self.dirty = true;
            }
            if input.key_q {
                self.pos = v_sub(self.pos, v_scale(self.up, step));
                self.dirty = true;
            }
            if input.key_e {
                self.pos = v_add(self.pos, v_scale(self.up, step));
                self.dirty = true;
            }

            if dx != 0 || dy != 0 {
                let nyaw = fx_sub(0, fx_mul(dx, self.sensitivity));
                let npitch = fx_sub(0, fx_mul(dy, self.sensitivity));
                let f1 = rotate_axis(self.forward, self.up, cos_fx(nyaw), sin_fx(nyaw));
                let f2 = rotate_axis(f1, right, cos_fx(npitch), sin_fx(npitch));
                self.forward = v_normalize(f2);
                self.dirty = true;
            }
        }

        self.was_dirty = self.dirty;
        if self.dirty {
            self.dirty = false;
            self.recompute(input.width, input.height);
        }
    }
}

} // verus!
