//! Small vector utilities: the splat constructor and the random direction
//! sampler used for diffuse bounces.

use vstd::prelude::*;
use crate::fx::SCALE;
use crate::vec3::{dot_s, normalize_s, v_dot, v_normalize, Vec3};

verus! {

/// A vector with all three components set to the same fixed-point value.
pub fn vec3_from(x: i64) -> (r: Vec3)
    ensures
        r == (Vec3 { x: x, y: x, z: x }),
{
    Vec3 { x: x, y: x, z: x }
}

/// Relies on rand's `Rng::gen_range` on the thread-local generator: a value
/// uniformly distributed in `[low, high)`; it panics on an empty range, which
/// the precondition rules out. Nothing beyond the range can be promised of a
/// random draw, and two calls on equal arguments may differ.
#[verifier::external_body]
pub(crate) fn rand_fx_range(low: i64, high: i64) -> (r: i64)
    requires
        low < high,
    ensures
        low <= r < high,
{
    rand::Rng::gen_range(&mut rand::thread_rng(), low..high)
}

/// A random unit direction: a point is drawn from the cube `[-1, 1)^3` and
/// normalized. Draws that fall outside the unit ball (which would bias the
/// distribution toward the cube's corners) or too close to the origin (where
/// fixed-point normalization loses precision) are rejected; after a bounded
/// number of retries the positive z axis stands in, so the function is total.
/// Every outcome is the normalization of a vector of squared length between
/// one quarter and one — which keeps the result near unit length — or that
/// fallback axis.
pub fn vec3_rand_unit() -> (r: Vec3)
    ensures
        (exists|v: Vec3|
            16384 <= dot_s(v, v) <= SCALE && r == #[trigger] normalize_s(v))
            || r == (Vec3 { x: 0, y: 0, z: SCALE }),
{
    let mut tries: usize = 0;
    while tries < 16
        invariant
            tries <= 16,
        decreases 16 - tries,
    {
        let v = Vec3 {
            x: rand_fx_range(-SCALE, SCALE),
            y: rand_fx_range(-SCALE, SCALE),
            z: rand_fx_range(-SCALE, SCALE),
        };
        let d = v_dot(v, v);
        if 16384 <= d && d <= SCALE {
            let u = v_normalize(v);
            proof {
                assert(u == normalize_s(v));
            }
            return u;
        }
        tries = tries + 1;
    }
    Vec3 { x: 0, y: 0, z: SCALE }
}

} // verus!
