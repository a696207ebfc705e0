//! The parallel frame renderer: one color per pixel, every pixel shaded
//! concurrently against the frozen scene and camera, folded into the frame
//! accumulator behind a hard join, and the frame counted exactly once.

use vstd::prelude::*;
use rayon::iter::{IndexedParallelIterator, IntoParallelIterator, ParallelIterator};
use crate::accum::{lemma_display_in_unit, FrameAccumulator};
use crate::camera::Camera;
use crate::fx::SCALE;
use crate::scene::{Ray, World};
use crate::trace::{shade, unlit_pixel_s};
use crate::vec3::Vec3;

verus! {

/// Shade one pixel: fire the sampler with the camera position and that
/// pixel's precomputed world-space ray direction. In unlit mode the pixel is
/// a function of the scene and the ray alone.
pub fn shade_pixel(world: &World, camera: &Camera, i: usize) -> (c: Vec3)
    requires
        world.wf(),
        i < camera.ray_dirs@.len(),
    ensures
        0 <= c.x <= SCALE,
        0 <= c.y <= SCALE,
        0 <= c.z <= SCALE,
        world.unlit ==> c == unlit_pixel_s(
            *world,
            (Ray { origin: camera.pos, dir: camera.ray_dirs@[i as int] }),
        ),
        world.max_bounces == 0 ==> c == (Vec3 { x: 0, y: 0, z: 0 }),
{
    shade(world, camera.pos, camera.ray_dirs[i])
}

/// Relies on rayon's indexed parallel iterator over the pixel range:
/// `map(..).collect()` yields one entry per index in index order, each the
/// result of the verified `shade_pixel` on that index, and returns only once
/// every worker has finished, which is the frame's hard join. Every clause
/// below restates `shade_pixel`'s own contract per element: the channel
/// bounds, the zero-bounce black, and the deterministic unlit pixel value.
/// Workers share the scene and camera read-only; each one owns its
/// thread-local random generator.
#[verifier::external_body]
fn par_shade(world: &World, camera: &Camera) -> (out: Vec<Vec3>)
    requires
        world.wf(),
    ensures
        out@.len() == camera.ray_dirs@.len(),
        forall|i: int| 0 <= i < out@.len() ==> {
            &&& 0 <= (#[trigger] out@[i]).x <= SCALE
            &&& 0 <= out@[i].y <= SCALE
            &&& 0 <= out@[i].z <= SCALE
        },
        world.unlit ==> forall|i: int| 0 <= i < out@.len() ==> #[trigger] out@[i]
            == unlit_pixel_s(*world, (Ray { origin: camera.pos, dir: camera.ray_dirs@[i] })),
        world.max_bounces == 0 ==> forall|i: int| 0 <= i < out@.len()
            ==> #[trigger] out@[i] == (Vec3 { x: 0, y: 0, z: 0 }),
{
    (0..camera.ray_dirs.len()).into_par_iter().map(|i| shade_pixel(world, camera, i)).collect()
}

/// Render one displayed frame: if the camera reported a dirty transition the
/// accumulator is zeroed first — stale history from another pose or mode
/// never blends in — then every pixel is sampled concurrently, the samples
/// are folded into the history, the frame is counted, and the display
/// buffer is produced: with frame averaging the exact running mean
/// `history / frame_count` of every sample since the last reset, without it
/// this frame's samples directly. Every output channel lies in `[0, SCALE]`;
/// and wherever the display value is this frame's sample alone (averaging
/// off, or the first frame after a reset) an unlit image is pinned pixel by
/// pixel to the scene through `unlit_pixel_s`.
pub fn render_frame(world: &World, camera: &Camera, acc: &mut FrameAccumulator) -> (out: Vec<Vec3>)
    requires
        world.wf(),
        old(acc).wf(),
        old(acc).frame_count < 0x1_0000_0000,
        !camera.was_dirty ==> old(acc).history@.len() == camera.ray_dirs@.len(),
    ensures
        final(acc).wf(),
        out@.len() == camera.ray_dirs@.len(),
        final(acc).history@.len() == camera.ray_dirs@.len(),
        forall|i: int| 0 <= i < out@.len() ==> {
            &&& 0 <= (#[trigger] out@[i]).x <= SCALE
            &&& 0 <= out@[i].y <= SCALE
            &&& 0 <= out@[i].z <= SCALE
        },
        final(acc).frame_count == (if camera.was_dirty { 1int } else {
            old(acc).frame_count + 1
        }),
        world.frame_averaging ==> forall|i: int| 0 <= i < out@.len() ==> {
            &&& (#[trigger] out@[i]).x == final(acc).history@[i].x as int
                / final(acc).frame_count as int
            &&& out@[i].y == final(acc).history@[i].y as int / final(acc).frame_count as int
            &&& out@[i].z == final(acc).history@[i].z as int / final(acc).frame_count as int
        },
        !world.frame_averaging ==> forall|i: int| 0 <= i < out@.len()
            ==> #[trigger] final(acc).history@[i] == out@[i],
        camera.was_dirty && world.frame_averaging ==> forall|i: int| 0 <= i < out@.len()
            ==> #[trigger] final(acc).history@[i] == out@[i],
        world.frame_averaging && !camera.was_dirty ==> forall|i: int| 0 <= i < out@.len() ==> {
            &&& 0 <= (#[trigger] final(acc).history@[i]).x - old(acc).history@[i].x <= SCALE
            &&& 0 <= final(acc).history@[i].y - old(acc).history@[i].y <= SCALE
            &&& 0 <= final(acc).history@[i].z - old(acc).history@[i].z <= SCALE
        },
        world.unlit && (camera.was_dirty || !world.frame_averaging)
            ==> forall|i: int| 0 <= i < out@.len() ==> #[trigger] out@[i]
                == unlit_pixel_s(*world, (Ray { origin: camera.pos, dir: camera.ray_dirs@[i] })),
{
    let n = camera.ray_dirs.len();
    if camera.was_dirty {
        acc.reset(n);
    }
    let ghost start = *acc;
    let samples = par_shade(world, camera);
    let mut i: usize = 0;
    while i < n
        invariant
            world.wf(),
            start.wf(),
            i <= n,
            samples@.len() == n,
            start.history@.len() == n,
            acc.history@.len() == n,
            acc.frame_count == start.frame_count,
            start.frame_count < 0x1_0000_0000,
            forall|j: int| 0 <= j < samples@.len() ==> {
                &&& 0 <= (#[trigger] samples@[j]).x <= SCALE
                &&& 0 <= samples@[j].y <= SCALE
                &&& 0 <= samples@[j].z <= SCALE
            },
            forall|j: int| i <= j < n ==> #[trigger] acc.history@[j] == start.history@[j],
            world.frame_averaging ==> forall|j: int| 0 <= j < i ==> {
                &&& (#[trigger] acc.history@[j]).x == start.history@[j].x + samples@[j].x
                &&& acc.history@[j].y == start.history@[j].y + samples@[j].y
                &&& acc.history@[j].z == start.history@[j].z + samples@[j].z
            },
            !world.frame_averaging ==> forall|j: int| 0 <= j < i
                ==> #[trigger] acc.history@[j] == samples@[j],
        decreases n - i,
    {
        acc.blend(i, samples[i], world.frame_averaging);
        i = i + 1;
    }
    acc.advance();
    proof {
        assert forall|j: int| 0 <= j < n implies {
            &&& 0 <= (#[trigger] acc.history@[j]).x <= acc.frame_count * (SCALE as int)
            &&& 0 <= acc.history@[j].y <= acc.frame_count * (SCALE as int)
            &&& 0 <= acc.history@[j].z <= acc.frame_count * (SCALE as int)
        } by {
            assert(acc.frame_count * (SCALE as int)
                == start.frame_count * (SCALE as int) + SCALE as int);
        }
    }
    let fcount = acc.frame_count;
    let mut out: Vec<Vec3> = Vec::new();
    let mut k: usize = 0;
    while k < n
        invariant
            k <= n,
            n == samples@.len(),
            out@.len() == k,
            acc.history@.len() == n,
            acc.frame_count == fcount,
            1 <= fcount <= 0x1_0000_0000,
            acc.wf(),
            forall|j: int| 0 <= j < samples@.len() ==> {
                &&& 0 <= (#[trigger] samples@[j]).x <= SCALE
                &&& 0 <= samples@[j].y <= SCALE
                &&& 0 <= samples@[j].z <= SCALE
            },
            world.frame_averaging ==> forall|j: int| 0 <= j < k ==> {
                &&& (#[trigger] out@[j]).x == acc.history@[j].x as int / fcount as int
                &&& out@[j].y == acc.history@[j].y as int / fcount as int
                &&& out@[j].z == acc.history@[j].z as int / fcount as int
            },
            !world.frame_averaging ==> forall|j: int| 0 <= j < k
                ==> #[trigger] out@[j] == samples@[j],
            forall|j: int| 0 <= j < k ==> {
                &&& 0 <= (#[trigger] out@[j]).x <= SCALE
                &&& 0 <= out@[j].y <= SCALE
                &&& 0 <= out@[j].z <= SCALE
            },
        decreases n - k,
    {
        if world.frame_averaging {
            let h = acc.history[k];
            proof {
                lemma_display_in_unit(h.x as int, fcount as int);
                lemma_display_in_unit(h.y as int, fcount as int);
                lemma_display_in_unit(h.z as int, fcount as int);
            }
            out.push(Vec3 {
                x: ((h.x as u64) / fcount) as i64,
                y: ((h.y as u64) / fcount) as i64,
                z: ((h.z as u64) / fcount) as i64,
            });
        } else {
            out.push(samples[k]);
        }
        k = k + 1;
    }
    proof {
        if camera.was_dirty && world.frame_averaging {
            assert forall|j: int| 0 <= j < out@.len() implies #[trigger] acc.history@[j]
                == out@[j] by {
                crate::accum::lemma_running_mean_constant(acc.history@[j].x as int, 1int);
                crate::accum::lemma_running_mean_constant(acc.history@[j].y as int, 1int);
                crate::accum::lemma_running_mean_constant(acc.history@[j].z as int, 1int);
            }
        }
        if world.unlit && !world.frame_averaging {
            assert forall|j: int| 0 <= j < out@.len() implies #[trigger] out@[j]
                == unlit_pixel_s(*world, (Ray { origin: camera.pos, dir: camera.ray_dirs@[j] }))
            by {
                assert(out@[j] == samples@[j]);
            }
        }
        if world.unlit && camera.was_dirty && world.frame_averaging {
            assert forall|j: int| 0 <= j < out@.len() implies #[trigger] out@[j]
                == unlit_pixel_s(*world, (Ray { origin: camera.pos, dir: camera.ray_dirs@[j] }))
            by {
                assert(start.history@[j] == (Vec3 { x: 0, y: 0, z: 0 }));
                assert(acc.history@[j] =~= samples@[j]);
                assert(out@[j] == acc.history@[j]);
            }
        }
    }
    out
}

} // verus!
