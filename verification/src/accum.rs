//! Progressive frame accumulation: a per-pixel history buffer and a frame
//! counter, blended as an exact running mean and reset whenever camera
//! motion or a mode toggle invalidates the accumulated light.

use vstd::prelude::*;
use vstd::arithmetic::div_mod::{lemma_div_is_ordered, lemma_div_multiples_vanish,
    lemma_div_pos_is_pos};
use crate::fx::SCALE;
use crate::vec3::Vec3;

verus! {

/// Per-pixel accumulated color (the sum of every sample blended since the
/// last reset — holding the sum makes the running mean exact, where the
/// incremental `history * (1 - w) + sample * w` form would re-round every
/// frame) and the number of frames blended in.
pub struct FrameAccumulator {
    pub history: Vec<Vec3>,
    pub frame_count: u64,
}

impl FrameAccumulator {
    /// Between frames the accumulator holds: at most `2^32` frames counted
    /// (so a channel sum, each sample being at most `SCALE`, fits an `i64`
    /// with room for one more frame), and every channel within the sum of
    /// that many unit-interval samples.
    pub open spec fn wf(self) -> bool {
        &&& self.frame_count <= 0x1_0000_0000
        &&& forall|i: int| 0 <= i < self.history@.len() ==> {
            &&& 0 <= (#[trigger] self.history@[i]).x <= self.frame_count * (SCALE as int)
            &&& 0 <= self.history@[i].y <= self.frame_count * (SCALE as int)
            &&& 0 <= self.history@[i].z <= self.frame_count * (SCALE as int)
        }
    }

    /// A fresh accumulator: zeroed history for `num_pixels` pixels, zero
    /// frames counted.
    pub fn new(num_pixels: usize) -> (r: FrameAccumulator)
        ensures
            r.wf(),
            r.history@.len() == num_pixels,
            r.frame_count == 0,
            forall|i: int| 0 <= i < num_pixels
                ==> #[trigger] r.history@[i] == (Vec3 { x: 0, y: 0, z: 0 }),
    {
        let mut history: Vec<Vec3> = Vec::new();
        let mut i: usize = 0;
        while i < num_pixels
            invariant
                i <= num_pixels,
                history@.len() == i,
                forall|j: int| 0 <= j < i
                    ==> #[trigger] history@[j] == (Vec3 { x: 0, y: 0, z: 0 }),
            decreases num_pixels - i,
        {
            history.push(Vec3 { x: 0, y: 0, z: 0 });
            i = i + 1;
        }
        FrameAccumulator { history, frame_count: 0 }
    }

    /// Zero the history and the frame counter: stale light from another
    /// camera pose, viewport or lighting mode must never blend into a new
    /// frame, so this runs before the next frame's samples are folded in.
    pub fn reset(&mut self, num_pixels: usize)
        ensures
            final(self).wf(),
            final(self).history@.len() == num_pixels,
            final(self).frame_count == 0,
            forall|i: int| 0 <= i < num_pixels
                ==> #[trigger] final(self).history@[i] == (Vec3 { x: 0, y: 0, z: 0 }),
    {
        let fresh = FrameAccumulator::new(num_pixels);
        self.history = fresh.history;
        self.frame_count = 0;
    }

    /// Fold one pixel's sample into the history: with averaging the sample
    /// joins the running sum, without it the sample replaces the slot
    /// outright.
    pub fn blend(&mut self, i: usize, sample: Vec3, averaging: bool)
        requires
            i < old(self).history@.len(),
            0 <= sample.x <= SCALE,
            0 <= sample.y <= SCALE,
            0 <= sample.z <= SCALE,
            0 <= old(self).history@[i as int].x <= 0x1_0000_0000 * (SCALE as int),
            0 <= old(self).history@[i as int].y <= 0x1_0000_0000 * (SCALE as int),
            0 <= old(self).history@[i as int].z <= 0x1_0000_0000 * (SCALE as int),
        ensures
            final(self).history@.len() == old(self).history@.len(),
            final(self).frame_count == old(self).frame_count,
            forall|j: int| 0 <= j < old(self).history@.len() && j != i
                ==> #[trigger] final(self).history@[j] == old(self).history@[j],
            averaging ==> {
                &&& final(self).history@[i as int].x == old(self).history@[i as int].x + sample.x
                &&& final(self).history@[i as int].y == old(self).history@[i as int].y + sample.y
                &&& final(self).history@[i as int].z == old(self).history@[i as int].z + sample.z
            },
            !averaging ==> final(self).history@[i as int] == sample,
    {
        if averaging {
            let h = self.history[i];
            self.history[i] = Vec3 { x: h.x + sample.x, y: h.y + sample.y, z: h.z + sample.z };
        } else {
            self.history[i] = sample;
        }
    }

    /// Count the frame just blended. The caller keeps the count below the
    /// overflow bound; at sixty frames a second that bound is decades away.
    pub fn advance(&mut self)
        requires
            old(self).frame_count < 0x1_0000_0000,
        ensures
            final(self).frame_count == old(self).frame_count + 1,
            final(self).history == old(self).history,
    {
        self.frame_count = self.frame_count + 1;
    }
}

/// Frame averaging converges: the display value is the floor of
/// `sum / frame_count`, so when every one of `k` blended samples carries the
/// same channel value `c` — the fixed-point stand-in for an unbiased sampler
/// of a static scene — the running mean is exactly `c` again, for every `k`.
pub proof fn lemma_running_mean_constant(c: int, k: int)
    requires
        0 < k,
        0 <= c,
    ensures
        (k * c) / k == c,
{
    lemma_div_multiples_vanish(c, k);
}

/// The floor-mean of `k` unit-interval channel sums stays in the unit
/// interval.
pub proof fn lemma_display_in_unit(s: int, k: int)
    requires
        0 < k,
        0 <= s <= k * (SCALE as int),
    ensures
        0 <= s / k <= SCALE as int,
{
    lemma_div_pos_is_pos(s, k);
    lemma_div_is_ordered(s, k * (SCALE as int), k);
    lemma_div_multiples_vanish(SCALE as int, k);
}

} // verus!
