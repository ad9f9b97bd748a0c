//! The playable range of a video sample: its in and out points within its
//! frames. Decoding, textures and the frame rate (floating point) belong to
//! the application's video sample, which keeps one of these.

use vstd::prelude::*;

verus! {

/// Frame count of a sample and the in/out points of the part that plays.
#[derive(Debug, Clone, Copy, PartialEq, Eq, Structural)]
pub struct SampleRange {
    pub frame_count: u32,
    pub in_point: u32,
    pub out_point: u32,
}

/// The last frame of a sample (0 for an empty one).
pub open spec fn spec_last_frame(frame_count: u32) -> u32 {
    if frame_count > 0 { (frame_count - 1) as u32 } else { 0 }
}

pub open spec fn spec_min(a: u32, b: u32) -> u32 {
    if a < b { a } else { b }
}

pub open spec fn spec_max(a: u32, b: u32) -> u32 {
    if a < b { b } else { a }
}

/// The in/out points `set_range` gives: both points kept to the last frame,
/// the smaller one becoming the in-point.
pub open spec fn spec_set_range(frame_count: u32, in_point: u32, out_point: u32) -> (u32, u32) {
    let i = spec_min(in_point, spec_last_frame(frame_count));
    let o = spec_min(out_point, spec_last_frame(frame_count));
    (spec_min(i, o), spec_max(i, o))
}

/// The in/out points a preset restores on a freshly loaded sample: the
/// in-point kept to the last frame, the out-point to the frame count, and
/// an out-point not after the in-point replaced by the frame count.
pub open spec fn spec_preset_range(frame_count: u32, in_point: u32, out_point: u32) -> (u32, u32) {
    let i = spec_min(in_point, spec_last_frame(frame_count));
    let o = spec_min(out_point, frame_count);
    if o <= i { (i, frame_count) } else { (i, o) }
}

impl SampleRange {
    /// A freshly loaded sample of `frame_count` frames, playing from its
    /// first frame to its last.
    pub fn new(frame_count: u32) -> (r: Self)
        ensures
            r == (SampleRange { frame_count, in_point: 0, out_point: spec_last_frame(frame_count) }),
    {
        let last = if frame_count > 0 { frame_count - 1 } else { 0 };
        SampleRange { frame_count, in_point: 0, out_point: last }
    }

    /// Set the in/out points, each kept to the last frame, in either order.
    pub fn set_range(&mut self, in_point: u32, out_point: u32)
        ensures
            final(self).frame_count == old(self).frame_count,
            (final(self).in_point, final(self).out_point) == spec_set_range(
                old(self).frame_count,
                in_point,
                out_point,
            ),
    {
        let last = if self.frame_count > 0 { self.frame_count - 1 } else { 0 };
        self.in_point = if in_point < last { in_point } else { last };
        self.out_point = if out_point < last { out_point } else { last };
        if self.in_point > self.out_point {
            let t = self.in_point;
            self.in_point = self.out_point;
            self.out_point = t;
        }
    }

    /// Restore in/out points saved in a preset onto this sample.
    pub fn apply_preset_range(&mut self, in_point: u32, out_point: u32)
        ensures
            final(self).frame_count == old(self).frame_count,
            (final(self).in_point, final(self).out_point) == spec_preset_range(
                old(self).frame_count,
                in_point,
                out_point,
            ),
    {
        let last = if self.frame_count > 0 { self.frame_count - 1 } else { 0 };
        self.in_point = if in_point < last { in_point } else { last };
        self.out_point = if out_point < self.frame_count { out_point } else { self.frame_count };
        if self.out_point <= self.in_point {
            self.out_point = self.frame_count;
        }
    }

    /// The frame played for a requested frame: the request kept between the
    /// in and out points.
    pub fn clamp_frame(&self, frame: u32) -> (f: u32)
        requires
            self.in_point <= self.out_point,
        ensures
            f == spec_max(self.in_point, spec_min(frame, self.out_point)),
            self.in_point <= f <= self.out_point,
    {
        if frame < self.in_point {
            self.in_point
        } else if frame > self.out_point {
            self.out_point
        } else {
            frame
        }
    }

    /// Frames between the in and out points (0 when they are reversed).
    pub fn effective_frames(&self) -> (n: u32)
        ensures
            n == if self.in_point <= self.out_point { (self.out_point - self.in_point) as u32 } else { 0 },
    {
        self.out_point.saturating_sub(self.in_point)
    }
}

/// `set_range` does not depend on the order of its points, leaves the
/// in-point at or before the out-point, and keeps both within the frames of
/// a non-empty sample.
pub proof fn lemma_set_range_ordered(frame_count: u32, a: u32, b: u32)
    ensures
        spec_set_range(frame_count, a, b) == spec_set_range(frame_count, b, a),
        spec_set_range(frame_count, a, b).0 <= spec_set_range(frame_count, a, b).1,
        frame_count > 0 ==> spec_set_range(frame_count, a, b).1 < frame_count,
{
}

/// A preset range always plays forward: for a sample with frames, the
/// in-point is a frame of the sample and the out-point lies after it and no
/// later than the frame count.
pub proof fn lemma_preset_range_forward(frame_count: u32, in_point: u32, out_point: u32)
    requires
        frame_count > 0,
    ensures
        spec_preset_range(frame_count, in_point, out_point).0 < frame_count,
        spec_preset_range(frame_count, in_point, out_point).0 < spec_preset_range(
            frame_count,
            in_point,
            out_point,
        ).1,
        spec_preset_range(frame_count, in_point, out_point).1 <= frame_count,
{
}

} // verus!
