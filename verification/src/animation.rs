//! Frame timing for sprite animation: named clips, a per-sprite clock that
//! advances a frame index at a fixed rate and wraps, and the current frame's
//! source rectangle and destination size.

use vstd::prelude::*;
use vstd::arithmetic::div_mod::{lemma_add_mod_noop, lemma_mod_bound, lemma_small_mod};
use crate::geometry::PixelRect;

verus! {

/// Microseconds in one second; clock time is kept in whole microseconds.
pub const MICROS_PER_SECOND: u64 = 1_000_000;

/// A named animation sequence: one horizontal strip of the sprite sheet,
/// played at a fixed rate and looping unconditionally.
#[derive(Clone, Debug)]
pub struct AnimationClip {
    pub name: String,
    /// Which horizontal strip of the sheet the clip's frames occupy.
    pub row: u32,
    /// Number of frames in the strip; always positive.
    pub frame_count: u32,
    /// Playback rate in frames per second; always positive.
    pub fps: u32,
}

/// How long one frame of a clip is shown, in microseconds.
pub open spec fn spec_frame_duration_us(fps: u32) -> int
    recommends
        fps >= 1,
{
    MICROS_PER_SECOND as int / fps as int
}

/// A clip that can drive a clock over a sprite sheet with the given cell
/// size: positive frame count and rate, and frame rectangles whose pixel
/// coordinates stay representable.
pub open spec fn clip_fits(c: AnimationClip, cell_width: u32, cell_height: u32) -> bool {
    &&& c.frame_count >= 1
    &&& c.fps >= 1
    &&& c.frame_count * cell_width <= u32::MAX
    &&& c.row * cell_height + cell_height <= u32::MAX
}

/// The current frame of a clock: where to sample the sprite sheet and how
/// large to draw the result.
#[derive(Clone, Copy, PartialEq, Eq, Structural, Debug)]
pub struct FrameInfo {
    pub source_rect: PixelRect,
    pub dest_width: u32,
    pub dest_height: u32,
}

/// Per-sprite animation state: an ordered set of clips over one sprite
/// sheet, the selected clip, the current frame index, and the time
/// accumulated since the frame last changed.
#[derive(Clone, Debug)]
pub struct AnimationClock {
    /// Width of one sheet cell in pixels; also the frame's destination width.
    pub cell_width: u32,
    /// Height of one sheet cell in pixels; also the frame's destination height.
    pub cell_height: u32,
    pub clips: Vec<AnimationClip>,
    /// Index of the selected clip; always below `clips.len()`.
    pub current_clip: usize,
    /// Frame within the selected clip; always below its `frame_count`.
    pub frame_index: u32,
    /// Microseconds accumulated toward the next frame change.
    pub elapsed_us: u64,
}

impl AnimationClock {
    /// The selected clip.
    pub open spec fn selected(self) -> AnimationClip
        recommends
            self.current_clip < self.clips.len(),
    {
        self.clips@[self.current_clip as int]
    }

    /// Well-formedness: at least one clip, every clip usable with the cell
    /// size, selection and frame index in range.
    pub open spec fn wf(self) -> bool {
        &&& self.clips.len() >= 1
        &&& self.current_clip < self.clips.len()
        &&& forall|i: int|
            0 <= i < self.clips.len() ==> clip_fits(
                #[trigger] self.clips@[i],
                self.cell_width,
                self.cell_height,
            )
        &&& self.frame_index < self.selected().frame_count
    }

    /// The state one call of `advance` with `dt_us` produces: once the
    /// accumulated time reaches the frame duration, the accumulator resets
    /// (no remainder is carried) and the frame index wraps forward by one;
    /// otherwise only the accumulator grows.
    pub open spec fn spec_advance(self, dt_us: u64) -> AnimationClock
        recommends
            self.wf(),
    {
        if self.elapsed_us + dt_us >= spec_frame_duration_us(self.selected().fps) {
            AnimationClock {
                cell_width: self.cell_width,
                cell_height: self.cell_height,
                clips: self.clips,
                current_clip: self.current_clip,
                frame_index: (((self.frame_index + 1) as int % self.selected().frame_count as int)
                    as u32),
                elapsed_us: 0,
            }
        } else {
            AnimationClock {
                cell_width: self.cell_width,
                cell_height: self.cell_height,
                clips: self.clips,
                current_clip: self.current_clip,
                frame_index: self.frame_index,
                elapsed_us: (self.elapsed_us + dt_us) as u64,
            }
        }
    }

    /// Builds a clock over a sheet with the given cell size, selecting the
    /// first clip, at frame zero with no accumulated time.
    pub fn new(cell_width: u32, cell_height: u32, clips: Vec<AnimationClip>) -> (c: AnimationClock)
        requires
            clips.len() >= 1,
            forall|i: int|
                0 <= i < clips.len() ==> clip_fits(#[trigger] clips@[i], cell_width, cell_height),
        ensures
            c == (AnimationClock {
                cell_width,
                cell_height,
                clips,
                current_clip: 0,
                frame_index: 0,
                elapsed_us: 0,
            }),
            c.wf(),
    {
        AnimationClock {
            cell_width,
            cell_height,
            clips,
            current_clip: 0,
            frame_index: 0,
            elapsed_us: 0,
        }
    }

    /// Advances the clock by `dt_us` microseconds.
    pub fn advance(&mut self, dt_us: u64)
        requires
            old(self).wf(),
            old(self).elapsed_us + dt_us <= u64::MAX,
        ensures
            *final(self) == old(self).spec_advance(dt_us),
            final(self).wf(),
    {
        proof {
            assert(clip_fits(self.clips@[self.current_clip as int], self.cell_width,
                self.cell_height));
        }
        let fps: u32 = self.clips[self.current_clip].fps;
        let frames: u32 = self.clips[self.current_clip].frame_count;
        let duration: u64 = MICROS_PER_SECOND / fps as u64;
        if self.elapsed_us + dt_us >= duration {
            self.elapsed_us = 0;
            self.frame_index = (self.frame_index + 1) % frames;
        } else {
            self.elapsed_us = self.elapsed_us + dt_us;
        }
    }

    /// Selects the clip at `index`, resetting the frame index and the
    /// accumulated time to zero: a switch never carries partial progress
    /// over from the previous clip.
    pub fn set_clip(&mut self, index: usize)
        requires
            old(self).wf(),
            index < old(self).clips.len(),
        ensures
            final(self).cell_width == old(self).cell_width,
            final(self).cell_height == old(self).cell_height,
            final(self).clips == old(self).clips,
            final(self).current_clip == index,
            final(self).frame_index == 0,
            final(self).elapsed_us == 0,
            final(self).wf(),
    {
        self.current_clip = index;
        self.frame_index = 0;
        self.elapsed_us = 0;
    }

    /// The current frame: its source rectangle in the sprite sheet (frame
    /// index selects the column, the clip's row selects the strip) and its
    /// destination size, which is the constant cell size.
    pub fn current_frame(&self) -> (f: FrameInfo)
        requires
            self.wf(),
        ensures
            f.source_rect.x == self.frame_index * self.cell_width,
            f.source_rect.y == self.selected().row * self.cell_height,
            f.source_rect.w == self.cell_width,
            f.source_rect.h == self.cell_height,
            f.dest_width == self.cell_width,
            f.dest_height == self.cell_height,
    {
        proof {
            assert(clip_fits(self.clips@[self.current_clip as int], self.cell_width,
                self.cell_height));
            assert(self.frame_index as int * self.cell_width as int <= u32::MAX) by (nonlinear_arith)
                requires
                    self.frame_index < self.selected().frame_count,
                    self.selected().frame_count as int * self.cell_width as int <= u32::MAX,
                    self.cell_width >= 0,
                    self.frame_index >= 0,
            ;
        }
        let row: u32 = self.clips[self.current_clip].row;
        FrameInfo {
            source_rect: PixelRect {
                x: self.frame_index * self.cell_width,
                y: row * self.cell_height,
                w: self.cell_width,
                h: self.cell_height,
            },
            dest_width: self.cell_width,
            dest_height: self.cell_height,
        }
    }
}

/// The clock after `k` calls of `advance`, each with the same `dt_us`.
pub open spec fn spec_ticked(c: AnimationClock, dt_us: u64, k: nat) -> AnimationClock
    decreases k,
{
    if k == 0 {
        c
    } else {
        spec_ticked(c, dt_us, (k - 1) as nat).spec_advance(dt_us)
    }
}

/// Law: a clock started at frame zero and advanced `k` times by exactly one
/// frame duration sits at frame `k mod frame_count`, with no accumulated
/// time and its clips and selection unchanged.
pub proof fn lemma_exact_tick_wrap(c: AnimationClock, dt_us: u64, k: nat)
    requires
        c.wf(),
        c.frame_index == 0,
        c.elapsed_us == 0,
        dt_us == spec_frame_duration_us(c.selected().fps),
    ensures
        spec_ticked(c, dt_us, k).frame_index == k % (c.selected().frame_count as nat),
        spec_ticked(c, dt_us, k).elapsed_us == 0,
        spec_ticked(c, dt_us, k).clips == c.clips,
        spec_ticked(c, dt_us, k).current_clip == c.current_clip,
        spec_ticked(c, dt_us, k).cell_width == c.cell_width,
        spec_ticked(c, dt_us, k).cell_height == c.cell_height,
    decreases k,
{
    let fc = c.selected().frame_count as int;
    if k == 0 {
        lemma_small_mod(0, fc as nat);
    } else {
        lemma_exact_tick_wrap(c, dt_us, (k - 1) as nat);
        let prev = spec_ticked(c, dt_us, (k - 1) as nat);
        assert(prev.selected() == c.selected());
        lemma_mod_bound((k - 1) as int, fc);
        if fc == 1 {
            lemma_mod_bound(prev.frame_index + 1, fc);
            lemma_mod_bound(k as int, fc);
        } else {
            lemma_small_mod(1, fc as nat);
            lemma_add_mod_noop((k - 1) as int, 1, fc);
            lemma_mod_bound((k - 1) as int, fc);
            assert((prev.frame_index + 1) % fc == ((k - 1) % fc + 1int % fc) % fc);
            assert((prev.frame_index + 1) % fc == k as int % fc);
        }
    }
}

} // verus!
