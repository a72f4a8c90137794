//! Characters: named actors with a fixed spawn position in world pixels,
//! each drawn as an animated sprite after the background.

use vstd::prelude::*;
use vstd::string::StringExecFns;
use crate::animation::{clip_fits, AnimationClip, AnimationClock};
use crate::geometry::DrawCommand;

verus! {

/// Side of one square cell of a character sprite sheet, in pixels.
pub const CHARACTER_CELL_SIZE: u32 = 16;

/// Frames in each directional clip of a character sheet.
pub const CHARACTER_CLIP_FRAMES: u32 = 4;

/// Playback rate of every character clip, in frames per second.
pub const CHARACTER_CLIP_FPS: u32 = 5;

/// A named actor: descriptive labels with no gameplay effect, a position in
/// world pixel space set once at construction, and one animation clock per
/// sprite sheet (idle and walking).
#[derive(Clone, Debug)]
pub struct Character {
    pub name: String,
    pub job: String,
    pub x: u32,
    pub y: u32,
    pub idle_sprite: AnimationClock,
    pub walk_sprite: AnimationClock,
}

/// The clip layout every character sheet shares: four directional strips
/// (down, left, up, right on rows 0 to 3) of four frames at five frames per
/// second, over square cells.
pub open spec fn standard_clips(c: AnimationClock) -> bool {
    &&& c.cell_width == CHARACTER_CELL_SIZE
    &&& c.cell_height == CHARACTER_CELL_SIZE
    &&& c.clips@.len() == 4
    &&& forall|i: int|
        0 <= i < 4 ==> (#[trigger] c.clips@[i]).row == i && c.clips@[i].frame_count
            == CHARACTER_CLIP_FRAMES && c.clips@[i].fps == CHARACTER_CLIP_FPS
}

/// A freshly built clock: first clip selected, frame zero, no accumulated
/// time.
pub open spec fn fresh_clock(c: AnimationClock) -> bool {
    &&& c.current_clip == 0
    &&& c.frame_index == 0
    &&& c.elapsed_us == 0
}

/// Builds the four directional clips of a character sheet, on rows 0 to 3
/// in the order down, left, up, right.
fn directional_clips(down: &str, left: &str, up: &str, right: &str) -> (v: Vec<AnimationClip>)
    ensures
        v@.len() == 4,
        forall|i: int|
            0 <= i < 4 ==> (#[trigger] v@[i]).row == i && v@[i].frame_count
                == CHARACTER_CLIP_FRAMES && v@[i].fps == CHARACTER_CLIP_FPS,
        v@[0].name@ == down@,
        v@[1].name@ == left@,
        v@[2].name@ == up@,
        v@[3].name@ == right@,
{
    let mut v: Vec<AnimationClip> = Vec::new();
    v.push(
        AnimationClip {
            name: String::from_str(down),
            row: 0,
            frame_count: CHARACTER_CLIP_FRAMES,
            fps: CHARACTER_CLIP_FPS,
        },
    );
    v.push(
        AnimationClip {
            name: String::from_str(left),
            row: 1,
            frame_count: CHARACTER_CLIP_FRAMES,
            fps: CHARACTER_CLIP_FPS,
        },
    );
    v.push(
        AnimationClip {
            name: String::from_str(up),
            row: 2,
            frame_count: CHARACTER_CLIP_FRAMES,
            fps: CHARACTER_CLIP_FPS,
        },
    );
    v.push(
        AnimationClip {
            name: String::from_str(right),
            row: 3,
            frame_count: CHARACTER_CLIP_FRAMES,
            fps: CHARACTER_CLIP_FPS,
        },
    );
    v
}

impl Character {
    /// Both clocks are usable.
    pub open spec fn wf(self) -> bool {
        &&& self.idle_sprite.wf()
        &&& self.walk_sprite.wf()
    }

    /// Builds a character at a spawn position with the standard idle and
    /// walking clip tables, both clocks fresh.
    pub fn new(name: &str, job: &str, x: u32, y: u32) -> (c: Character)
        ensures
            c.wf(),
            c.name@ == name@,
            c.job@ == job@,
            c.x == x,
            c.y == y,
            standard_clips(c.idle_sprite),
            standard_clips(c.walk_sprite),
            fresh_clock(c.idle_sprite),
            fresh_clock(c.walk_sprite),
            c.idle_sprite.clips@[0].name@ == "idle_down"@,
            c.idle_sprite.clips@[1].name@ == "idle_left"@,
            c.idle_sprite.clips@[2].name@ == "idle_up"@,
            c.idle_sprite.clips@[3].name@ == "idle_right"@,
            c.walk_sprite.clips@[0].name@ == "walk_down"@,
            c.walk_sprite.clips@[1].name@ == "walk_left"@,
            c.walk_sprite.clips@[2].name@ == "walk_up"@,
            c.walk_sprite.clips@[3].name@ == "walk_right"@,
    {
        let idle_clips = directional_clips("idle_down", "idle_left", "idle_up", "idle_right");
        let walk_clips = directional_clips("walk_down", "walk_left", "walk_up", "walk_right");
        proof {
            assert forall|i: int| 0 <= i < idle_clips@.len() implies clip_fits(
                #[trigger] idle_clips@[i],
                CHARACTER_CELL_SIZE,
                CHARACTER_CELL_SIZE,
            ) by {}
            assert forall|i: int| 0 <= i < walk_clips@.len() implies clip_fits(
                #[trigger] walk_clips@[i],
                CHARACTER_CELL_SIZE,
                CHARACTER_CELL_SIZE,
            ) by {}
        }
        Character {
            name: String::from_str(name),
            job: String::from_str(job),
            x,
            y,
            idle_sprite: AnimationClock::new(CHARACTER_CELL_SIZE, CHARACTER_CELL_SIZE, idle_clips),
            walk_sprite: AnimationClock::new(CHARACTER_CELL_SIZE, CHARACTER_CELL_SIZE, walk_clips),
        }
    }

    /// The draw command for the character's current idle frame at its
    /// position, unflipped; then the idle clock advances by `dt_us`
    /// microseconds, so the next call shows the animation progressed.
    pub fn draw(&mut self, dt_us: u64) -> (cmd: DrawCommand)
        requires
            old(self).wf(),
            old(self).idle_sprite.elapsed_us + dt_us <= u64::MAX,
        ensures
            final(self).wf(),
            cmd.dest_x == old(self).x,
            cmd.dest_y == old(self).y,
            cmd.dest_w == old(self).idle_sprite.cell_width,
            cmd.dest_h == old(self).idle_sprite.cell_height,
            cmd.source.x == old(self).idle_sprite.frame_index * old(self).idle_sprite.cell_width,
            cmd.source.y == old(self).idle_sprite.selected().row
                * old(self).idle_sprite.cell_height,
            cmd.source.w == old(self).idle_sprite.cell_width,
            cmd.source.h == old(self).idle_sprite.cell_height,
            cmd.flip_h == false,
            cmd.flip_v == false,
            final(self).idle_sprite == old(self).idle_sprite.spec_advance(dt_us),
            final(self).walk_sprite == old(self).walk_sprite,
            final(self).name == old(self).name,
            final(self).job == old(self).job,
            final(self).x == old(self).x,
            final(self).y == old(self).y,
    {
        let frame = self.idle_sprite.current_frame();
        let cmd = DrawCommand {
            dest_x: self.x,
            dest_y: self.y,
            dest_w: frame.dest_width,
            dest_h: frame.dest_height,
            source: frame.source_rect,
            flip_h: false,
            flip_v: false,
        };
        self.idle_sprite.advance(dt_us);
        cmd
    }
}

} // verus!
