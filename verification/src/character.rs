//! The controllable character: its state, position and velocity, the
//! per-tick update pipeline (animation advance, velocity derivation,
//! position integration), and the rendering geometry it reports.

use vstd::prelude::*;
use crate::controls::Controls;
use crate::motion::{
    jump_bucket,
    lemma_velocity_bounded,
    spec_depth_velocity,
    spec_gravity,
    spec_horizontal_velocity,
    spec_vertical_velocity,
};
use crate::state::{
    spec_control_facing,
    spec_control_phase,
    spec_jump,
    spec_run,
    spec_stop_run,
    spec_update_animation,
    spec_walk_y,
    CharacterState,
    CharacterStateEnum,
};
use crate::terrain::TerrainMap;

verus! {

/// The sprite-sheet offset a phase selects: each moving phase maps its
/// frame to a bucket of ten and each bucket to one sprite cell of the
/// sheet; Idle uses the cell at the origin.
pub open spec fn spec_display_offset(p: CharacterStateEnum) -> (int, int) {
    match p {
        CharacterStateEnum::Idle => (0, 0),
        CharacterStateEnum::Walking(i) => ((i / 10) * 80 + 240, 0),
        CharacterStateEnum::Running(i) => ((i / 10) * 80, 160),
        CharacterStateEnum::Jumping(i) => (jump_bucket(i) * 80, 640),
    }
}

/// Everything the renderer needs for one frame, as plain rectangles
/// (x, y, width, height): the source cell of the sprite sheet, the
/// destination on screen, the shadow's destination, and whether to flip
/// the sprite horizontally.
#[derive(Clone, Copy, Debug)]
pub struct RenderFrame {
    pub src: (i32, i32, u32, u32),
    pub dst: (i32, i32, u32, u32),
    pub shadow: (i32, i32, u32, u32),
    pub flip_horizontal: bool,
}

/// The gravity bucket of a Jumping frame, as executable code: frames group
/// by tens from frame 1, capped at the last bucket, with frame 0 defined
/// as bucket 0.
pub fn gravity_bucket(i: u8) -> (r: i32)
    ensures
        r as int == jump_bucket(i),
{
    if i == 0 {
        0
    } else {
        let b: i32 = ((i - 1) / 10) as i32;
        if b < 4 {
            b
        } else {
            4
        }
    }
}

/// The gravity table entry of a bucket, as executable code.
pub fn gravity(bucket: i32) -> (r: i32)
    ensures
        r as int == spec_gravity(bucket as int),
{
    if bucket == 0 {
        5
    } else if bucket == 1 {
        2
    } else if bucket == 2 {
        0
    } else if bucket == 3 {
        -2
    } else {
        -5
    }
}

/// The single controllable character: discrete state plus position and
/// velocity triples (x, y, z), where z is height above ground. The sprite
/// cell size is fixed at creation.
pub struct Character {
    pub height: u32,
    pub width: u32,
    pub state: CharacterState,
    pub pos: (i32, i32, i32),
    pub velocity: (i32, i32, i32),
}

impl Character {
    /// A character at `pos`, idle, facing right, at rest, with the fixed
    /// 79-by-79 sprite cell.
    pub fn new(pos: (i32, i32, i32)) -> (r: Character)
        ensures
            r.height == 79,
            r.width == 79,
            r.state.state == CharacterStateEnum::Idle,
            r.state.facing_left == false,
            r.pos == pos,
            r.velocity == (0i32, 0i32, 0i32),
    {
        Character {
            height: 79,
            width: 79,
            state: CharacterState { state: CharacterStateEnum::Idle, facing_left: false },
            pos,
            velocity: (0, 0, 0),
        }
    }

    /// Start running: from Idle or Walking the phase becomes Running(0),
    /// from Running or Jumping it is unchanged; the facing direction takes
    /// `left` unconditionally.
    pub fn run(&mut self, left: bool)
        ensures
            final(self).state.state == spec_run(old(self).state.state),
            final(self).state.facing_left == left,
            final(self).pos == old(self).pos,
            final(self).velocity == old(self).velocity,
            final(self).height == old(self).height,
            final(self).width == old(self).width,
    {
        match self.state.state {
            CharacterStateEnum::Idle => self.state.state = CharacterStateEnum::Running(0),
            CharacterStateEnum::Walking(_) => self.state.state = CharacterStateEnum::Running(0),
            _ => (),
        }
        self.state.facing_left = left;
    }

    /// Stop running: from Running the phase falls back to Idle; every
    /// other phase (and the facing direction) is unchanged.
    pub fn stop_run(&mut self)
        ensures
            final(self).state.state == spec_stop_run(old(self).state.state),
            final(self).state.facing_left == old(self).state.facing_left,
            final(self).pos == old(self).pos,
            final(self).velocity == old(self).velocity,
            final(self).height == old(self).height,
            final(self).width == old(self).width,
    {
        match self.state.state {
            CharacterStateEnum::Running(_) => self.state.state = CharacterStateEnum::Idle,
            _ => (),
        }
    }

    /// Start a jump: from any phase but Jumping the phase becomes
    /// Jumping(0); a jump already in flight is left alone, so the call is
    /// idempotent while airborne.
    pub fn jump(&mut self)
        ensures
            final(self).state.state == spec_jump(old(self).state.state),
            final(self).state.facing_left == old(self).state.facing_left,
            final(self).pos == old(self).pos,
            final(self).velocity == old(self).velocity,
            final(self).height == old(self).height,
            final(self).width == old(self).width,
    {
        match self.state.state {
            CharacterStateEnum::Jumping(_) => (),
            _ => self.state.state = CharacterStateEnum::Jumping(0),
        }
    }

    /// Start walking on the depth axis: only from Idle does the phase
    /// become Walking(0); every other phase is unchanged.
    pub fn walk_y(&mut self)
        ensures
            final(self).state.state == spec_walk_y(old(self).state.state),
            final(self).state.facing_left == old(self).state.facing_left,
            final(self).pos == old(self).pos,
            final(self).velocity == old(self).velocity,
            final(self).height == old(self).height,
            final(self).width == old(self).width,
    {
        match self.state.state {
            CharacterStateEnum::Idle => self.state.state = CharacterStateEnum::Walking(0),
            _ => (),
        }
    }

    /// One input-resolution step: the vertical axis (walk or return to
    /// Idle) first, then the horizontal axis (run or stop), which can
    /// supersede the phase the vertical axis chose; a held right or left
    /// key also sets the facing direction, right winning over left.
    pub fn control(&mut self, controls: &Controls)
        ensures
            final(self).state.state == spec_control_phase(old(self).state.state, *controls),
            final(self).state.facing_left == spec_control_facing(
                old(self).state.facing_left,
                *controls,
            ),
            final(self).pos == old(self).pos,
            final(self).velocity == old(self).velocity,
            final(self).height == old(self).height,
            final(self).width == old(self).width,
    {
        if controls.up || controls.down {
            self.walk_y();
        } else {
            match self.state.state {
                CharacterStateEnum::Walking(_) => self.state.state = CharacterStateEnum::Idle,
                _ => (),
            }
        }
        if controls.right {
            self.run(false);
        } else if controls.left {
            self.run(true);
        } else {
            self.stop_run();
        }
    }

    /// One animation advance: a jump past its first frame lands (back to
    /// Idle) exactly when the character's height is at or below the
    /// terrain's ground altitude under it, and climbs one frame otherwise;
    /// Walking and Running counters cycle; Idle touches nothing. Position,
    /// velocity and facing are never changed here.
    pub fn update_animation(&mut self, map: &TerrainMap)
        ensures
            final(self).state.state == spec_update_animation(
                old(self).state.state,
                old(self).pos.2 as int,
                map.ground(old(self).pos.0 as int, old(self).pos.1 as int),
            ),
            final(self).state.facing_left == old(self).state.facing_left,
            final(self).pos == old(self).pos,
            final(self).velocity == old(self).velocity,
            final(self).height == old(self).height,
            final(self).width == old(self).width,
    {
        match self.state.state {
            CharacterStateEnum::Jumping(i) => {
                if i > 0 {
                    let alt = map.altitude_or_ground(self.pos.0, self.pos.1);
                    if self.pos.2 <= alt {
                        self.state.state = CharacterStateEnum::Idle;
                    } else if i < 255 {
                        self.state.state = CharacterStateEnum::Jumping(i + 1);
                    }
                } else {
                    self.state.state = CharacterStateEnum::Jumping(1);
                }
            },
            CharacterStateEnum::Running(i) => {
                if i < 29 {
                    self.state.state = CharacterStateEnum::Running(i + 1);
                } else {
                    self.state.state = CharacterStateEnum::Running(0);
                }
            },
            CharacterStateEnum::Walking(i) => {
                if i < 39 {
                    self.state.state = CharacterStateEnum::Walking(i + 1);
                } else {
                    self.state.state = CharacterStateEnum::Walking(0);
                }
            },
            CharacterStateEnum::Idle => (),
        }
    }

    /// One velocity derivation from the current (already advanced) phase
    /// and the input snapshot: gravity on the height axis while Jumping,
    /// phase-dependent horizontal speed with conflicting presses
    /// cancelling, and the phase-independent depth axis last.
    pub fn update_velocity(&mut self, controls: &Controls)
        ensures
            final(self).velocity.0 as int == spec_horizontal_velocity(
                old(self).state.state,
                *controls,
            ),
            final(self).velocity.1 as int == spec_depth_velocity(*controls),
            final(self).velocity.2 as int == spec_vertical_velocity(old(self).state.state),
            final(self).state == old(self).state,
            final(self).pos == old(self).pos,
            final(self).height == old(self).height,
            final(self).width == old(self).width,
    {
        let vx: i32 = match self.state.state {
            CharacterStateEnum::Jumping(_) => {
                if controls.left && !controls.right {
                    -2
                } else if controls.right && !controls.left {
                    2
                } else {
                    0
                }
            },
            CharacterStateEnum::Running(_) => {
                if controls.left && !controls.right {
                    -5
                } else if controls.right && !controls.left {
                    5
                } else {
                    0
                }
            },
            _ => 0,
        };
        let vz: i32 = match self.state.state {
            CharacterStateEnum::Jumping(i) => gravity(gravity_bucket(i)),
            _ => 0,
        };
        let vy: i32 = if controls.up && !controls.down {
            -2
        } else if controls.down && !controls.up {
            2
        } else {
            0
        };
        self.velocity = (vx, vy, vz);
    }

    /// One full simulation tick, in the fixed intra-tick order: animation
    /// advance (which reads the terrain), then velocity derivation from
    /// the advanced phase, then position integration componentwise. The
    /// position must sit far enough from the numeric limits for one step
    /// of at most 5 per axis.
    pub fn update(&mut self, controls: &Controls, map: &TerrainMap)
        requires
            i32::MIN + 5 <= old(self).pos.0 <= i32::MAX - 5,
            i32::MIN + 2 <= old(self).pos.1 <= i32::MAX - 2,
            i32::MIN + 5 <= old(self).pos.2 <= i32::MAX - 5,
        ensures
            final(self).state.state == spec_update_animation(
                old(self).state.state,
                old(self).pos.2 as int,
                map.ground(old(self).pos.0 as int, old(self).pos.1 as int),
            ),
            final(self).state.facing_left == old(self).state.facing_left,
            final(self).velocity.0 as int == spec_horizontal_velocity(
                final(self).state.state,
                *controls,
            ),
            final(self).velocity.1 as int == spec_depth_velocity(*controls),
            final(self).velocity.2 as int == spec_vertical_velocity(final(self).state.state),
            final(self).pos.0 as int == old(self).pos.0 + final(self).velocity.0,
            final(self).pos.1 as int == old(self).pos.1 + final(self).velocity.1,
            final(self).pos.2 as int == old(self).pos.2 + final(self).velocity.2,
            final(self).height == old(self).height,
            final(self).width == old(self).width,
    {
        self.update_animation(map);
        self.update_velocity(controls);
        proof {
            lemma_velocity_bounded(self.state.state, *controls);
        }
        let (x, y, z) = self.pos;
        let (vx, vy, vz) = self.velocity;
        self.pos = (x + vx, y + vy, z + vz);
    }

    /// The sprite-sheet offset of a phase, as executable code: the bucket
    /// of the frame selects the cell, with a Jumping frame of 0 defined as
    /// bucket 0 rather than underflowing.
    pub fn display_offset(&self, state: &CharacterStateEnum) -> (r: (i32, i32))
        ensures
            r.0 as int == spec_display_offset(*state).0,
            r.1 as int == spec_display_offset(*state).1,
    {
        match *state {
            CharacterStateEnum::Idle => (0, 0),
            CharacterStateEnum::Walking(i) => ((i as i32) / 10 * 80 + 240, 0),
            CharacterStateEnum::Running(i) => ((i as i32) / 10 * 80, 160),
            CharacterStateEnum::Jumping(i) => (gravity_bucket(i) * 80, 640),
        }
    }

    /// The geometry of one rendered frame: the source cell from
    /// `display_offset`, the sprite drawn at (x, y - z) so height lifts it
    /// on screen, and a fixed 79-by-20 shadow anchored near the
    /// character's feet regardless of height.
    pub fn display(&self) -> (r: RenderFrame)
        requires
            self.height <= 0x7fffffff,
            i32::MIN + 10 <= self.pos.1 + self.height <= i32::MAX,
            i32::MIN <= self.pos.1 - self.pos.2 <= i32::MAX,
        ensures
            r.src.0 as int == spec_display_offset(self.state.state).0,
            r.src.1 as int == spec_display_offset(self.state.state).1,
            r.src.2 == self.height,
            r.src.3 == self.width,
            r.dst.0 == self.pos.0,
            r.dst.1 as int == self.pos.1 - self.pos.2,
            r.dst.2 == self.height,
            r.dst.3 == self.width,
            r.shadow.0 == self.pos.0,
            r.shadow.1 as int == self.pos.1 + self.height - 10,
            r.shadow.2 == 79,
            r.shadow.3 == 20,
            r.flip_horizontal == self.state.facing_left,
    {
        let (offset_x, offset_y) = self.display_offset(&self.state.state);
        let (x, y, z) = self.pos;
        RenderFrame {
            src: (offset_x, offset_y, self.height, self.width),
            dst: (x, y - z, self.height, self.width),
            shadow: (x, y + self.height as i32 - 10, 79, 20),
            flip_horizontal: self.state.facing_left,
        }
    }
}

} // verus!
