//! The character's discrete animation/movement state machine: the phase
//! variants, their frame-counter ranges, and the pure transition functions
//! that the executable methods are specified against.

use vstd::prelude::*;
use crate::controls::Controls;

verus! {

/// The character's phase: exactly one variant is active at a time, and the
/// moving phases carry a frame counter through their animation cycle.
#[derive(Clone, Copy, PartialEq, Eq, Structural, Debug)]
pub enum CharacterStateEnum {
    Idle,
    Walking(u8),
    Running(u8),
    Jumping(u8),
}

/// The discrete state owned by the character: the phase plus the facing
/// direction, which only horizontal movement transitions flip.
#[derive(Clone, Copy, PartialEq, Eq, Structural, Debug)]
pub struct CharacterState {
    pub state: CharacterStateEnum,
    pub facing_left: bool,
}

/// Frame counters stay inside their cycle: Walking cycles over 0..40 and
/// Running over 0..30. Idle has no counter and a Jumping counter is
/// unbounded (it saturates at the top of `u8`, far past the last bucket
/// that still affects physics or animation).
pub open spec fn phase_wf(p: CharacterStateEnum) -> bool {
    match p {
        CharacterStateEnum::Idle => true,
        CharacterStateEnum::Walking(i) => i < 40,
        CharacterStateEnum::Running(i) => i < 30,
        CharacterStateEnum::Jumping(_) => true,
    }
}

/// Phase change of `run`: Idle and Walking start Running(0); Running and
/// Jumping keep their phase (`run` still updates the facing direction,
/// which it sets unconditionally).
pub open spec fn spec_run(p: CharacterStateEnum) -> CharacterStateEnum {
    match p {
        CharacterStateEnum::Idle => CharacterStateEnum::Running(0),
        CharacterStateEnum::Walking(_) => CharacterStateEnum::Running(0),
        _ => p,
    }
}

/// Phase change of `stop_run`: only Running falls back to Idle.
pub open spec fn spec_stop_run(p: CharacterStateEnum) -> CharacterStateEnum {
    match p {
        CharacterStateEnum::Running(_) => CharacterStateEnum::Idle,
        _ => p,
    }
}

/// Phase change of `jump`: any phase but Jumping starts Jumping(0); a jump
/// already in flight is not re-triggered.
pub open spec fn spec_jump(p: CharacterStateEnum) -> CharacterStateEnum {
    match p {
        CharacterStateEnum::Jumping(_) => p,
        _ => CharacterStateEnum::Jumping(0),
    }
}

/// Phase change of `walk_y`: only Idle starts Walking(0).
pub open spec fn spec_walk_y(p: CharacterStateEnum) -> CharacterStateEnum {
    match p {
        CharacterStateEnum::Idle => CharacterStateEnum::Walking(0),
        _ => p,
    }
}

/// The vertical input axis of `control`: a held up or down key walks an
/// idle character; with neither held a walking character returns to Idle.
pub open spec fn spec_vertical_axis(p: CharacterStateEnum, c: Controls) -> CharacterStateEnum {
    if c.up || c.down {
        spec_walk_y(p)
    } else if p is Walking {
        CharacterStateEnum::Idle
    } else {
        p
    }
}

/// The horizontal input axis of `control`: a held right or left key runs,
/// otherwise a running character stops. Evaluated after the vertical axis,
/// so it can supersede the phase the vertical axis chose.
pub open spec fn spec_horizontal_axis(p: CharacterStateEnum, c: Controls) -> CharacterStateEnum {
    if c.right || c.left {
        spec_run(p)
    } else {
        spec_stop_run(p)
    }
}

/// The phase after one `control` step: the vertical axis applied first,
/// then the horizontal axis on its result.
pub open spec fn spec_control_phase(p: CharacterStateEnum, c: Controls) -> CharacterStateEnum {
    spec_horizontal_axis(spec_vertical_axis(p, c), c)
}

/// The facing direction after one `control` step: `run` sets it
/// unconditionally (right wins over left), and it is untouched otherwise.
pub open spec fn spec_control_facing(facing_left: bool, c: Controls) -> bool {
    if c.right {
        false
    } else if c.left {
        true
    } else {
        facing_left
    }
}

/// The phase after one animation advance. `z` is the character's height
/// above ground and `alt` the terrain altitude under it: a jump past its
/// first frame lands (returns to Idle) exactly when `z <= alt`, and climbs
/// one frame otherwise (saturating at the top of `u8`). Walking and
/// Running counters cycle modulo their cycle length; Idle is untouched.
pub open spec fn spec_update_animation(
    p: CharacterStateEnum,
    z: int,
    alt: int,
) -> CharacterStateEnum {
    match p {
        CharacterStateEnum::Jumping(i) => {
            if i > 0 && z <= alt {
                CharacterStateEnum::Idle
            } else if i < 255 {
                CharacterStateEnum::Jumping((i + 1) as u8)
            } else {
                CharacterStateEnum::Jumping(255)
            }
        },
        CharacterStateEnum::Running(i) => {
            if i < 29 {
                CharacterStateEnum::Running((i + 1) as u8)
            } else {
                CharacterStateEnum::Running(0)
            }
        },
        CharacterStateEnum::Walking(i) => {
            if i < 39 {
                CharacterStateEnum::Walking((i + 1) as u8)
            } else {
                CharacterStateEnum::Walking(0)
            }
        },
        CharacterStateEnum::Idle => CharacterStateEnum::Idle,
    }
}

} // verus!
