//! Velocity derivation: the gravity table for jumps, the frame-bucket
//! computation, and the per-axis velocity a phase and an input snapshot
//! determine each tick.

use vstd::prelude::*;
use crate::controls::Controls;
use crate::state::CharacterStateEnum;

verus! {

/// The five-entry jump deceleration table: upward motion decays to free
/// fall over five buckets of ten frames each.
pub open spec fn spec_gravity(bucket: int) -> int {
    if bucket == 0 {
        5
    } else if bucket == 1 {
        2
    } else if bucket == 2 {
        0
    } else if bucket == 3 {
        -2
    } else {
        -5
    }
}

/// The gravity bucket of a Jumping frame: frames are grouped by tens
/// starting from frame 1, capped at the last bucket. Frame 0 (a jump that
/// has not ticked yet) is defined as bucket 0 rather than letting the
/// `frame - 1` computation underflow.
pub open spec fn jump_bucket(i: u8) -> int {
    if i == 0 {
        0
    } else if (i - 1) / 10 < 4 {
        (i - 1) / 10
    } else {
        4
    }
}

/// Screen-plane horizontal velocity: airborne characters drift at 2,
/// running ones move at 5, in the direction exclusively held; conflicting
/// presses cancel; Idle and Walking do not move on this axis.
pub open spec fn spec_horizontal_velocity(p: CharacterStateEnum, c: Controls) -> int {
    match p {
        CharacterStateEnum::Jumping(_) => {
            if c.left && !c.right {
                -2
            } else if c.right && !c.left {
                2
            } else {
                0
            }
        },
        CharacterStateEnum::Running(_) => {
            if c.left && !c.right {
                -5
            } else if c.right && !c.left {
                5
            } else {
                0
            }
        },
        _ => 0,
    }
}

/// Depth-axis velocity, independent of the phase: 2 towards the top of the
/// screen if up is exclusively held, 2 towards the bottom if down is,
/// otherwise 0.
pub open spec fn spec_depth_velocity(c: Controls) -> int {
    if c.up && !c.down {
        -2
    } else if c.down && !c.up {
        2
    } else {
        0
    }
}

/// Height-axis velocity: the gravity table entry of the current jump
/// bucket while Jumping, 0 in every other phase.
pub open spec fn spec_vertical_velocity(p: CharacterStateEnum) -> int {
    match p {
        CharacterStateEnum::Jumping(i) => spec_gravity(jump_bucket(i)),
        _ => 0,
    }
}

/// Every component of a derived velocity lies within 5 of zero, which is
/// what position integration needs to stay clear of overflow.
pub proof fn lemma_velocity_bounded(p: CharacterStateEnum, c: Controls)
    ensures
        -5 <= spec_horizontal_velocity(p, c) <= 5,
        -2 <= spec_depth_velocity(c) <= 2,
        -5 <= spec_vertical_velocity(p) <= 5,
{
}

} // verus!
