//! Laws of the state machine and the motion integrator, proved once over
//! all inputs: frame ranges survive a tick, jumping is idempotent,
//! conflicting presses cancel, landing is exact, and Idle is inert.

use vstd::prelude::*;
use crate::controls::Controls;
use crate::motion::spec_horizontal_velocity;
use crate::state::{
    phase_wf,
    spec_control_phase,
    spec_jump,
    spec_update_animation,
    CharacterStateEnum,
};

verus! {

/// One `control` step followed by one animation advance never leaves a
/// Walking or Running frame outside its declared cycle range, whatever the
/// input snapshot, height and ground altitude.
pub proof fn lemma_tick_preserves_frame_range(
    p: CharacterStateEnum,
    c: Controls,
    z: int,
    alt: int,
)
    requires
        phase_wf(p),
    ensures
        phase_wf(spec_control_phase(p, c)),
        phase_wf(spec_update_animation(spec_control_phase(p, c), z, alt)),
{
}

/// `jump` is idempotent while already Jumping: a jump in flight is never
/// restarted.
pub proof fn lemma_jump_idempotent(p: CharacterStateEnum)
    requires
        p is Jumping,
    ensures
        spec_jump(p) == p,
{
}

/// Cancellation: holding left and right together yields horizontal
/// velocity 0 in every phase.
pub proof fn lemma_conflicting_presses_cancel(p: CharacterStateEnum, c: Controls)
    requires
        c.left,
        c.right,
    ensures
        spec_horizontal_velocity(p, c) == 0,
{
}

/// Landing: a Jumping character past its first frame whose height is at or
/// below the ground altitude under it returns to Idle on the next
/// animation advance; otherwise its Jumping frame strictly increments (up
/// to the counter's saturation point).
pub proof fn lemma_landing(i: u8, z: int, alt: int)
    requires
        i > 0,
    ensures
        z <= alt ==> spec_update_animation(CharacterStateEnum::Jumping(i), z, alt)
            == CharacterStateEnum::Idle,
        z > alt && i < 255 ==> spec_update_animation(CharacterStateEnum::Jumping(i), z, alt)
            == CharacterStateEnum::Jumping((i + 1) as u8),
{
}

/// Idle is inert under the animation advance: the phase (and with it any
/// frame counter) is left exactly as it was, whatever the height and the
/// ground altitude.
pub proof fn lemma_idle_animation_inert(z: int, alt: int)
    ensures
        spec_update_animation(CharacterStateEnum::Idle, z, alt) == CharacterStateEnum::Idle,
{
}

} // verus!
