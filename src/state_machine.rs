use vstd::prelude::*;

use crate::player::PlayerState;

verus! {

/// Horizontal speed, in micro-pixels per second, below which a body stands still.
pub const STILL_SPEED: i64 = 100_000;

/// Horizontal speed, in micro-pixels per second, above which a body walks.
pub const WALK_SPEED: i64 = 1_000_000;

/// Largest downward speed of a body, in micro-pixels per second.
pub const TERMINAL_SPEED: i64 = 220_000_000;

/// The clip of a body moving sideways at `velocity_x`, from the clip it
/// plays: off the ground it jumps; on the ground it stands when nearly still
/// (unless prone) and walks when clearly moving; else the clip stays.
pub open spec fn velocity_clip(grounded: bool, velocity_x: i64, state: PlayerState) -> PlayerState {
    if !grounded {
        PlayerState::Jumping
    } else if -STILL_SPEED < velocity_x < STILL_SPEED && state != PlayerState::Prone {
        PlayerState::Standing
    } else if velocity_x > WALK_SPEED || velocity_x < -WALK_SPEED {
        PlayerState::Walking
    } else {
        state
    }
}

/// The clip for a body's ground contact and horizontal velocity.
pub fn player_state_machine(grounded: bool, velocity_x: i64, state: PlayerState) -> (r:
    PlayerState)
    ensures
        r == velocity_clip(grounded, velocity_x, state),
{
    if !grounded {
        return PlayerState::Jumping;
    }
    if -STILL_SPEED < velocity_x && velocity_x < STILL_SPEED && state != PlayerState::Prone {
        return PlayerState::Standing;
    }
    if velocity_x > WALK_SPEED || velocity_x < -WALK_SPEED {
        return PlayerState::Walking;
    }
    state
}

/// A vertical velocity limited to the terminal falling speed.
pub fn player_gravity_machine(velocity_y: i64) -> (r: i64)
    ensures
        velocity_y <= -TERMINAL_SPEED ==> r == -TERMINAL_SPEED,
        velocity_y > -TERMINAL_SPEED ==> r == velocity_y,
{
    if velocity_y <= -TERMINAL_SPEED {
        -TERMINAL_SPEED
    } else {
        velocity_y
    }
}

} // verus!
