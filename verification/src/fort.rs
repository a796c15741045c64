//! The turrets at the sides of the arena, which shoot toward its middle.

use vstd::prelude::*;
use crate::config::Vector2;
use crate::timer::RepeatingTimer;
use crate::units::saturated;

verus! {

/// The time between two shots of a turret, in nanoseconds.
pub const SHOT_INTERVAL: u64 = 1_000_000_000;

/// A turret.
#[derive(Clone, Copy, Debug, PartialEq, Eq, Structural)]
pub struct Fort {
    /// The timer that runs from shot to shot.
    pub jump_bullet_timer: RepeatingTimer,
}

impl Fort {
    /// A turret that shoots for the first time after one interval.
    pub fn new() -> (fort: Fort)
        ensures
            fort.jump_bullet_timer == RepeatingTimer::fresh(SHOT_INTERVAL),
    {
        Fort { jump_bullet_timer: RepeatingTimer::new(SHOT_INTERVAL) }
    }
}

/// The settings of the turrets.
#[derive(Clone, Copy, Debug, Default, PartialEq, Eq, Structural)]
pub struct FortData {
    /// The speed of a shot, in thousandths of a unit per second.
    pub jump_bullet_velocity: i64,
}

impl FortData {
    /// The velocity of a shot from a turret that stands at the horizontal
    /// position `fort_x`: toward the right from the left half of the arena,
    /// toward the left from the middle and the right half.
    pub open spec fn shot_from(self, fort_x: i64) -> Vector2 {
        if fort_x < 0 {
            Vector2 { x: self.jump_bullet_velocity, y: 0 }
        } else {
            Vector2 { x: saturated(-self.jump_bullet_velocity) as i64, y: 0 }
        }
    }
}

/// Lets `delta` nanoseconds pass for the turret that stands at `fort_x`. It
/// shoots when its timer has reached the interval with this tick, with the
/// velocity given, and else does nothing.
pub fn fort_update(
    fort: &mut Fort,
    data: &FortData,
    fort_x: i64,
    delta: u64,
) -> (shot: Option<Vector2>)
    ensures
        final(fort).jump_bullet_timer == old(fort).jump_bullet_timer.after_tick(delta),
        shot == (if final(fort).jump_bullet_timer.finished {
            Some(data.shot_from(fort_x))
        } else {
            None
        }),
{
    fort.jump_bullet_timer.tick(delta);
    if !fort.jump_bullet_timer.finished() {
        None
    } else if fort_x < 0 {
        Some(Vector2 { x: data.jump_bullet_velocity, y: 0 })
    } else if data.jump_bullet_velocity == i64::MIN {
        Some(Vector2 { x: i64::MAX, y: 0 })
    } else {
        Some(Vector2 { x: -data.jump_bullet_velocity, y: 0 })
    }
}

} // verus!
