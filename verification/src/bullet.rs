//! The player's shots.

use vstd::prelude::*;
use crate::collision::CollisionEvent;

verus! {

/// The shot and the collider that it met, as a collision event names them.
/// `first_is_shot` and `second_is_shot` say which of the two colliders of the
/// event are shots. Where both are, the first counts as the shot; where
/// neither is, the event does not concern a shot.
pub open spec fn shot_and_other(
    event: CollisionEvent,
    first_is_shot: bool,
    second_is_shot: bool,
) -> Option<(u64, u64)> {
    let (first, second) = event.pair();
    if first_is_shot {
        Some((first, second))
    } else if second_is_shot {
        Some((second, first))
    } else {
        None
    }
}

/// Finds the shot that a collision event is about, and what it met.
pub fn run(
    event: &CollisionEvent,
    first_is_shot: bool,
    second_is_shot: bool,
) -> (met: Option<(u64, u64)>)
    ensures
        met == shot_and_other(*event, first_is_shot, second_is_shot),
{
    let (first, second): (u64, u64) = match event {
        CollisionEvent::Started(first, second) => (*first, *second),
        CollisionEvent::Stopped(first, second) => (*first, *second),
    };
    if first_is_shot {
        Some((first, second))
    } else if second_is_shot {
        Some((second, first))
    } else {
        None
    }
}

} // verus!
