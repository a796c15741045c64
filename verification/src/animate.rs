//! Which frame of the sprite sheet the player shows.
//!
//! The sheet holds one run of frames per animation. The animation that plays
//! follows from what the player does; its frames are stepped through round
//! and round each time the frame timer runs out.

use vstd::prelude::*;
use crate::config::Vector2;
use crate::player::Input;
use crate::timer::RepeatingTimer;
use crate::units::{axis, UNIT};

verus! {

/// The time for which one frame is shown, in nanoseconds.
pub const FRAME_DURATION: u64 = 100_000_000;

/// The timer that runs from frame to frame.
#[derive(Clone, Copy, Debug, PartialEq, Eq, Structural)]
pub struct AnimationTimer(pub RepeatingTimer);

impl AnimationTimer {
    /// A timer at the start of a frame.
    pub fn new() -> (timer: AnimationTimer)
        ensures
            timer.0 == RepeatingTimer::fresh(FRAME_DURATION),
    {
        AnimationTimer(RepeatingTimer::new(FRAME_DURATION))
    }
}

/// The first and the last frame of one animation on the sheet.
#[derive(Clone, Copy, Debug, Default, PartialEq, Eq, Structural)]
pub struct AnimationIndices {
    pub first: usize,
    pub last: usize,
}

/// The frames of each of the player's animations.
#[derive(Clone, Copy, Debug, Default, PartialEq, Eq, Structural)]
pub struct PlayerAnimateIndices {
    pub run: AnimationIndices,
    pub walk: AnimationIndices,
    pub jump: AnimationIndices,
    pub die: AnimationIndices,
    pub idle: AnimationIndices,
}

/// What the player is doing, with the direction in which it does so. The
/// horizontal component of the direction is negative toward the left.
#[derive(Clone, Copy, Debug, PartialEq, Eq, Structural)]
pub enum PlayerAnimateEvent {
    Run(Vector2),
    Walk(Vector2),
    Jump(Vector2),
    Die(Vector2),
    Idle(Vector2),
}

/// The frame and the mirroring of the player's sprite.
#[derive(Clone, Copy, Debug, PartialEq, Eq, Structural)]
pub struct SpriteFrame {
    /// The frame of the sheet that is shown.
    pub index: usize,
    /// Whether the sprite is mirrored, so that it faces left.
    pub flip_x: bool,
}

impl AnimationIndices {
    /// The frame that follows `current`: the next one of the run, the first
    /// one after the last, and the first one when `current` is no frame of
    /// the run.
    pub open spec fn following(self, current: usize) -> usize {
        if self.first <= current && current < self.last {
            (current + 1) as usize
        } else {
            self.first
        }
    }

    /// The frame that follows `current` in this animation.
    pub fn advance(&self, current: usize) -> (next: usize)
        ensures
            next == self.following(current),
    {
        if self.first <= current && current <= self.last {
            if current == self.last {
                self.first
            } else {
                current + 1
            }
        } else {
            self.first
        }
    }
}

impl PlayerAnimateIndices {
    /// The layout of the player's sheet: the run in frames 0 to 3, the walk
    /// in frames 4 to 7, and frame 4 for standing still.
    pub open spec fn sheet() -> PlayerAnimateIndices {
        PlayerAnimateIndices {
            run: AnimationIndices { first: 0, last: 3 },
            walk: AnimationIndices { first: 4, last: 7 },
            jump: AnimationIndices { first: 0, last: 0 },
            die: AnimationIndices { first: 0, last: 0 },
            idle: AnimationIndices { first: 4, last: 4 },
        }
    }

    /// The layout of the player's sheet.
    pub fn setup() -> (indices: PlayerAnimateIndices)
        ensures
            indices == PlayerAnimateIndices::sheet(),
    {
        PlayerAnimateIndices {
            run: AnimationIndices { first: 0, last: 3 },
            walk: AnimationIndices { first: 4, last: 7 },
            jump: AnimationIndices { first: 0, last: 0 },
            die: AnimationIndices { first: 0, last: 0 },
            idle: AnimationIndices { first: 4, last: 4 },
        }
    }
}

impl PlayerAnimateEvent {
    /// What the input of a tick makes the player do: walk in the direction
    /// of the button held, or stand still when both or neither are held.
    pub open spec fn of_input(input: Input) -> PlayerAnimateEvent {
        let direction = Vector2 {
            x: (axis(input.move_right, input.move_left) * UNIT) as i64,
            y: 0,
        };
        if input.move_right != input.move_left {
            PlayerAnimateEvent::Walk(direction)
        } else {
            PlayerAnimateEvent::Idle(direction)
        }
    }

    /// What the input of a tick makes the player do.
    pub fn for_input(input: Input) -> (event: PlayerAnimateEvent)
        ensures
            event == PlayerAnimateEvent::of_input(input),
    {
        if input.move_right == input.move_left {
            PlayerAnimateEvent::Idle(Vector2 { x: 0, y: 0 })
        } else if input.move_right {
            PlayerAnimateEvent::Walk(Vector2 { x: UNIT, y: 0 })
        } else {
            PlayerAnimateEvent::Walk(Vector2 { x: -UNIT, y: 0 })
        }
    }
}

impl SpriteFrame {
    /// The sprite after the frame timer has run out while `event` is
    /// current. Running and walking step through their frames, and walking
    /// turns the sprite to face the way it walks; standing still shows the
    /// idle frame; jumping and dying leave the sprite as it is.
    pub open spec fn animated(
        self,
        indices: PlayerAnimateIndices,
        event: PlayerAnimateEvent,
    ) -> SpriteFrame {
        match event {
            PlayerAnimateEvent::Run(_) => SpriteFrame {
                index: indices.run.following(self.index),
                ..self
            },
            PlayerAnimateEvent::Walk(direction) => SpriteFrame {
                index: indices.walk.following(self.index),
                flip_x: direction.x < 0,
            },
            PlayerAnimateEvent::Jump(_) => self,
            PlayerAnimateEvent::Die(_) => self,
            PlayerAnimateEvent::Idle(_) => SpriteFrame { index: indices.idle.first, ..self },
        }
    }
}

/// Lets `delta` nanoseconds pass for the player's sprite while `event` is
/// current. The sprite changes when the frame timer counts a finish with this
/// tick, and else stays as it is.
pub fn player_animate(
    indices: &PlayerAnimateIndices,
    timer: &mut AnimationTimer,
    delta: u64,
    event: &PlayerAnimateEvent,
    sprite: SpriteFrame,
) -> (next: SpriteFrame)
    ensures
        final(timer).0 == old(timer).0.after_tick(delta),
        next == (if final(timer).0.times_finished_this_tick > 0 {
            sprite.animated(*indices, *event)
        } else {
            sprite
        }),
{
    timer.0.tick(delta);
    if !timer.0.just_finished() {
        return sprite;
    }
    match event {
        PlayerAnimateEvent::Run(_) => SpriteFrame {
            index: indices.run.advance(sprite.index),
            flip_x: sprite.flip_x,
        },
        PlayerAnimateEvent::Walk(direction) => SpriteFrame {
            index: indices.walk.advance(sprite.index),
            flip_x: direction.x < 0,
        },
        PlayerAnimateEvent::Jump(_) => sprite,
        PlayerAnimateEvent::Die(_) => sprite,
        PlayerAnimateEvent::Idle(_) => SpriteFrame {
            index: indices.idle.first,
            flip_x: sprite.flip_x,
        },
    }
}

} // verus!
