//! The settings of a session: read once at startup, checked, and not changed
//! afterwards.

use vstd::prelude::*;

verus! {

/// A horizontal and a vertical component.
#[derive(Clone, Copy, Debug, PartialEq, Eq, Structural)]
pub struct Vector2 {
    pub x: i64,
    pub y: i64,
}

/// Why a set of values is no configuration.
#[derive(Clone, Copy, Debug, PartialEq, Eq, Structural)]
pub enum ConfigError {
    /// The grace window is a negative duration.
    NegativeGraceWindow,
    /// The horizontal speed is negative.
    NegativeHorizontalSpeed,
}

/// The settings that the controller reads. A value of this type has passed
/// the checks of [`Config::new`].
#[derive(Clone, Copy, Debug)]
pub struct Config {
    gravity: Vector2,
    horizontal_speed: i64,
    jump_impulse: i64,
    climb_speed: i64,
    grounded_grace_window: u64,
}

impl Config {
    #[verifier::type_invariant]
    spec fn checked(self) -> bool {
        self.horizontal_speed >= 0
    }

    /// What [`Config::new`] has checked: the horizontal speed is not
    /// negative. The grace window cannot be, by its type.
    pub open spec fn valid(&self) -> bool {
        self.horizontal_speed() >= 0
    }

    pub closed spec fn spec_gravity(&self) -> Vector2 {
        self.gravity
    }

    pub closed spec fn spec_horizontal_speed(&self) -> i64 {
        self.horizontal_speed
    }

    pub closed spec fn spec_jump_impulse(&self) -> i64 {
        self.jump_impulse
    }

    pub closed spec fn spec_climb_speed(&self) -> i64 {
        self.climb_speed
    }

    pub closed spec fn spec_grounded_grace_window(&self) -> u64 {
        self.grounded_grace_window
    }

    /// Checks the values and makes a configuration of them. A negative grace
    /// window is refused, then a negative horizontal speed; every other
    /// combination is accepted as it is.
    pub fn new(
        gravity: Vector2,
        horizontal_speed: i64,
        jump_impulse: i64,
        climb_speed: i64,
        grounded_grace_window: i64,
    ) -> (made: Result<Config, ConfigError>)
        ensures
            grounded_grace_window < 0 ==> made == Err::<Config, ConfigError>(
                ConfigError::NegativeGraceWindow,
            ),
            grounded_grace_window >= 0 && horizontal_speed < 0 ==> made == Err::<
                Config,
                ConfigError,
            >(ConfigError::NegativeHorizontalSpeed),
            grounded_grace_window >= 0 && horizontal_speed >= 0 ==> made is Ok,
            made matches Ok(config) ==> {
                &&& config.valid()
                &&& config.gravity() == gravity
                &&& config.horizontal_speed() == horizontal_speed
                &&& config.jump_impulse() == jump_impulse
                &&& config.climb_speed() == climb_speed
                &&& config.grounded_grace_window() == grounded_grace_window
            },
    {
        if grounded_grace_window < 0 {
            Err(ConfigError::NegativeGraceWindow)
        } else if horizontal_speed < 0 {
            Err(ConfigError::NegativeHorizontalSpeed)
        } else {
            Ok(
                Config {
                    gravity,
                    horizontal_speed,
                    jump_impulse,
                    climb_speed,
                    grounded_grace_window: grounded_grace_window as u64,
                },
            )
        }
    }

    /// The acceleration of gravity, in thousandths of a unit per second
    /// squared. Downward is negative; only the vertical component acts on the
    /// player.
    #[verifier::when_used_as_spec(spec_gravity)]
    pub fn gravity(&self) -> (value: Vector2)
        ensures
            value == self.spec_gravity(),
    {
        self.gravity
    }

    /// The speed of walking, in thousandths of a unit per second.
    #[verifier::when_used_as_spec(spec_horizontal_speed)]
    pub fn horizontal_speed(&self) -> (value: i64)
        ensures
            value == self.spec_horizontal_speed(),
            value >= 0,
    {
        proof {
            use_type_invariant(self);
        }
        self.horizontal_speed
    }

    /// The vertical speed that a jump gives, in thousandths of a unit per
    /// second.
    #[verifier::when_used_as_spec(spec_jump_impulse)]
    pub fn jump_impulse(&self) -> (value: i64)
        ensures
            value == self.spec_jump_impulse(),
    {
        self.jump_impulse
    }

    /// The speed of climbing, in thousandths of a unit per second.
    #[verifier::when_used_as_spec(spec_climb_speed)]
    pub fn climb_speed(&self) -> (value: i64)
        ensures
            value == self.spec_climb_speed(),
    {
        self.climb_speed
    }

    /// For how long a jump stays possible after the ground was left, in
    /// nanoseconds.
    #[verifier::when_used_as_spec(spec_grounded_grace_window)]
    pub fn grounded_grace_window(&self) -> (value: u64)
        ensures
            value == self.spec_grounded_grace_window(),
    {
        self.grounded_grace_window
    }
}

} // verus!
