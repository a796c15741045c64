//! The locomotion state machine of the player.
//!
//! Once per tick the machine reads what the sensors report, what the player
//! presses and the state it left behind, and gives the movement that the
//! physics engine is asked to carry out together with the state to keep.
//! A tick is evaluated in three steps:
//!
//! 1. arrival: the mode is resolved from the sensors, a landing stops the
//!    fall, and ground contact reported by the engine renews the grace timer;
//! 2. a jump, if one is pressed and available, replaces the vertical speed,
//!    spends the grace timer and ends a climb;
//! 3. otherwise the vertical speed is carried on according to the mode and
//!    the grace timer runs down.
//!
//! Every step is a total function: there is no input on which a tick fails.

use vstd::prelude::*;
use crate::config::{Config, Vector2};
use crate::units::{accrue, accrued, axis, directed, integrate, saturate, saturated, UNIT};

verus! {

/// How the player moves.
#[derive(Clone, Copy, Debug, PartialEq, Eq, Structural)]
pub enum Mode {
    /// Standing or walking on a surface.
    Grounded,
    /// Falling or rising freely.
    Airborne,
    /// Holding on to a climbable region; gravity does not act.
    Climbing,
}

/// What the machine keeps from one tick to the next.
#[derive(Clone, Copy, Debug, PartialEq, Eq, Structural)]
pub struct LocomotionSnapshot {
    /// Thousandths of a unit per second, upward positive.
    pub vertical_velocity: i64,
    /// Nanoseconds for which a jump is still possible after ground contact.
    pub grounded_grace_timer: u64,
    pub mode: Mode,
}

/// The movement that the physics engine is asked to carry out in a tick.
#[derive(Clone, Copy, Debug, PartialEq, Eq, Structural)]
pub struct MovementIntent {
    pub x: i64,
    pub y: i64,
}

impl MovementIntent {
    /// The way that a body moving as the intent asks covers in `dt`
    /// nanoseconds, in thousandths of a unit, each component rounded toward
    /// zero.
    pub open spec fn covered(self, dt: u64) -> Vector2 {
        Vector2 {
            x: saturated(accrued(self.x as int, dt as int)) as i64,
            y: saturated(accrued(self.y as int, dt as int)) as i64,
        }
    }

    /// The displacement to ask of a physics engine that moves bodies by
    /// distances: the way covered in `dt` nanoseconds.
    pub fn displacement(self, dt: u64) -> (way: Vector2)
        ensures
            way == self.covered(dt),
    {
        Vector2 { x: saturate(accrue(self.x, dt)), y: saturate(accrue(self.y, dt)) }
    }
}

/// Which buttons are held down. Each is true for as long as it is held.
#[derive(Clone, Copy, Debug, PartialEq, Eq, Structural)]
pub struct Buttons {
    pub left: bool,
    pub right: bool,
    pub up: bool,
    pub down: bool,
    pub jump: bool,
}

/// What the player asks for in one tick. The `move_` fields are true while a
/// button is held; the `just_pressed` fields are true only in the tick in
/// which the button went from released to pressed.
#[derive(Clone, Copy, Debug, PartialEq, Eq, Structural)]
pub struct Input {
    pub move_left: bool,
    pub move_right: bool,
    pub move_up: bool,
    pub move_down: bool,
    pub up_just_pressed: bool,
    pub down_just_pressed: bool,
    pub jump_just_pressed: bool,
}

/// What the sensors report in one tick.
#[derive(Clone, Copy, Debug, PartialEq, Eq, Structural)]
pub struct Contacts {
    /// A ground collider overlaps the ground sensor.
    pub on_ground: bool,
    /// A climbable collider overlaps the player.
    pub in_climb_range: bool,
    /// The physics engine found the player on the ground when it last moved
    /// it. This may differ from `on_ground` for a tick.
    pub grounded_this_tick: bool,
}

/// Everything that one tick reads besides the configuration and the state
/// left by the tick before.
#[derive(Clone, Copy, Debug, PartialEq, Eq, Structural)]
pub struct Tick {
    pub contacts: Contacts,
    pub input: Input,
    /// The time that has passed since the tick before, in nanoseconds.
    pub dt: u64,
}

impl Input {
    /// The input of a tick in which `current` is held and `previous` was held
    /// the tick before.
    pub open spec fn sampled(previous: Buttons, current: Buttons) -> Input {
        Input {
            move_left: current.left,
            move_right: current.right,
            move_up: current.up,
            move_down: current.down,
            up_just_pressed: current.up && !previous.up,
            down_just_pressed: current.down && !previous.down,
            jump_just_pressed: current.jump && !previous.jump,
        }
    }

    /// Derives the input of a tick from the buttons held now and the buttons
    /// held the tick before. A button counts as just pressed once, in the
    /// tick in which it is first seen held.
    pub fn sample(previous: Buttons, current: Buttons) -> (input: Input)
        ensures
            input == Input::sampled(previous, current),
    {
        Input {
            move_left: current.left,
            move_right: current.right,
            move_up: current.up,
            move_down: current.down,
            up_just_pressed: current.up && !previous.up,
            down_just_pressed: current.down && !previous.down,
            jump_just_pressed: current.jump && !previous.jump,
        }
    }
}

/// The mode of a tick. Climbing comes first: it begins when the player is in
/// climb range and freshly presses up or down, and lasts while the player
/// stays in range. Otherwise the ground sensor decides.
pub open spec fn resolved_mode(previous: Mode, contacts: Contacts, input: Input) -> Mode {
    if contacts.in_climb_range && (previous == Mode::Climbing || input.up_just_pressed
        || input.down_just_pressed) {
        Mode::Climbing
    } else if contacts.on_ground {
        Mode::Grounded
    } else {
        Mode::Airborne
    }
}

/// The horizontal part of the intent. It is the same in every mode.
pub open spec fn horizontal_intent(config: Config, input: Input) -> int {
    saturated(axis(input.move_right, input.move_left) * config.horizontal_speed())
}

impl LocomotionSnapshot {
    /// The state of a player that has just been put into the world.
    pub open spec fn spawned() -> LocomotionSnapshot {
        LocomotionSnapshot { vertical_velocity: 0, grounded_grace_timer: 0, mode: Mode::Airborne }
    }

    /// Whether a jump would be taken: on the ground, while climbing, and for
    /// as long as the grace timer has not run out.
    pub open spec fn jump_available(self) -> bool {
        self.mode == Mode::Grounded || self.mode == Mode::Climbing || self.grounded_grace_timer > 0
    }

    /// The first step of a tick.
    pub open spec fn after_arrival(
        self,
        config: Config,
        contacts: Contacts,
        input: Input,
    ) -> LocomotionSnapshot {
        let mode = resolved_mode(self.mode, contacts, input);
        LocomotionSnapshot {
            vertical_velocity: if mode == Mode::Grounded && self.mode != Mode::Grounded {
                0
            } else {
                self.vertical_velocity
            },
            grounded_grace_timer: if contacts.grounded_this_tick {
                config.grounded_grace_window()
            } else {
                self.grounded_grace_timer
            },
            mode,
        }
    }

    /// The state after an attempt to jump: changed when a jump is available,
    /// the same state when it is not.
    pub open spec fn after_jump(self, config: Config) -> LocomotionSnapshot {
        if self.jump_available() {
            LocomotionSnapshot {
                vertical_velocity: config.jump_impulse(),
                grounded_grace_timer: 0,
                mode: if self.mode == Mode::Climbing {
                    Mode::Airborne
                } else {
                    self.mode
                },
            }
        } else {
            self
        }
    }

    /// The vertical speed at the end of a tick without a jump.
    pub open spec fn carried_velocity(self, config: Config, input: Input, dt: u64) -> int {
        match self.mode {
            Mode::Grounded => self.vertical_velocity as int,
            Mode::Airborne => saturated(
                self.vertical_velocity + accrued(config.gravity().y as int, dt as int),
            ),
            Mode::Climbing => saturated(
                axis(input.move_up, input.move_down) * config.climb_speed(),
            ),
        }
    }

    /// The last step of a tick without a jump.
    pub open spec fn after_integration(
        self,
        config: Config,
        input: Input,
        dt: u64,
    ) -> LocomotionSnapshot {
        LocomotionSnapshot {
            vertical_velocity: self.carried_velocity(config, input, dt) as i64,
            grounded_grace_timer: if self.grounded_grace_timer > dt {
                (self.grounded_grace_timer - dt) as u64
            } else {
                0
            },
            mode: self.mode,
        }
    }

    /// The state after a whole tick.
    pub open spec fn after_tick(
        self,
        config: Config,
        contacts: Contacts,
        input: Input,
        dt: u64,
    ) -> LocomotionSnapshot {
        let arrived = self.after_arrival(config, contacts, input);
        if input.jump_just_pressed && arrived.jump_available() {
            arrived.after_jump(config)
        } else {
            arrived.after_integration(config, input, dt)
        }
    }

    /// The state after a run of ticks, taken in their order.
    pub open spec fn after_ticks(self, config: Config, ticks: Seq<Tick>) -> LocomotionSnapshot
        decreases ticks.len(),
    {
        if ticks.len() == 0 {
            self
        } else {
            let last = ticks.last();
            self.after_ticks(config, ticks.drop_last()).after_tick(
                config,
                last.contacts,
                last.input,
                last.dt,
            )
        }
    }

    /// The intent that goes with the state at the end of a tick.
    pub open spec fn intent(self, config: Config, input: Input) -> MovementIntent {
        MovementIntent { x: horizontal_intent(config, input) as i64, y: self.vertical_velocity }
    }

    /// The state of a player that has just been put into the world: at rest,
    /// without a jump to spend, and airborne until the first tick has looked
    /// at the ground sensor.
    pub fn spawn() -> (snapshot: LocomotionSnapshot)
        ensures
            snapshot == LocomotionSnapshot::spawned(),
    {
        LocomotionSnapshot { vertical_velocity: 0, grounded_grace_timer: 0, mode: Mode::Airborne }
    }

    /// Resolves the mode of the tick, stops the fall on the tick in which the
    /// ground is reached, and renews the grace timer when the engine reports
    /// ground contact.
    pub fn arrive(
        self,
        config: &Config,
        contacts: Contacts,
        input: Input,
    ) -> (arrived: LocomotionSnapshot)
        ensures
            arrived == self.after_arrival(*config, contacts, input),
    {
        let climbing: bool = contacts.in_climb_range && (self.mode == Mode::Climbing
            || input.up_just_pressed || input.down_just_pressed);
        let mode: Mode = if climbing {
            Mode::Climbing
        } else if contacts.on_ground {
            Mode::Grounded
        } else {
            Mode::Airborne
        };
        let landed: bool = mode == Mode::Grounded && self.mode != Mode::Grounded;
        LocomotionSnapshot {
            vertical_velocity: if landed {
                0
            } else {
                self.vertical_velocity
            },
            grounded_grace_timer: if contacts.grounded_this_tick {
                config.grounded_grace_window()
            } else {
                self.grounded_grace_timer
            },
            mode,
        }
    }

    /// Whether a jump would be taken in this state.
    pub fn can_jump(self) -> (available: bool)
        ensures
            available == self.jump_available(),
    {
        self.mode == Mode::Grounded || self.mode == Mode::Climbing || self.grounded_grace_timer > 0
    }

    /// Attempts a jump. When one is available the vertical speed becomes the
    /// jump impulse, the grace timer is spent and a climb ends; when none is
    /// available nothing changes.
    pub fn consume_jump(self, config: &Config) -> (jumped: LocomotionSnapshot)
        ensures
            jumped == self.after_jump(*config),
    {
        if self.can_jump() {
            LocomotionSnapshot {
                vertical_velocity: config.jump_impulse(),
                grounded_grace_timer: 0,
                mode: if self.mode == Mode::Climbing {
                    Mode::Airborne
                } else {
                    self.mode
                },
            }
        } else {
            self
        }
    }

    /// Carries the vertical speed through a tick without a jump and lets the
    /// grace timer run down: on the ground the speed is kept, in the air
    /// gravity acts on it, and on a climb it follows the up and down buttons.
    pub fn integrate(self, config: &Config, input: Input, dt: u64) -> (carried: LocomotionSnapshot)
        ensures
            carried == self.after_integration(*config, input, dt),
    {
        let vertical_velocity: i64 = match self.mode {
            Mode::Grounded => self.vertical_velocity,
            Mode::Airborne => integrate(self.vertical_velocity, config.gravity().y, dt),
            Mode::Climbing => directed(input.move_up, input.move_down, config.climb_speed()),
        };
        let grounded_grace_timer: u64 = if self.grounded_grace_timer > dt {
            self.grounded_grace_timer - dt
        } else {
            0
        };
        LocomotionSnapshot { vertical_velocity, grounded_grace_timer, mode: self.mode }
    }
}

/// By how much gravity acts on a body, in thousandths: 1000 for the whole of
/// it, 0 for none.
#[derive(Clone, Copy, Debug, PartialEq, Eq, Structural)]
pub struct GravityScale(pub i64);

impl Default for GravityScale {
    fn default() -> (scale: GravityScale)
        ensures
            scale.0 == UNIT,
    {
        GravityScale(UNIT)
    }
}

/// Sets the scale of gravity for the mode: none while climbing, the whole of
/// it otherwise.
pub fn ignore_gravity_if_climbing(mode: Mode, gravity_scale: &mut GravityScale)
    ensures
        mode == Mode::Climbing ==> final(gravity_scale).0 == 0,
        mode != Mode::Climbing ==> final(gravity_scale).0 == UNIT,
{
    if mode == Mode::Climbing {
        gravity_scale.0 = 0;
    } else {
        gravity_scale.0 = UNIT;
    }
}

/// Evaluates one tick: the state to keep and the movement to ask for.
pub fn player_move(
    config: &Config,
    previous: LocomotionSnapshot,
    contacts: Contacts,
    input: Input,
    dt: u64,
) -> (moved: (LocomotionSnapshot, MovementIntent))
    ensures
        moved.0 == previous.after_tick(*config, contacts, input, dt),
        moved.1 == moved.0.intent(*config, input),
{
    let arrived: LocomotionSnapshot = previous.arrive(config, contacts, input);
    let next: LocomotionSnapshot = if input.jump_just_pressed && arrived.can_jump() {
        arrived.consume_jump(config)
    } else {
        arrived.integrate(config, input, dt)
    };
    let intent = MovementIntent {
        x: directed(input.move_right, input.move_left, config.horizontal_speed()),
        y: next.vertical_velocity,
    };
    (next, intent)
}

/// A jump can be taken once per opportunity. Where a jump is available, the
/// attempt sets the vertical speed to the jump impulse and the grace timer to
/// zero. A second attempt right after the first changes nothing, whatever the
/// first did; and where only the grace timer made the first one possible, the
/// second finds no jump available.
pub proof fn law_jump_is_taken_once(config: Config, snapshot: LocomotionSnapshot)
    ensures
        snapshot.jump_available() ==> snapshot.after_jump(config).vertical_velocity
            == config.jump_impulse(),
        snapshot.jump_available() ==> snapshot.after_jump(config).grounded_grace_timer == 0,
        snapshot.after_jump(config).after_jump(config) == snapshot.after_jump(config),
        snapshot.mode != Mode::Grounded ==> !snapshot.after_jump(config).jump_available(),
{
}

/// A jump that is pressed when none is available is passed over: the tick
/// ends as it would have ended without the press.
pub proof fn law_unavailable_jump_is_ignored(
    config: Config,
    previous: LocomotionSnapshot,
    contacts: Contacts,
    input: Input,
    dt: u64,
)
    requires
        !previous.after_arrival(config, contacts, input).jump_available(),
    ensures
        previous.after_tick(config, contacts, input, dt) == previous.after_tick(
            config,
            contacts,
            Input { jump_just_pressed: false, ..input },
            dt,
        ),
{
}

/// A jump that is pressed when one is available is always taken: the
/// vertical speed is the jump impulse, the grace timer is spent and the
/// player does not climb.
pub proof fn law_available_jump_is_taken(
    config: Config,
    previous: LocomotionSnapshot,
    contacts: Contacts,
    input: Input,
    dt: u64,
)
    requires
        input.jump_just_pressed,
        previous.after_arrival(config, contacts, input).jump_available(),
    ensures
        previous.after_tick(config, contacts, input, dt).vertical_velocity == config.jump_impulse(),
        previous.after_tick(config, contacts, input, dt).grounded_grace_timer == 0,
        previous.after_tick(config, contacts, input, dt).mode != Mode::Climbing,
{
}

/// The mode follows the sensors. A tick ends climbing only in climb range and
/// never when a jump was pressed; it ends grounded only on the ground; and
/// out of climb range the ground sensor alone decides.
pub proof fn law_mode_follows_sensors(
    config: Config,
    previous: LocomotionSnapshot,
    contacts: Contacts,
    input: Input,
    dt: u64,
)
    ensures
        previous.after_tick(config, contacts, input, dt).mode == Mode::Climbing
            ==> contacts.in_climb_range && !input.jump_just_pressed,
        previous.after_tick(config, contacts, input, dt).mode == Mode::Grounded
            ==> contacts.on_ground,
        !contacts.in_climb_range ==> previous.after_tick(config, contacts, input, dt).mode == (
        if contacts.on_ground {
            Mode::Grounded
        } else {
            Mode::Airborne
        }),
{
}

/// Reaching the ground stops the fall once. In the tick in which the mode
/// becomes grounded the vertical speed is zero unless a jump is taken; in a
/// tick that begins and ends grounded the speed is left as it was.
pub proof fn law_landing_resets_once(
    config: Config,
    previous: LocomotionSnapshot,
    contacts: Contacts,
    input: Input,
    dt: u64,
)
    requires
        !input.jump_just_pressed,
        previous.after_tick(config, contacts, input, dt).mode == Mode::Grounded,
    ensures
        previous.mode != Mode::Grounded ==> previous.after_tick(
            config,
            contacts,
            input,
            dt,
        ).vertical_velocity == 0,
        previous.mode == Mode::Grounded ==> previous.after_tick(
            config,
            contacts,
            input,
            dt,
        ).vertical_velocity == previous.vertical_velocity,
{
}

/// The grace timer after a tick: zero when a jump was taken; otherwise the
/// window less the time passed when the engine reported ground contact, and
/// the old value less the time passed when it did not; never below zero.
pub proof fn law_grace_timer_runs_down(
    config: Config,
    previous: LocomotionSnapshot,
    contacts: Contacts,
    input: Input,
    dt: u64,
)
    ensures
        ({
            let renewed: int = if contacts.grounded_this_tick {
                config.grounded_grace_window() as int
            } else {
                previous.grounded_grace_timer as int
            };
            let taken = input.jump_just_pressed && previous.after_arrival(
                config,
                contacts,
                input,
            ).jump_available();
            previous.after_tick(config, contacts, input, dt).grounded_grace_timer == (if taken {
                0
            } else if renewed > dt {
                renewed - dt
            } else {
                0
            })
        }),
{
}

/// Climbing suspends gravity. A tick that ends climbing with neither up nor
/// down held ends with a vertical speed of exactly zero, whatever the speed
/// before, the gravity and the time passed.
pub proof fn law_climbing_suspends_gravity(
    config: Config,
    previous: LocomotionSnapshot,
    contacts: Contacts,
    input: Input,
    dt: u64,
)
    requires
        previous.after_tick(config, contacts, input, dt).mode == Mode::Climbing,
        !input.move_up,
        !input.move_down,
    ensures
        previous.after_tick(config, contacts, input, dt).vertical_velocity == 0,
{
    assert(axis(input.move_up, input.move_down) * config.climb_speed() == 0) by (nonlinear_arith)
        requires
            axis(input.move_up, input.move_down) == 0,
    ;
}

/// A climb lasts for as long as the player stays in climb range and does not
/// press jump.
pub proof fn law_climb_lasts_in_range(
    config: Config,
    previous: LocomotionSnapshot,
    contacts: Contacts,
    input: Input,
    dt: u64,
)
    requires
        previous.mode == Mode::Climbing,
        contacts.in_climb_range,
        !input.jump_just_pressed,
    ensures
        previous.after_tick(config, contacts, input, dt).mode == Mode::Climbing,
{
}

/// Climbing suspends gravity over any number of ticks: after each tick of a
/// run that ends climbing and in which neither up nor down is held, the
/// vertical speed is exactly zero.
pub proof fn law_climbing_suspends_gravity_over_ticks(
    config: Config,
    start: LocomotionSnapshot,
    ticks: Seq<Tick>,
)
    requires
        forall|k: int|
            1 <= k <= ticks.len() ==> (#[trigger] start.after_ticks(config, ticks.take(k))).mode
                == Mode::Climbing,
        forall|i: int|
            0 <= i < ticks.len() ==> !(#[trigger] ticks[i]).input.move_up
                && !ticks[i].input.move_down,
    ensures
        forall|k: int|
            1 <= k <= ticks.len() ==> (#[trigger] start.after_ticks(
                config,
                ticks.take(k),
            )).vertical_velocity == 0,
{
    assert forall|k: int| 1 <= k <= ticks.len() implies (#[trigger] start.after_ticks(
        config,
        ticks.take(k),
    )).vertical_velocity == 0 by {
        let run = ticks.take(k);
        let last = run.last();
        assert(last == ticks[k - 1]);
        let before = start.after_ticks(config, run.drop_last());
        assert(start.after_ticks(config, run) == before.after_tick(
            config,
            last.contacts,
            last.input,
            last.dt,
        ));
        law_climbing_suspends_gravity(config, before, last.contacts, last.input, last.dt);
    }
}

/// The time that a run of ticks takes, in nanoseconds.
pub open spec fn duration_of(ticks: Seq<Tick>) -> int
    decreases ticks.len(),
{
    if ticks.len() == 0 {
        0
    } else {
        duration_of(ticks.drop_last()) + ticks.last().dt
    }
}

/// The grace window is exact. Over a run of ticks without ground contact
/// reported by the engine and without a press of jump, the grace timer runs
/// down by the time that the run takes and stops at zero. A jump pressed in
/// the air in the tick after the run is therefore taken exactly when the run
/// took less time than the timer held at its start.
pub proof fn law_grace_window_is_exact(config: Config, start: LocomotionSnapshot, ticks: Seq<Tick>)
    requires
        forall|i: int|
            0 <= i < ticks.len() ==> !(#[trigger] ticks[i]).contacts.grounded_this_tick
                && !ticks[i].input.jump_just_pressed,
    ensures
        duration_of(ticks) >= 0,
        start.after_ticks(config, ticks).grounded_grace_timer == (if start.grounded_grace_timer
            > duration_of(ticks) {
            start.grounded_grace_timer - duration_of(ticks)
        } else {
            0
        }),
        start.after_ticks(config, ticks).mode == Mode::Airborne ==> (start.after_ticks(
            config,
            ticks,
        ).jump_available() <==> duration_of(ticks) < start.grounded_grace_timer),
    decreases ticks.len(),
{
    if ticks.len() > 0 {
        let earlier = ticks.drop_last();
        assert forall|i: int| 0 <= i < earlier.len() implies !(#[trigger] earlier[
            i
        ]).contacts.grounded_this_tick && !earlier[i].input.jump_just_pressed by {
            assert(earlier[i] == ticks[i]);
        }
        law_grace_window_is_exact(config, start, earlier);
        let last = ticks.last();
        assert(last == ticks[ticks.len() - 1]);
    }
}

/// The horizontal intent is symmetric and does not depend on the mode: with
/// only left held it is the horizontal speed negated, with only right held
/// the horizontal speed, and with both or neither held it is zero.
pub proof fn law_horizontal_symmetry(config: Config, snapshot: LocomotionSnapshot, input: Input)
    requires
        config.valid(),
    ensures
        input.move_left && !input.move_right ==> snapshot.intent(config, input).x
            == -config.horizontal_speed(),
        input.move_right && !input.move_left ==> snapshot.intent(config, input).x
            == config.horizontal_speed(),
        input.move_left == input.move_right ==> snapshot.intent(config, input).x == 0,
        snapshot.intent(config, input).y == snapshot.vertical_velocity,
{
    let a = axis(input.move_right, input.move_left);
    let speed = config.horizontal_speed() as int;
    assert(a == 1 ==> a * speed == speed) by (nonlinear_arith);
    assert(a == 0 ==> a * speed == 0) by (nonlinear_arith);
    assert(a == -1 ==> a * speed == -speed) by (nonlinear_arith);
}

} // verus!
