use ascend::config::{Config, Vector2};
use ascend::player::{
    ignore_gravity_if_climbing, player_move, Buttons, Contacts, GravityScale, Input,
    LocomotionSnapshot, Mode, MovementIntent,
};

/// A sixtieth of a second, in nanoseconds.
const DT: u64 = 16_666_667;

/// A tenth of a second, in nanoseconds.
const WINDOW: u64 = 100_000_000;

fn config() -> Config {
    Config::new(Vector2 { x: 0, y: -980_000 }, 200_000, 500_000, 150_000, 100_000_000).unwrap()
}

fn idle() -> Input {
    Input {
        move_left: false,
        move_right: false,
        move_up: false,
        move_down: false,
        up_just_pressed: false,
        down_just_pressed: false,
        jump_just_pressed: false,
    }
}

fn jump() -> Input {
    Input { jump_just_pressed: true, ..idle() }
}

fn in_air() -> Contacts {
    Contacts { on_ground: false, in_climb_range: false, grounded_this_tick: false }
}

fn on_ground() -> Contacts {
    Contacts { on_ground: true, in_climb_range: false, grounded_this_tick: true }
}

fn on_ladder() -> Contacts {
    Contacts { on_ground: false, in_climb_range: true, grounded_this_tick: false }
}

fn snapshot(mode: Mode, vertical_velocity: i64, grounded_grace_timer: u64) -> LocomotionSnapshot {
    LocomotionSnapshot { vertical_velocity, grounded_grace_timer, mode }
}

fn airborne(vertical_velocity: i64, grounded_grace_timer: u64) -> LocomotionSnapshot {
    snapshot(Mode::Airborne, vertical_velocity, grounded_grace_timer)
}

fn step(previous: LocomotionSnapshot, contacts: Contacts, input: Input) -> LocomotionSnapshot {
    player_move(&config(), previous, contacts, input, DT).0
}

#[test]
fn spawn_is_airborne_at_rest() {
    let spawned = LocomotionSnapshot::spawn();
    assert_eq!(spawned, snapshot(Mode::Airborne, 0, 0));
    assert!(!spawned.can_jump());
}

#[test]
fn first_tick_resolves_the_mode_from_the_ground_sensor() {
    let spawned = LocomotionSnapshot::spawn();
    assert_eq!(step(spawned, on_ground(), idle()).mode, Mode::Grounded);
    assert_eq!(step(spawned, in_air(), idle()).mode, Mode::Airborne);
}

#[test]
fn sample_reports_an_edge_once() {
    let released =
        Buttons { left: false, right: false, up: false, down: false, jump: false };
    let pressed = Buttons { left: true, right: false, up: true, down: false, jump: true };
    let first = Input::sample(released, pressed);
    assert_eq!(
        first,
        Input {
            move_left: true,
            move_right: false,
            move_up: true,
            move_down: false,
            up_just_pressed: true,
            down_just_pressed: false,
            jump_just_pressed: true,
        }
    );
    let held = Input::sample(pressed, pressed);
    assert!(held.move_up && held.move_left);
    assert!(!held.up_just_pressed);
    assert!(!held.jump_just_pressed);
    let let_go = Input::sample(pressed, released);
    assert_eq!(let_go, idle());
}

#[test]
fn sample_reports_the_down_edge() {
    let released =
        Buttons { left: false, right: false, up: false, down: false, jump: false };
    let pressed = Buttons { left: false, right: true, up: false, down: true, jump: false };
    let input = Input::sample(released, pressed);
    assert!(input.down_just_pressed);
    assert!(input.move_down);
    assert!(input.move_right);
    assert!(!input.up_just_pressed);
    assert!(!input.jump_just_pressed);
}

#[test]
fn jump_is_available_on_ground_on_a_climb_and_in_grace() {
    let grounded = snapshot(Mode::Grounded, 0, 0);
    let climbing = snapshot(Mode::Climbing, 0, 0);
    assert!(grounded.can_jump());
    assert!(climbing.can_jump());
    assert!(airborne(0, 1).can_jump());
    assert!(!airborne(0, 0).can_jump());
}

#[test]
fn single_opportunity_jump() {
    // a tenth of a second of grace is left
    let start = airborne(-40_000, WINDOW);
    let once = start.consume_jump(&config());
    assert_eq!(once.vertical_velocity, 500_000);
    assert_eq!(once.grounded_grace_timer, 0);
    assert_eq!(once.mode, Mode::Airborne);
    // a second attempt in the same tick finds nothing to take
    assert!(!once.can_jump());
    let twice = once.consume_jump(&config());
    assert_eq!(twice, once);
    assert_eq!(twice.vertical_velocity, 500_000);
}

#[test]
fn second_jump_after_some_fall_changes_nothing() {
    let start = airborne(0, WINDOW);
    let jumped = step(start, in_air(), jump());
    assert_eq!(jumped.vertical_velocity, 500_000);
    let fallen = step(jumped, in_air(), idle());
    assert_eq!(fallen.vertical_velocity, 483_667);
    let again = step(jumped, in_air(), jump());
    assert_eq!(again, fallen);
}

#[test]
fn consume_jump_without_opportunity_changes_nothing() {
    let start = airborne(-40_000, 0);
    assert_eq!(start.consume_jump(&config()), start);
}

#[test]
fn consume_jump_ends_a_climb() {
    let start = snapshot(Mode::Climbing, 150_000, 0);
    let jumped = start.consume_jump(&config());
    assert_eq!(jumped, snapshot(Mode::Airborne, 500_000, 0));
}

#[test]
fn consume_jump_on_the_ground_stays_grounded() {
    let start = snapshot(Mode::Grounded, 0, 83_333_333);
    let jumped = start.consume_jump(&config());
    assert_eq!(jumped, snapshot(Mode::Grounded, 500_000, 0));
}

#[test]
fn coyote_boundary_jump_within_the_window_succeeds() {
    let mut state = airborne(0, WINDOW);
    for _ in 0..5 {
        state = step(state, in_air(), idle());
    }
    // five ticks, about 0.083 s, have passed
    assert_eq!(state.grounded_grace_timer, WINDOW - 5 * DT);
    assert_eq!(state.vertical_velocity, -5 * 16_333);
    let jumped = step(state, in_air(), jump());
    assert_eq!(jumped.vertical_velocity, 500_000);
    assert_eq!(jumped.grounded_grace_timer, 0);
    assert_eq!(jumped.mode, Mode::Airborne);
}

#[test]
fn coyote_boundary_jump_after_the_window_has_no_effect() {
    let mut state = airborne(0, WINDOW);
    for _ in 0..7 {
        state = step(state, in_air(), idle());
    }
    // seven ticks, about 0.117 s, have passed
    assert_eq!(state.grounded_grace_timer, 0);
    assert_eq!(state.vertical_velocity, -7 * 16_333);
    let pressed = step(state, in_air(), jump());
    let not_pressed = step(state, in_air(), idle());
    assert_eq!(pressed, not_pressed);
    assert_eq!(pressed.vertical_velocity, -8 * 16_333);
    assert_eq!(pressed.mode, Mode::Airborne);
}

#[test]
fn grace_timer_is_floored_at_zero() {
    let state = airborne(0, 10);
    let next = step(state, in_air(), idle());
    assert_eq!(next.grounded_grace_timer, 0);
    let exact = airborne(0, DT);
    assert_eq!(step(exact, in_air(), idle()).grounded_grace_timer, 0);
    let more = airborne(0, DT + 1);
    assert_eq!(step(more, in_air(), idle()).grounded_grace_timer, 1);
}

#[test]
fn ground_contact_renews_the_grace_timer() {
    let state = airborne(0, 0);
    let next = step(state, on_ground(), idle());
    assert_eq!(next.mode, Mode::Grounded);
    assert_eq!(next.grounded_grace_timer, WINDOW - DT);
    let again = step(next, on_ground(), idle());
    assert_eq!(again.grounded_grace_timer, WINDOW - DT);
}

#[test]
fn engine_contact_alone_allows_a_jump() {
    // the sensor has not yet seen the ground, the engine has
    let contacts = Contacts { on_ground: false, in_climb_range: false, grounded_this_tick: true };
    let state = airborne(-300_000, 0);
    let next = step(state, contacts, jump());
    assert_eq!(next.mode, Mode::Airborne);
    assert_eq!(next.vertical_velocity, 500_000);
    assert_eq!(next.grounded_grace_timer, 0);
}

#[test]
fn climbing_suspends_gravity() {
    let mut state = snapshot(Mode::Climbing, 0, 0);
    for _ in 0..120 {
        state = step(state, on_ladder(), idle());
        assert_eq!(state.mode, Mode::Climbing);
        assert_eq!(state.vertical_velocity, 0);
    }
}

#[test]
fn climbing_follows_up_and_down() {
    let start = snapshot(Mode::Climbing, 0, 0);
    let up = Input { move_up: true, ..idle() };
    let down = Input { move_down: true, ..idle() };
    let both = Input { move_up: true, move_down: true, ..idle() };
    assert_eq!(step(start, on_ladder(), up).vertical_velocity, 150_000);
    assert_eq!(step(start, on_ladder(), down).vertical_velocity, -150_000);
    assert_eq!(step(start, on_ladder(), both).vertical_velocity, 0);
    // the speed is set, not added up
    let twice = step(step(start, on_ladder(), up), on_ladder(), up);
    assert_eq!(twice.vertical_velocity, 150_000);
}

#[test]
fn climbing_begins_on_a_fresh_press_in_range() {
    let start = airborne(-50_000, 0);
    let pressed = Input { move_up: true, up_just_pressed: true, ..idle() };
    let next = step(start, on_ladder(), pressed);
    assert_eq!(next.mode, Mode::Climbing);
    assert_eq!(next.vertical_velocity, 150_000);
    let pressed_down = Input { move_down: true, down_just_pressed: true, ..idle() };
    let next = step(start, on_ladder(), pressed_down);
    assert_eq!(next.mode, Mode::Climbing);
    assert_eq!(next.vertical_velocity, -150_000);
}

#[test]
fn climbing_does_not_begin_on_a_held_button() {
    let start = airborne(-50_000, 0);
    let held = Input { move_up: true, ..idle() };
    let next = step(start, on_ladder(), held);
    assert_eq!(next.mode, Mode::Airborne);
    assert_eq!(next.vertical_velocity, -50_000 - 16_333);
}

#[test]
fn climbing_does_not_begin_out_of_range() {
    let start = airborne(-50_000, 0);
    let pressed = Input { move_up: true, up_just_pressed: true, ..idle() };
    assert_eq!(step(start, in_air(), pressed).mode, Mode::Airborne);
    assert_eq!(step(start, on_ground(), pressed).mode, Mode::Grounded);
}

#[test]
fn climbing_begins_from_the_ground_too() {
    let start = snapshot(Mode::Grounded, 0, 0);
    let contacts = Contacts { on_ground: true, in_climb_range: true, grounded_this_tick: true };
    let pressed = Input { move_up: true, up_just_pressed: true, ..idle() };
    let next = step(start, contacts, pressed);
    assert_eq!(next.mode, Mode::Climbing);
    assert_eq!(next.vertical_velocity, 150_000);
}

#[test]
fn climbing_ends_when_the_range_is_left() {
    let start = snapshot(Mode::Climbing, 150_000, 0);
    let held = Input { move_up: true, ..idle() };
    let in_the_air = step(start, in_air(), held);
    assert_eq!(in_the_air.mode, Mode::Airborne);
    assert_eq!(in_the_air.vertical_velocity, 150_000 - 16_333);
    let landed = step(start, on_ground(), held);
    assert_eq!(landed.mode, Mode::Grounded);
    assert_eq!(landed.vertical_velocity, 0);
}

#[test]
fn jump_cancels_a_climb() {
    let start = snapshot(Mode::Climbing, 0, 0);
    let next = step(start, on_ladder(), Input { move_up: true, ..jump() });
    assert_eq!(next, snapshot(Mode::Airborne, 500_000, 0));
    // the button is still held, but the climb does not begin again
    let after = step(next, on_ladder(), Input { move_up: true, ..idle() });
    assert_eq!(after.mode, Mode::Airborne);
    assert_eq!(after.vertical_velocity, 483_667);
}

#[test]
fn landing_resets_the_speed_on_the_edge_only() {
    let falling = airborne(-700_000, 0);
    let landed = step(falling, on_ground(), idle());
    assert_eq!(landed.mode, Mode::Grounded);
    assert_eq!(landed.vertical_velocity, 0);
    // a speed that arises while grounded is not forced back to zero
    let jumped = step(landed, on_ground(), jump());
    assert_eq!(jumped.mode, Mode::Grounded);
    assert_eq!(jumped.vertical_velocity, 500_000);
    let still_touching = step(jumped, on_ground(), idle());
    assert_eq!(still_touching.mode, Mode::Grounded);
    assert_eq!(still_touching.vertical_velocity, 500_000);
    let lifted = step(still_touching, in_air(), idle());
    assert_eq!(lifted.mode, Mode::Airborne);
    assert_eq!(lifted.vertical_velocity, 483_667);
}

#[test]
fn landing_and_jumping_in_one_tick_jumps() {
    let falling = airborne(-700_000, 0);
    let next = step(falling, on_ground(), jump());
    assert_eq!(next.mode, Mode::Grounded);
    assert_eq!(next.vertical_velocity, 500_000);
    assert_eq!(next.grounded_grace_timer, 0);
}

#[test]
fn grounded_holds_the_speed_at_rest() {
    let mut state = snapshot(Mode::Grounded, 0, 0);
    for _ in 0..10 {
        state = step(state, on_ground(), idle());
        assert_eq!(state.vertical_velocity, 0);
        assert_eq!(state.mode, Mode::Grounded);
    }
}

#[test]
fn airborne_integrates_gravity() {
    let state = airborne(0, 0);
    let one = step(state, in_air(), idle());
    assert_eq!(one.vertical_velocity, -16_333);
    let two = step(one, in_air(), idle());
    assert_eq!(two.vertical_velocity, -32_666);
    let long = player_move(&config(), state, in_air(), idle(), 1_000_000_000).0;
    assert_eq!(long.vertical_velocity, -980_000);
}

#[test]
fn falling_speed_saturates() {
    let state = airborne(i64::MIN + 10, 0);
    let next = step(state, in_air(), idle());
    assert_eq!(next.vertical_velocity, i64::MIN);
    assert_eq!(step(next, in_air(), idle()).vertical_velocity, i64::MIN);
}

#[test]
fn horizontal_symmetry() {
    let state = airborne(0, 0);
    let left = Input { move_left: true, ..idle() };
    let right = Input { move_right: true, ..idle() };
    let both = Input { move_left: true, move_right: true, ..idle() };
    assert_eq!(player_move(&config(), state, in_air(), left, DT).1.x, -200_000);
    assert_eq!(player_move(&config(), state, in_air(), right, DT).1.x, 200_000);
    assert_eq!(player_move(&config(), state, in_air(), both, DT).1.x, 0);
    assert_eq!(player_move(&config(), state, in_air(), idle(), DT).1.x, 0);
}

#[test]
fn horizontal_intent_is_the_same_in_every_mode() {
    let left = Input { move_left: true, ..idle() };
    let grounded = snapshot(Mode::Grounded, 0, 0);
    let climbing = snapshot(Mode::Climbing, 0, 0);
    assert_eq!(player_move(&config(), grounded, on_ground(), left, DT).1.x, -200_000);
    assert_eq!(player_move(&config(), climbing, on_ladder(), left, DT).1.x, -200_000);
    assert_eq!(player_move(&config(), airborne(0, 0), in_air(), left, DT).1.x, -200_000);
    let jumping = Input { move_left: true, ..jump() };
    assert_eq!(player_move(&config(), airborne(0, 50), in_air(), jumping, DT).1.x, -200_000);
}

#[test]
fn intent_carries_the_new_vertical_speed() {
    let (next, intent) = player_move(&config(), airborne(0, 50_000_000), in_air(), jump(), DT);
    assert_eq!(intent, MovementIntent { x: 0, y: 500_000 });
    assert_eq!(next.vertical_velocity, 500_000);
    let (next, intent) = player_move(&config(), airborne(-10_000, 0), in_air(), idle(), DT);
    assert_eq!(intent, MovementIntent { x: 0, y: -26_333 });
    assert_eq!(next.vertical_velocity, -26_333);
}

#[test]
fn end_to_end_ledge_walk_off_and_coyote_jump() {
    let config =
        Config::new(Vector2 { x: 0, y: -980_000 }, 200_000, 500_000, 150_000, 100_000_000).unwrap();
    // grounded, the grace timer standing at the whole window
    let mut state = snapshot(Mode::Grounded, 0, WINDOW);
    // tick 0: the sensor reports that the ground is gone
    state = player_move(&config, state, in_air(), idle(), DT).0;
    assert_eq!(state.mode, Mode::Airborne);
    assert_eq!(state.grounded_grace_timer, WINDOW - DT);
    // ticks 1 to 4
    for _ in 1..5 {
        state = player_move(&config, state, in_air(), idle(), DT).0;
        assert_eq!(state.mode, Mode::Airborne);
    }
    assert_eq!(state.grounded_grace_timer, WINDOW - 5 * DT);
    // tick 5: the jump is pressed and taken
    let (jumped, intent) = player_move(&config, state, in_air(), jump(), DT);
    assert_eq!(jumped.vertical_velocity, 500_000);
    assert_eq!(jumped.grounded_grace_timer, 0);
    assert_eq!(jumped.mode, Mode::Airborne);
    assert_eq!(intent.y, 500_000);
    // tick 6: gravity acts on the jump
    let (after, intent) = player_move(&config, jumped, in_air(), idle(), DT);
    assert_eq!(after.vertical_velocity, 483_667);
    assert_eq!(intent.y, 483_667);
    let in_units = after.vertical_velocity as f64 / 1000.0;
    assert!((in_units - 483.67).abs() < 0.01);
}

#[test]
fn end_to_end_with_the_engine_one_tick_behind_the_sensor() {
    let config =
        Config::new(Vector2 { x: 0, y: -980_000 }, 200_000, 500_000, 150_000, 100_000_000).unwrap();
    let mut state = LocomotionSnapshot::spawn();
    for _ in 0..3 {
        state = player_move(&config, state, on_ground(), idle(), DT).0;
        assert_eq!(state.mode, Mode::Grounded);
    }
    // tick 0: the sensor has left the ground, the engine still reports contact
    let leaving = Contacts { on_ground: false, in_climb_range: false, grounded_this_tick: true };
    state = player_move(&config, state, leaving, idle(), DT).0;
    assert_eq!(state.mode, Mode::Airborne);
    assert_eq!(state.grounded_grace_timer, WINDOW - DT);
    for _ in 1..5 {
        state = player_move(&config, state, in_air(), idle(), DT).0;
    }
    let jumped = player_move(&config, state, in_air(), jump(), DT).0;
    assert_eq!(jumped.vertical_velocity, 500_000);
    assert_eq!(jumped.grounded_grace_timer, 0);
    let after = player_move(&config, jumped, in_air(), idle(), DT).0;
    assert_eq!(after.vertical_velocity, 483_667);
}

#[test]
fn gravity_scale_defaults_to_the_whole() {
    assert_eq!(GravityScale::default(), GravityScale(1_000));
}

#[test]
fn gravity_is_ignored_while_climbing() {
    let mut scale = GravityScale::default();
    ignore_gravity_if_climbing(Mode::Climbing, &mut scale);
    assert_eq!(scale, GravityScale(0));
    ignore_gravity_if_climbing(Mode::Airborne, &mut scale);
    assert_eq!(scale, GravityScale(1_000));
    ignore_gravity_if_climbing(Mode::Climbing, &mut scale);
    ignore_gravity_if_climbing(Mode::Grounded, &mut scale);
    assert_eq!(scale, GravityScale(1_000));
}

#[test]
fn jump_pressed_before_landing_is_not_remembered() {
    let falling = airborne(-300_000, 0);
    let pressed = step(falling, in_air(), jump());
    assert_eq!(pressed, step(falling, in_air(), idle()));
    let landed = step(pressed, on_ground(), idle());
    assert_eq!(landed.mode, Mode::Grounded);
    assert_eq!(landed.vertical_velocity, 0);
}

#[test]
fn held_jump_button_jumps_once() {
    let released = Buttons { left: false, right: false, up: false, down: false, jump: false };
    let held = Buttons { jump: true, ..released };
    let grounded = snapshot(Mode::Grounded, 0, 0);
    let first = step(grounded, on_ground(), Input::sample(released, held));
    assert_eq!(first.vertical_velocity, 500_000);
    let second = step(first, in_air(), Input::sample(held, held));
    assert_eq!(second.vertical_velocity, 483_667);
    assert_eq!(second.mode, Mode::Airborne);
}

#[test]
fn displacement_is_the_way_covered_in_a_tick() {
    let intent = MovementIntent { x: 200_000, y: -980_000 };
    assert_eq!(intent.displacement(DT), Vector2 { x: 3_333, y: -16_333 });
    assert_eq!(intent.displacement(1_000_000_000), Vector2 { x: 200_000, y: -980_000 });
    assert_eq!(intent.displacement(0), Vector2 { x: 0, y: 0 });
    let still = MovementIntent { x: 0, y: 0 };
    assert_eq!(still.displacement(u64::MAX), Vector2 { x: 0, y: 0 });
}

#[test]
fn displacement_saturates() {
    let fastest = MovementIntent { x: i64::MAX, y: i64::MIN };
    assert_eq!(fastest.displacement(u64::MAX), Vector2 { x: i64::MAX, y: i64::MIN });
    assert_eq!(
        fastest.displacement(1_000_000_000),
        Vector2 { x: i64::MAX, y: i64::MIN }
    );
    assert_eq!(
        fastest.displacement(500_000_000),
        Vector2 { x: i64::MAX / 2, y: i64::MIN / 2 }
    );
}
