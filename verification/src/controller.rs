//! One player's controller: the configuration, the sensor record and the
//! state of the locomotion machine, advanced together once per tick.
//!
//! The order inside a tick is fixed. First the whole event queue of the tick
//! is taken into the sensor record and stale colliders are dropped from it;
//! then the machine is evaluated exactly once on the record as it then
//! stands; then the intent is handed back for the physics engine.

use vstd::prelude::*;
use crate::collision::{Category, CategoryTags, CollisionAggregator, CollisionEvent, Overlaps};
use crate::config::Config;
use crate::player::{player_move, Contacts, Input, LocomotionSnapshot, Mode, MovementIntent};

verus! {

/// What a controller holds.
pub struct ControllerState {
    pub config: Config,
    pub sensor: u64,
    pub overlaps: Overlaps,
    pub snapshot: LocomotionSnapshot,
}

impl ControllerState {
    /// What the sensors report once the overlaps of a tick are known.
    pub open spec fn contacts(self, grounded_this_tick: bool) -> Contacts {
        Contacts {
            on_ground: self.overlaps.on_ground(),
            in_climb_range: self.overlaps.in_climb_range(),
            grounded_this_tick,
        }
    }

    /// The overlaps after the event queue of a tick: every event taken in, in
    /// order, then the stale colliders dropped.
    pub open spec fn updated_overlaps(
        self,
        events: Seq<CollisionEvent>,
        tags: Map<u64, Category>,
    ) -> Overlaps {
        self.overlaps.drain(events, self.sensor, tags).purge(tags)
    }

    /// The controller after a tick.
    pub open spec fn after_tick(
        self,
        events: Seq<CollisionEvent>,
        tags: Map<u64, Category>,
        input: Input,
        grounded_this_tick: bool,
        dt: u64,
    ) -> ControllerState {
        let sensed = ControllerState { overlaps: self.updated_overlaps(events, tags), ..self };
        ControllerState {
            snapshot: self.snapshot.after_tick(
                self.config,
                sensed.contacts(grounded_this_tick),
                input,
                dt,
            ),
            ..sensed
        }
    }
}

/// The controller of one player. There is one per player; it is made when the
/// player enters the world and dropped when the player leaves it.
pub struct PlayerController {
    config: Config,
    sensors: CollisionAggregator,
    snapshot: LocomotionSnapshot,
}

impl View for PlayerController {
    type V = ControllerState;

    closed spec fn view(&self) -> ControllerState {
        ControllerState {
            config: self.config,
            sensor: self.sensors.sensor_id(),
            overlaps: self.sensors@,
            snapshot: self.snapshot,
        }
    }
}

impl PlayerController {
    /// A controller for the player whose sensor is `sensor`: nothing overlaps
    /// yet, and the machine is in the state of a player just spawned.
    pub fn new(config: Config, sensor: u64) -> (controller: PlayerController)
        ensures
            controller@.config == config,
            controller@.sensor == sensor,
            controller@.overlaps.ground == Set::<u64>::empty(),
            controller@.overlaps.climbable == Set::<u64>::empty(),
            controller@.snapshot == LocomotionSnapshot::spawned(),
    {
        PlayerController {
            config,
            sensors: CollisionAggregator::new(sensor),
            snapshot: LocomotionSnapshot::spawn(),
        }
    }

    /// Advances the controller by one tick. `events` is the whole event queue
    /// of the tick, `tags` the tags of the colliders that are alive,
    /// `grounded_this_tick` what the physics engine reported when it last
    /// moved the player, and `dt` the time passed in nanoseconds. The result
    /// is the movement to ask of the engine.
    pub fn tick(
        &mut self,
        events: &Vec<CollisionEvent>,
        tags: &CategoryTags,
        input: Input,
        grounded_this_tick: bool,
        dt: u64,
    ) -> (intent: MovementIntent)
        ensures
            final(self)@ == old(self)@.after_tick(events@, tags@, input, grounded_this_tick, dt),
            intent == final(self)@.snapshot.intent(old(self)@.config, input),
    {
        self.sensors.drain(events, tags);
        self.sensors.purge(tags);
        let contacts = Contacts {
            on_ground: self.sensors.is_on_ground(),
            in_climb_range: self.sensors.is_in_climb_range(),
            grounded_this_tick,
        };
        let (next, intent) = player_move(&self.config, self.snapshot, contacts, input, dt);
        self.snapshot = next;
        intent
    }

    /// The configuration that the controller was made with.
    pub fn config(&self) -> (config: &Config)
        ensures
            *config == self@.config,
    {
        &self.config
    }

    /// The sensor record.
    pub fn sensors(&self) -> (sensors: &CollisionAggregator)
        ensures
            sensors@ == self@.overlaps,
            sensors.sensor_id() == self@.sensor,
    {
        &self.sensors
    }

    /// The state that the last tick left.
    pub fn snapshot(&self) -> (snapshot: LocomotionSnapshot)
        ensures
            snapshot == self@.snapshot,
    {
        self.snapshot
    }

    /// The mode that the last tick left.
    pub fn mode(&self) -> (mode: Mode)
        ensures
            mode == self@.snapshot.mode,
    {
        self.snapshot.mode
    }
}

} // verus!
