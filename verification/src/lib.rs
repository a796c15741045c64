//! Player locomotion for a side-scrolling platformer, with the small rule sets
//! that surround it (item carousel, sprite frames, turret shots).
//!
//! Every quantity is an integer. Lengths, speeds and accelerations are counted
//! in thousandths of a world unit (per second, per second squared); durations
//! are counted in nanoseconds. Collider identifiers are plain `u64` values.
//!
//! The core is in three modules: [`collision`] keeps the sets of colliders
//! that overlap the player's sensor, [`player`] is the locomotion state
//! machine, and [`controller`] advances the two together, once per tick.
//! [`config`] holds the checked settings, [`overlap`] the set of collider
//! identifiers, [`timer`] the repeating timer and [`units`] the arithmetic.
//! [`roulette`], [`animate`], [`fort`] and [`bullet`] are the rule sets around
//! the player.

pub mod animate;
pub mod bullet;
pub mod collision;
pub mod config;
pub mod controller;
pub mod fort;
pub mod overlap;
pub mod player;
pub mod roulette;
pub mod timer;
pub mod units;
