//! The decision core of a small predator-and-prey simulation.
//!
//! A handful of animals move in a bounded arena. Every tick each animal looks
//! for the nearest animal of a kind it reacts to, decides where it wants to go
//! and is then moved. This crate holds every decision of that cycle: what an
//! animal of each kind is born with, which sighting it reacts to, which wall
//! it must leave, and which heading it follows otherwise.
//!
//! All quantities are integers on one fixed scale: a length, a speed, a
//! sprite scale or an angle in radians is counted in thousandths
//! ([`role::UNIT`] of them make one). Whoever moves the animals measures on
//! that scale and carries out the [`steering::Maneuver`] that comes back.

pub mod arena;
pub mod role;
pub mod sensing;
pub mod steering;
pub mod veichle;
pub mod world;

pub use arena::{Arena, Zone};
pub use role::{Point, Stats, VeichleType, UNIT};
pub use sensing::Sighting;
pub use steering::{Heading, Maneuver};
pub use veichle::Veichle;
pub use world::{initialize, update, Scene};
