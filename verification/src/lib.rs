//! Movement-and-collision core for a 2D platformer.
//!
//! The library decides, tick by tick, where a controlled character and the
//! solid obstacles around it stand: axis-aligned box overlap, a ground
//! classifier, horizontal and vertical movement resolvers (with a decaying
//! impulse jump and a double jump), a periodic stuck-state corrector, and a
//! sensor-overlap pickup check.
//!
//! All lengths are fixed-point integers counted in thousandths of a world
//! unit ("millis"), speeds in world units per second, and time deltas in
//! milliseconds, so that one tick's travel is `speed * delta` millis exactly.
//! Coordinates live on a bounded playfield; a candidate move that would leave
//! it is rejected exactly as a collision is, so every position the core
//! produces stays representable.

pub mod collectibles;
pub mod collision_fix;
pub mod ground_detection;
pub mod hit_box;
pub mod movement;
pub mod player;
pub mod player_animation;
pub mod simulation;
pub mod sprite_animation;
pub mod state;
pub mod timer;
pub mod user_input;
