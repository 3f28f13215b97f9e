//! Bullet-pattern construction and movement engine of a 2D bullet-hell game.
//!
//! Positions, velocities and accelerations are fixed-point integers
//! (`fixed::UNIT` units per pixel), time is counted in nanoseconds.

pub mod bounds;
pub mod construction;
pub mod damage;
pub mod fixed;
pub mod look_dir;
pub mod movement;
pub mod pattern;
pub mod spawner;
pub mod spell_card;
pub mod timer;
