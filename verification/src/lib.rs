//! Deterministic 2D platformer physics with best-first path search.
//!
//! Every coordinate, velocity and multiplier in this crate is a decimal
//! fixed-point number: an `i64` counting units of `1/10_000`.  Positions are
//! additionally kept on the centi-unit grid (multiples of 100 raw steps) by
//! the rounding engine in [`rround`], which makes state equality, hashing and
//! the physics transition bit-reproducible.

use vstd::prelude::*;

pub mod env_modifier;
pub mod geometry;
pub mod hitbox;
pub mod moves;
pub mod objects;
pub mod player;
pub mod rround;
pub mod static_state;
pub mod astar;
pub mod dodge;
pub mod physics;
pub mod settings;
pub mod state_table;

verus! {

/// Raw fixed-point steps per game unit.
pub const SCALE: i64 = 10_000;

/// Largest position magnitude a level may use, in raw steps.
pub const POS_LIMIT: i64 = 10_000_000_000_000;

/// Largest velocity magnitude, in raw steps per tick; velocities saturate
/// here so that positions can never overflow.
pub const VEL_LIMIT: i64 = 1_000_000_000;

/// Largest magnitude of a speed, jump or gravity multiplier (one hundred
/// times the base value).
pub const MULT_LIMIT: i64 = 1_000_000;

/// Stamina ceiling (one hundred points).
pub const STAMINA_MAX: i64 = 1_000_000;

/// Largest health or damage value a level may use.
pub const HEALTH_LIMIT: i64 = 1_000_000_000_000;

/// `v` pulled into `[-limit, limit]`.
pub open spec fn spec_clamp(v: int, limit: int) -> int {
    if v < -limit {
        -limit
    } else if v > limit {
        limit
    } else {
        v
    }
}

/// Saturate a value at a symmetric limit.
pub fn clamp_i64(v: i64, limit: i64) -> (r: i64)
    requires
        limit >= 0,
    ensures
        r as int == spec_clamp(v as int, limit as int),
{
    if v < -limit {
        -limit
    } else if v > limit {
        limit
    } else {
        v
    }
}

} // verus!
