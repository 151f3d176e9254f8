//! Region modifiers: areas of a level that change gravity, walking and
//! jumping while the avatar is inside them.

use crate::hitbox::Hitbox;
use vstd::prelude::*;

verus! {

/// A region modifier.  The multipliers are decimal fixed-point factors (raw
/// `1/10_000` units, so `10_000` leaves the base value unchanged).
#[derive(Clone, Debug)]
pub struct EnvModifier {
    pub hitbox: Hitbox,
    pub name: String,
    pub jump_speed: i64,
    pub walk_speed: i64,
    pub gravity: i64,
    pub jump_override: bool,
}

impl EnvModifier {
    pub fn new(
        hitbox: Hitbox,
        name: String,
        jump_speed: i64,
        walk_speed: i64,
        gravity: i64,
        jump_override: bool,
    ) -> (r: EnvModifier)
        ensures
            r.hitbox == hitbox,
            r.name == name,
            r.jump_speed == jump_speed,
            r.walk_speed == walk_speed,
            r.gravity == gravity,
            r.jump_override == jump_override,
    {
        EnvModifier { hitbox, name, jump_speed, walk_speed, gravity, jump_override }
    }
}

} // verus!
