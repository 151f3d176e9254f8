//! The closed set of level-object categories.

use crate::geometry::Point;
use vstd::prelude::*;

verus! {

/// What a level object does to the avatar.  `Projectile` carries its
/// per-tick velocity; `ConstantDamage` carries the health it removes, in raw
/// fixed-point units.
#[derive(Clone, Copy, Debug, PartialEq, Eq, Structural)]
pub enum ObjectType {
    Wall(),
    Ouch(),
    SpikeOuch(),
    Portal(),
    Warp(),
    Projectile(Point),
    ConstantDamage(i64),
}

impl ObjectType {
    /// Touching such an object kills instantly.
    pub open spec fn spec_is_deadly(self) -> bool {
        self matches ObjectType::Ouch() || self matches ObjectType::SpikeOuch()
            || self matches ObjectType::Portal() || self matches ObjectType::Warp()
    }
}

} // verus!
