//! Game-mode, physics and search configuration.

use crate::moves::Move;
use vstd::prelude::*;

verus! {

/// The two supported rule sets: free vertical movement (scroller) or
/// gravity and jumping (platformer).
#[derive(Clone, Copy, Debug, PartialEq, Eq, Structural, Hash)]
pub enum GameMode {
    Scroller,
    Platformer,
}

/// The subset of the search settings the physics transition reads.
#[derive(Clone, Copy, Debug, PartialEq, Eq, Structural)]
pub struct PhysicsSettings {
    pub mode: GameMode,
    pub simple_geometry: bool,
    pub allow_damage: bool,
}

/// Full configuration of one search run.  `heuristic_weight` is a decimal
/// fixed-point factor (raw `1/10_000` units, so `10_000` is weight one).
#[derive(Clone, Debug)]
pub struct SearchSettings {
    pub mode: GameMode,
    pub timeout: u64,
    pub always_shift: bool,
    pub disable_shift: bool,
    pub allowed_moves: Vec<Move>,
    pub heuristic_weight: i64,
    pub simple_geometry: bool,
    pub state_batch_size: usize,
    pub allow_damage: bool,
}

impl SearchSettings {
    pub fn new(
        mode: GameMode,
        timeout: u64,
        always_shift: bool,
        disable_shift: bool,
        allowed_moves: Vec<Move>,
        heuristic_weight: i64,
        simple_geometry: bool,
        state_batch_size: usize,
        allow_damage: bool,
    ) -> (r: SearchSettings)
        ensures
            r.mode == mode,
            r.timeout == timeout,
            r.always_shift == always_shift,
            r.disable_shift == disable_shift,
            r.allowed_moves == allowed_moves,
            r.heuristic_weight == heuristic_weight,
            r.simple_geometry == simple_geometry,
            r.state_batch_size == state_batch_size,
            r.allow_damage == allow_damage,
    {
        SearchSettings {
            mode,
            timeout,
            always_shift,
            disable_shift,
            allowed_moves,
            heuristic_weight,
            simple_geometry,
            state_batch_size,
            allow_damage,
        }
    }

    /// The physics projection of these settings.
    pub open spec fn spec_physics_settings(self) -> PhysicsSettings {
        PhysicsSettings {
            mode: self.mode,
            simple_geometry: self.simple_geometry,
            allow_damage: self.allow_damage,
        }
    }

    pub fn physics_settings(&self) -> (r: PhysicsSettings)
        ensures
            r == self.spec_physics_settings(),
    {
        PhysicsSettings {
            mode: self.mode,
            simple_geometry: self.simple_geometry,
            allow_damage: self.allow_damage,
        }
    }
}

} // verus!
