//! The avatar's own state: position, velocity, health and movement flags,
//! with a cached hitbox kept in sync by every position mutation.

use crate::geometry::{Point, Rectangle};
use crate::hitbox::Hitbox;
use crate::moves::Direction;
use crate::rround::{fallback_round, spec_round};
use crate::{clamp_i64, spec_clamp, HEALTH_LIMIT, MULT_LIMIT, POS_LIMIT, STAMINA_MAX, VEL_LIMIT};
use vstd::prelude::*;

verus! {

/// Half the avatar's width, in raw steps (24 units).
pub const PLAYER_HALF_WIDTH: i64 = 240_000;

/// Distance from the avatar's position to the bottom of its box (26 units).
pub const PLAYER_BOX_DOWN: i64 = 260_000;

/// Distance from the avatar's position to the top of its box (20 units).
pub const PLAYER_BOX_UP: i64 = 200_000;

/// The avatar's box centred on position `(x, y)`.
pub open spec fn spec_player_rect(x: int, y: int) -> Rectangle {
    Rectangle {
        x1: (x - PLAYER_HALF_WIDTH) as i64,
        x2: (x + PLAYER_HALF_WIDTH) as i64,
        y1: (y - PLAYER_BOX_DOWN) as i64,
        y2: (y + PLAYER_BOX_UP) as i64,
    }
}

/// All avatar fields, in raw fixed-point units.
#[derive(Clone, Copy, Debug, PartialEq, Eq, Structural)]
pub struct PlayerState {
    pub x: i64,
    pub y: i64,
    pub vx: i64,
    pub vy: i64,
    pub base_vx: i64,
    pub base_vy: i64,
    pub health: i64,
    pub jump_override: bool,
    pub direction: Direction,
    pub in_the_air: bool,
    pub can_jump: bool,
    pub running: bool,
    pub dead: bool,
    pub speed_multiplier: i64,
    pub jump_multiplier: i64,
    pub stamina: i64,
    pub rect: Rectangle,
}

impl PlayerState {
    /// Well-formedness: the position sits on the centi-unit grid inside the
    /// level bounds, every magnitude respects its limit, and the cached
    /// hitbox is the avatar's box around the position.
    pub open spec fn wf(self) -> bool {
        &&& -POS_LIMIT <= self.x <= POS_LIMIT
        &&& -POS_LIMIT <= self.y <= POS_LIMIT
        &&& self.x as int % 100 == 0
        &&& self.y as int % 100 == 0
        &&& -VEL_LIMIT <= self.vx <= VEL_LIMIT
        &&& -VEL_LIMIT <= self.vy <= VEL_LIMIT
        &&& -VEL_LIMIT <= self.base_vx <= VEL_LIMIT
        &&& -VEL_LIMIT <= self.base_vy <= VEL_LIMIT
        &&& 0 <= self.health <= HEALTH_LIMIT
        &&& 0 <= self.stamina <= STAMINA_MAX
        &&& -MULT_LIMIT <= self.speed_multiplier <= MULT_LIMIT
        &&& -MULT_LIMIT <= self.jump_multiplier <= MULT_LIMIT
        &&& self.rect == spec_player_rect(self.x as int, self.y as int)
    }

    /// Build an avatar.  Position and velocities are rounded to the grid and
    /// saturated at their limits, which establishes the well-formedness
    /// invariant that every later mutation preserves.
    pub fn new(
        x: i64,
        y: i64,
        vx: i64,
        vy: i64,
        base_vx: i64,
        base_vy: i64,
        health: i64,
        jump_override: bool,
        direction: Direction,
        in_the_air: bool,
        can_jump: bool,
        running: bool,
        stamina: i64,
        speed_multiplier: i64,
        jump_multiplier: i64,
    ) -> (r: PlayerState)
        requires
            -POS_LIMIT <= x <= POS_LIMIT,
            -POS_LIMIT <= y <= POS_LIMIT,
            0 <= health <= HEALTH_LIMIT,
            0 <= stamina <= STAMINA_MAX,
        ensures
            r.x as int == spec_round(x as int, 2),
            r.y as int == spec_round(y as int, 2),
            r.vx as int == spec_clamp(vx as int, VEL_LIMIT as int),
            r.vy as int == spec_clamp(vy as int, VEL_LIMIT as int),
            r.base_vx as int == spec_clamp(base_vx as int, VEL_LIMIT as int),
            r.base_vy as int == spec_clamp(base_vy as int, VEL_LIMIT as int),
            r.health == health,
            r.jump_override == jump_override,
            r.direction == direction,
            r.in_the_air == in_the_air,
            r.can_jump == can_jump,
            r.running == running,
            r.dead == false,
            r.stamina == stamina,
            r.speed_multiplier as int == spec_clamp(speed_multiplier as int, MULT_LIMIT as int),
            r.jump_multiplier as int == spec_clamp(jump_multiplier as int, MULT_LIMIT as int),
            r.wf(),
    {
        let rx = fallback_round(x, 2);
        let ry = fallback_round(y, 2);
        proof {
            crate::rround::lemma_round_is_on_grid(x as int);
            crate::rround::lemma_round_is_on_grid(y as int);
            crate::rround::lemma_rhe_near(x as int, 100);
            crate::rround::lemma_rhe_near(y as int, 100);
        }
        PlayerState {
            x: rx,
            y: ry,
            vx: clamp_i64(vx, VEL_LIMIT),
            vy: clamp_i64(vy, VEL_LIMIT),
            base_vx: clamp_i64(base_vx, VEL_LIMIT),
            base_vy: clamp_i64(base_vy, VEL_LIMIT),
            jump_override,
            direction,
            in_the_air,
            can_jump,
            running,
            health,
            dead: false,
            stamina,
            speed_multiplier: clamp_i64(speed_multiplier, MULT_LIMIT),
            jump_multiplier: clamp_i64(jump_multiplier, MULT_LIMIT),
            rect: Rectangle {
                x1: rx - PLAYER_HALF_WIDTH,
                x2: rx + PLAYER_HALF_WIDTH,
                y1: ry - PLAYER_BOX_DOWN,
                y2: ry + PLAYER_BOX_UP,
            },
        }
    }

    /// The avatar's position as a vector.
    pub fn center(&self) -> (r: Point)
        ensures
            r.x == self.x,
            r.y == self.y,
    {
        Point { x: self.x, y: self.y }
    }

    /// The position after translating by `(dx, dy)`: rounded to the grid,
    /// then saturated at the level bounds.
    pub open spec fn spec_moved(x: int, dx: int) -> int {
        spec_clamp(spec_round(x + dx, 2), POS_LIMIT as int)
    }

    /// The whole avatar after translating by `(dx, dy)`: position moved,
    /// hitbox re-centred, everything else unchanged.
    pub open spec fn spec_move_by(p: PlayerState, dx: int, dy: int) -> PlayerState {
        let nx = Self::spec_moved(p.x as int, dx);
        let ny = Self::spec_moved(p.y as int, dy);
        PlayerState { x: nx as i64, y: ny as i64, rect: spec_player_rect(nx, ny), ..p }
    }

    /// The avatar after one position integration: translated by its
    /// velocity if that is non-zero, otherwise untouched.
    pub open spec fn spec_update_position(p: PlayerState) -> PlayerState {
        if p.vx != 0 || p.vy != 0 {
            Self::spec_move_by(p, p.vx as int, p.vy as int)
        } else {
            p
        }
    }

    /// Translate the avatar, re-rounding the position to the grid and
    /// keeping the cached hitbox in sync.
    pub fn move_by(&mut self, dx: i64, dy: i64)
        requires
            old(self).wf(),
            -4 * POS_LIMIT <= dx <= 4 * POS_LIMIT,
            -4 * POS_LIMIT <= dy <= 4 * POS_LIMIT,
        ensures
            *final(self) == (Self::spec_move_by(*old(self), dx as int, dy as int)),
            final(self).wf(),
    {
        let nx = clamp_i64(fallback_round(self.x + dx, 2), POS_LIMIT);
        let ny = clamp_i64(fallback_round(self.y + dy, 2), POS_LIMIT);
        proof {
            crate::rround::lemma_round_is_on_grid(self.x + dx);
            crate::rround::lemma_round_is_on_grid(self.y + dy);
            crate::rround::lemma_rhe_near(self.x + dx, 100);
            crate::rround::lemma_rhe_near(self.y + dy, 100);
        }
        self.x = nx;
        self.y = ny;
        self.rect = Rectangle {
            x1: nx - PLAYER_HALF_WIDTH,
            x2: nx + PLAYER_HALF_WIDTH,
            y1: ny - PLAYER_BOX_DOWN,
            y2: ny + PLAYER_BOX_UP,
        };
    }

    /// The cached hitbox.
    pub fn get_hitbox(&self) -> (r: Hitbox)
        ensures
            r.rect == self.rect,
    {
        Hitbox::new(self.rect)
    }

    /// Translate by the current velocity, if any.
    pub fn update_position(&mut self)
        requires
            old(self).wf(),
        ensures
            final(self).wf(),
            *final(self) == (Self::spec_update_position(*old(self))),
    {
        if self.vx != 0 || self.vy != 0 {
            let vx = self.vx;
            let vy = self.vy;
            self.move_by(vx, vy);
        }
    }
}

} // verus!
