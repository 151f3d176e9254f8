//! The avatar's one-tick physics transition.
//!
//! Every step of the transition — movement intent, stamina, projectile and
//! hazard collision, position integration, edge alignment, damage, region
//! modifiers and gravity — has a specification mirror, and the executable
//! transition is proved to return exactly the specified state.  That makes
//! the transition a mathematical function of (state, action, world,
//! settings): two calls on equal inputs give equal outputs.

use crate::geometry::{spec_collides, spec_mpv, spec_rect_bounded, Point, Rectangle};
use crate::env_modifier::EnvModifier;
use crate::hitbox::Hitbox;
use crate::moves::{Action, Direction, Move};
use crate::player::{spec_player_rect, PlayerState};
use crate::rround::{fallback_round, half_away_round, mul_fx, round_half_away, spec_mul_fx,
    spec_round};
use crate::settings::{GameMode, PhysicsSettings, SearchSettings};
use crate::static_state::{wf_world, EnvData, StaticState, WorldData};
use crate::{clamp_i64, spec_clamp, HEALTH_LIMIT, POS_LIMIT, SCALE, STAMINA_MAX, VEL_LIMIT};
use vstd::prelude::*;

verus! {

/// Base jump speed, in raw steps per tick (5.5 units).
pub const PLAYER_JUMP_SPEED: i64 = 55_000;

/// Base walk speed, in raw steps per tick (2.3 units).
pub const PLAYER_MOVEMENT_SPEED: i64 = 23_000;

/// Base gravity, in raw steps per tick per tick (0.1 units).
pub const GRAVITY_CONSTANT: i64 = 1_000;

/// Bound on every world rectangle the transition accepts; roomy enough for
/// a level plus many ticks of projectile drift.
pub const WORLD_BOUND: i64 = 20_000_000_000_000;

/// The avatar plus the transient physics bookkeeping: current gravity, the
/// physics settings, the index of the active region modifier, and whether
/// the previous input was an up move.
#[derive(Clone, Copy, Debug, PartialEq, Eq, Structural)]
pub struct PhysState {
    pub player: PlayerState,
    pub was_step_up_before: bool,
    pub gravity: i64,
    pub settings: PhysicsSettings,
    pub active_modifier: usize,
}

/// A value counts as zero for the axis tests when its two-digit rounding is
/// within one unit of zero.
pub open spec fn spec_near_zero_r(v: int) -> bool {
    -10_000 < spec_round(v, 2) < 10_000
}

fn near_zero_rounded(v: i64) -> (r: bool)
    requires
        -crate::rround::ROUND_INPUT_LIMIT <= v <= crate::rround::ROUND_INPUT_LIMIT,
    ensures
        r == spec_near_zero_r(v as int),
{
    let rv = fallback_round(v, 2);
    -10_000 < rv && rv < 10_000
}

/// Any rectangle of the list overlaps `hb`.
pub open spec fn spec_hits_any(rects: Seq<Rectangle>, hb: Rectangle) -> bool {
    exists|i: int| 0 <= i < rects.len() && spec_collides(rects[i], hb)
}

fn hits_any(v: &Vec<Hitbox>, hb: &Hitbox) -> (r: bool)
    ensures
        r == spec_hits_any(v@.map_values(|h: Hitbox| h.rect), hb.rect),
{
    let ghost rects = v@.map_values(|h: Hitbox| h.rect);
    let mut i: usize = 0;
    while i < v.len()
        invariant
            i <= v.len(),
            rects == v@.map_values(|h: Hitbox| h.rect),
            forall|j: int| 0 <= j < i ==> !spec_collides(rects[j], hb.rect),
        decreases v.len() - i,
    {
        if v[i].collides(hb) {
            assert(spec_collides(rects[i as int], hb.rect));
            return true;
        }
        i += 1;
    }
    false
}

/// The avatar's box shifted one unit down: the landing-surface probe.
pub open spec fn spec_probe_rect(r: Rectangle) -> Rectangle {
    Rectangle { x1: r.x1, x2: r.x2, y1: (r.y1 - 10_000) as i64, y2: (r.y2 - 10_000) as i64 }
}

/// Some wall overlaps the probe with a vertical-only minimum-penetration
/// vector pointing up: the avatar stands on ground.
pub open spec fn spec_can_jump(walls: Seq<Rectangle>, hb: Rectangle) -> bool {
    exists|i: int|
        0 <= i < walls.len() && spec_collides(walls[i], hb) && spec_near_zero_r(
            spec_mpv(walls[i], hb).0,
        ) && spec_mpv(walls[i], hb).1 > 0
}

/// One collision against a solid obstacle: the obstacle's rectangle and the
/// minimum-penetration vector it produced.
pub ghost struct CollisionData {
    pub rect: Rectangle,
    pub mpv: (int, int),
}

/// The two collision lists of the edge-alignment step, in wall order:
/// vertical-only overlaps (x component near zero) and horizontal-only
/// overlaps (y component near zero); diagonal overlaps are ignored.
pub open spec fn spec_collision_lists(walls: Seq<Rectangle>, hb: Rectangle) -> (
    Seq<CollisionData>,
    Seq<CollisionData>,
)
    decreases walls.len(),
{
    if walls.len() == 0 {
        (Seq::empty(), Seq::empty())
    } else {
        let (cx, cy) = spec_collision_lists(walls.drop_last(), hb);
        let wall = walls.last();
        if spec_collides(wall, hb) {
            let mpv = spec_mpv(wall, hb);
            let c = CollisionData { rect: wall, mpv };
            if spec_near_zero_r(mpv.0) {
                (cx, cy.push(c))
            } else if spec_near_zero_r(mpv.1) {
                (cx.push(c), cy)
            } else {
                (cx, cy)
            }
        } else {
            (cx, cy)
        }
    }
}

/// First region-modifier index at or after `i` whose area contains the
/// avatar; the default modifier at index zero is never scanned.
pub open spec fn spec_first_env_from(envs: Seq<EnvData>, hb: Rectangle, i: int) -> Option<int>
    decreases envs.len() - i,
{
    if i < 1 || i >= envs.len() {
        None
    } else if spec_collides(envs[i].hitbox, hb) {
        Some(i)
    } else {
        spec_first_env_from(envs, hb, i + 1)
    }
}

proof fn lemma_first_env_skip(envs: Seq<EnvData>, hb: Rectangle, a: int, b: int)
    requires
        1 <= a <= b,
        forall|j: int| a <= j < b ==> !spec_collides(#[trigger] envs[j].hitbox, hb),
    ensures
        spec_first_env_from(envs, hb, a) == spec_first_env_from(envs, hb, b),
    decreases b - a,
{
    if a < b && a < envs.len() {
        lemma_first_env_skip(envs, hb, a + 1, b);
    } else if a < b {
        lemma_first_env_skip(envs, hb, a + 1, b);
    }
}

impl PhysState {
    /// Well-formedness: the avatar is well-formed and the transient gravity
    /// respects the velocity limit.
    pub open spec fn wf(self) -> bool {
        &&& self.player.wf()
        &&& -VEL_LIMIT <= self.gravity <= VEL_LIMIT
    }

    /// The state with gravity, base speeds and the jump override taken from
    /// modifier `e`.
    pub open spec fn spec_apply_modifier(self, e: EnvData) -> PhysState {
        PhysState {
            gravity: spec_clamp(
                spec_mul_fx(GRAVITY_CONSTANT as int, e.gravity),
                VEL_LIMIT as int,
            ) as i64,
            player: PlayerState {
                base_vx: spec_clamp(
                    spec_mul_fx(PLAYER_MOVEMENT_SPEED as int, e.walk_speed),
                    VEL_LIMIT as int,
                ) as i64,
                base_vy: spec_clamp(
                    spec_mul_fx(PLAYER_JUMP_SPEED as int, e.jump_speed),
                    VEL_LIMIT as int,
                ) as i64,
                jump_override: e.jump_override,
                ..self.player
            },
            ..self
        }
    }

    /// Region-modifier detection: the first non-default modifier containing
    /// the avatar is applied if it differs from the remembered one (indices
    /// are remembered shifted by one, as the scan skips the default);
    /// with no match the default modifier is re-applied.
    pub open spec fn spec_detect_env_mod(self, w: WorldData) -> PhysState {
        match spec_first_env_from(w.envs, self.player.rect, 1) {
            Some(idx) => {
                if self.active_modifier as int != idx - 1 {
                    let s = PhysState { active_modifier: (idx - 1) as usize, ..self };
                    s.spec_apply_modifier(w.envs[idx])
                } else {
                    self
                }
            },
            None => {
                let s = PhysState { active_modifier: 0, ..self };
                s.spec_apply_modifier(w.envs[0])
            },
        }
    }

    /// The can-jump recomputation: always true in scroller mode, otherwise
    /// the landing-surface probe one unit below the avatar.
    pub open spec fn spec_reset_can_jump(self, w: WorldData) -> PhysState {
        let can = if self.settings.mode == GameMode::Scroller {
            true
        } else {
            spec_can_jump(w.walls, spec_probe_rect(self.player.rect))
        };
        PhysState { player: PlayerState { can_jump: can, ..self.player }, ..self }
    }

    /// One directional velocity change.  A sprinting horizontal move uses
    /// the avatar's sprint multiplier, marks it running and costs half a
    /// stamina point; an up move in platformer mode first re-probes
    /// can-jump and only grants upward velocity (and lifts the avatar into
    /// the air) if the probe or the jump override allows it.
    pub open spec fn spec_change_direction(
        self,
        w: WorldData,
        direction: Direction,
        sprinting: bool,
    ) -> PhysState {
        let horizontal = direction == Direction::E || direction == Direction::W;
        let consumes = horizontal && sprinting;
        let sm: int = if consumes {
            self.player.speed_multiplier as int
        } else {
            SCALE as int
        };
        let stamina2: int = if self.player.stamina - 5_000 >= 0 {
            self.player.stamina - 5_000
        } else {
            0
        };
        let s0 = if consumes {
            PhysState {
                player: PlayerState {
                    running: true,
                    stamina: stamina2 as i64,
                    ..self.player
                },
                ..self
            }
        } else {
            self
        };
        match direction {
            Direction::E => PhysState {
                player: PlayerState {
                    vx: spec_clamp(
                        spec_mul_fx(s0.player.base_vx as int, sm),
                        VEL_LIMIT as int,
                    ) as i64,
                    ..s0.player
                },
                ..s0
            },
            Direction::W => PhysState {
                player: PlayerState {
                    vx: spec_clamp(
                        -spec_mul_fx(s0.player.base_vx as int, sm),
                        VEL_LIMIT as int,
                    ) as i64,
                    ..s0.player
                },
                ..s0
            },
            Direction::N => {
                if s0.settings.mode == GameMode::Scroller {
                    PhysState {
                        player: PlayerState {
                            vy: spec_clamp(
                                spec_mul_fx(s0.player.base_vx as int, sm),
                                VEL_LIMIT as int,
                            ) as i64,
                            ..s0.player
                        },
                        ..s0
                    }
                } else {
                    let s1 = s0.spec_reset_can_jump(w);
                    if !s1.player.can_jump && !s1.player.jump_override {
                        s1
                    } else {
                        PhysState {
                            player: PlayerState {
                                vy: spec_clamp(
                                    spec_mul_fx(s1.player.base_vy as int, sm),
                                    VEL_LIMIT as int,
                                ) as i64,
                                in_the_air: true,
                                ..s1.player
                            },
                            ..s1
                        }
                    }
                }
            },
            Direction::S => {
                if s0.settings.mode == GameMode::Scroller {
                    PhysState {
                        player: PlayerState {
                            vy: spec_clamp(
                                -spec_mul_fx(s0.player.base_vx as int, sm),
                                VEL_LIMIT as int,
                            ) as i64,
                            ..s0.player
                        },
                        ..s0
                    }
                } else {
                    s0
                }
            },
        }
    }

    /// The movement-intent step: horizontal velocity (and vertical velocity
    /// in scroller mode) is reset, sprinting is decided from shift and
    /// stamina, and each direction bit of the move is applied in the order
    /// right, left, up (suppressed after an up move), down (scroller only).
    pub open spec fn spec_update_movement(self, w: WorldData, act: Action) -> PhysState {
        let scroller = self.settings.mode == GameMode::Scroller;
        let s0 = PhysState {
            player: PlayerState {
                vx: 0,
                vy: if scroller {
                    0
                } else {
                    self.player.vy
                },
                running: false,
                ..self.player
            },
            ..self
        };
        let sprinting = act.shift && s0.player.stamina > 0;
        let s1 = if act.mov.spec_is_right() {
            s0.spec_change_direction(w, Direction::E, sprinting)
        } else {
            s0
        };
        let s2 = if act.mov.spec_is_left() {
            s1.spec_change_direction(w, Direction::W, sprinting)
        } else {
            s1
        };
        let s3 = if !self.was_step_up_before && act.mov.spec_is_up() {
            s2.spec_change_direction(w, Direction::N, sprinting)
        } else {
            s2
        };
        if scroller && act.mov.spec_is_down() {
            s3.spec_change_direction(w, Direction::S, sprinting)
        } else {
            s3
        }
    }

    /// Stamina regeneration: half a point, capped, unless running or
    /// holding shift.
    pub open spec fn spec_update_stamina(self, shift_pressed: bool) -> PhysState {
        if self.player.running || shift_pressed {
            self
        } else {
            let st: int = if self.player.stamina + 5_000 <= STAMINA_MAX {
                self.player.stamina + 5_000
            } else {
                STAMINA_MAX as int
            };
            PhysState { player: PlayerState { stamina: st as i64, ..self.player }, ..self }
        }
    }

    /// Resolve one horizontal overlap: zero the horizontal velocity and
    /// snap the avatar so the touching edges meet.  An overlap whose x
    /// component is near zero is left alone.
    pub open spec fn spec_align_x_edge(self, c: CollisionData) -> PhysState {
        if spec_near_zero_r(c.mpv.0) {
            self
        } else {
            let p0 = PlayerState { vx: 0, ..self.player };
            let p1 = if c.mpv.0 < 0 {
                PlayerState::spec_move_by(
                    p0,
                    c.rect.x1 - spec_player_rect(p0.x as int, p0.y as int).x2,
                    0,
                )
            } else {
                PlayerState::spec_move_by(
                    p0,
                    c.rect.x2 - spec_player_rect(p0.x as int, p0.y as int).x1,
                    0,
                )
            };
            PhysState { player: p1, ..self }
        }
    }

    /// Resolve one vertical overlap: zero the vertical velocity and snap;
    /// landing on top of an obstacle grounds the avatar.
    pub open spec fn spec_align_y_edge(self, c: CollisionData) -> PhysState {
        if spec_near_zero_r(c.mpv.1) {
            self
        } else {
            let p0 = PlayerState { vy: 0, ..self.player };
            if c.mpv.1 > 0 {
                let p1 = PlayerState::spec_move_by(
                    p0,
                    0,
                    c.rect.y2 - spec_player_rect(p0.x as int, p0.y as int).y1,
                );
                PhysState {
                    player: PlayerState { in_the_air: false, ..p1 },
                    ..self
                }
            } else {
                let p1 = PlayerState::spec_move_by(
                    p0,
                    0,
                    c.rect.y1 - spec_player_rect(p0.x as int, p0.y as int).y2,
                );
                PhysState { player: p1, ..self }
            }
        }
    }

    /// Resolve the horizontal overlaps in order.
    pub open spec fn spec_align_x_all(self, cs: Seq<CollisionData>, i: int) -> PhysState
        decreases cs.len() - i,
    {
        if i < 0 || i >= cs.len() {
            self
        } else {
            self.spec_align_x_edge(cs[i]).spec_align_x_all(cs, i + 1)
        }
    }

    /// Resolve the vertical overlaps in order.
    pub open spec fn spec_align_y_all(self, cs: Seq<CollisionData>, i: int) -> PhysState
        decreases cs.len() - i,
    {
        if i < 0 || i >= cs.len() {
            self
        } else {
            self.spec_align_y_edge(cs[i]).spec_align_y_all(cs, i + 1)
        }
    }

    /// The edge-alignment step: with no overlap at all the avatar is in the
    /// air; otherwise all horizontal overlaps are resolved first, then the
    /// vertical overlaps are recomputed against the corrected position and
    /// resolved.
    pub open spec fn spec_align_edges(self, w: WorldData) -> PhysState {
        let (cx, cy) = spec_collision_lists(w.walls, self.player.rect);
        if cx.len() == 0 && cy.len() == 0 {
            PhysState { player: PlayerState { in_the_air: true, ..self.player }, ..self }
        } else {
            let s1 = self.spec_align_x_all(cx, 0);
            let (cx2, cy2) = spec_collision_lists(w.walls, s1.player.rect);
            s1.spec_align_y_all(cy2, 0)
        }
    }

    /// The damage step: every overlapping damage zone in order reduces
    /// health, floored at zero; reaching exactly zero kills and stops the
    /// scan (the second component records that early stop).
    pub open spec fn spec_apply_damage(self, zones: Seq<(Rectangle, int)>, i: int) -> (
        PhysState,
        bool,
    )
        decreases zones.len() - i,
    {
        if i < 0 || i >= zones.len() {
            (self, false)
        } else if spec_collides(zones[i].0, self.player.rect) {
            let h: int = if self.player.health - zones[i].1 >= 0 {
                self.player.health - zones[i].1
            } else {
                0
            };
            let s2 = PhysState {
                player: PlayerState { health: h as i64, ..self.player },
                ..self
            };
            if h == 0 {
                (
                    PhysState {
                        player: PlayerState { dead: true, ..s2.player },
                        ..s2
                    },
                    true,
                )
            } else {
                s2.spec_apply_damage(zones, i + 1)
            }
        } else {
            self.spec_apply_damage(zones, i + 1)
        }
    }

    /// Gravity: while in the air the vertical velocity falls by the current
    /// gravity, saturating at the velocity limit.
    pub open spec fn spec_apply_gravity(self) -> PhysState {
        if self.player.in_the_air {
            PhysState {
                player: PlayerState {
                    vy: spec_clamp(
                        self.player.vy - self.gravity,
                        VEL_LIMIT as int,
                    ) as i64,
                    ..self.player
                },
                ..self
            }
        } else {
            self
        }
    }

    /// The state with the avatar dead.
    pub open spec fn spec_killed(self) -> PhysState {
        PhysState { player: PlayerState { dead: true, ..self.player }, ..self }
    }

    /// The complete one-tick transition.  Movement intent and stamina come
    /// first; touching a projectile kills before the position updates;
    /// then position integration, edge alignment, hazards, damage (when
    /// enabled), region-modifier detection and gravity, in that order; a
    /// death ends the tick where it happens.  The up-move flag is recorded
    /// only when the tick runs to completion.
    #[verifier::opaque]
    pub open spec fn spec_tick(
        self,
        act: Action,
        w: WorldData,
        allow_damage: bool,
    ) -> PhysState {
        let s1 = self.spec_update_movement(w, act).spec_update_stamina(act.shift);
        if spec_hits_any(w.proj, s1.player.rect) {
            s1.spec_killed()
        } else {
            let s2 = PhysState {
                player: PlayerState::spec_update_position(s1.player),
                ..s1
            };
            let s3 = s2.spec_align_edges(w);
            if spec_hits_any(w.deadly, s3.player.rect) {
                s3.spec_killed()
            } else {
                let (s4, stopped) = if allow_damage {
                    s3.spec_apply_damage(w.damage, 0)
                } else {
                    (s3, false)
                };
                if stopped {
                    s4
                } else {
                    let s5 = s4.spec_detect_env_mod(w);
                    let s6 = s5.spec_apply_gravity();
                    PhysState { was_step_up_before: act.mov.spec_is_up(), ..s6 }
                }
            }
        }
    }

    /// The two states' positions agree within `precision` on both axes.
    pub open spec fn spec_close_enough(self, target: PhysState, precision: int) -> bool {
        &&& -precision <= self.player.x - target.player.x <= precision
        &&& -precision <= self.player.y - target.player.y <= precision
    }

    /// The projection of a state that search deduplication keys on: the
    /// position (coarsened to one decimal digit under simple geometry), the
    /// vertical velocity (coarsened to whole units; platformer mode only),
    /// the health (when damage is tracked) and the up-move flag.
    pub open spec fn spec_state_key(self) -> (int, int, int, int, bool) {
        let kx = if self.settings.simple_geometry {
            round_half_away(self.player.x as int, 1_000)
        } else {
            self.player.x as int
        };
        let ky = if self.settings.simple_geometry {
            round_half_away(self.player.y as int, 1_000)
        } else {
            self.player.y as int
        };
        let kvy = if self.settings.mode == GameMode::Platformer {
            if self.settings.simple_geometry {
                round_half_away(self.player.vy as int, 10_000)
            } else {
                self.player.vy as int
            }
        } else {
            0
        };
        let kh = if self.settings.allow_damage {
            self.player.health as int
        } else {
            0
        };
        (kx, ky, kvy, kh, self.was_step_up_before)
    }

    /// The same projection, in machine words: the form the search tables
    /// store.
    pub open spec fn spec_key64(self) -> (i64, i64, i64, i64, bool) {
        let k = self.spec_state_key();
        (k.0 as i64, k.1 as i64, k.2 as i64, k.3 as i64, k.4)
    }
}

/// The exec form of one collision record.
struct Collision {
    hitbox: Hitbox,
    mpv: Point,
}

/// The collision record a `Collision` stands for.
pub open spec fn spec_cdata(hitbox: Hitbox, mpv: Point) -> CollisionData {
    CollisionData { rect: hitbox.rect, mpv: (mpv.x as int, mpv.y as int) }
}

impl PhysState {
    /// Build a physics state over `player` and immediately detect the
    /// active region modifier, starting from base gravity and the default
    /// modifier.
    pub fn new(player: PlayerState, settings: PhysicsSettings, state: &StaticState) -> (r:
        PhysState)
        requires
            player.wf(),
            wf_world(state@, WORLD_BOUND as int),
        ensures
            r == (PhysState {
                player,
                settings,
                gravity: GRAVITY_CONSTANT,
                active_modifier: 0,
                was_step_up_before: false,
            }).spec_detect_env_mod(state@),
            r.wf(),
    {
        let mut ps = PhysState {
            player,
            settings,
            gravity: GRAVITY_CONSTANT,
            active_modifier: 0,
            was_step_up_before: false,
        };
        ps.detect_env_mod(state);
        ps
    }

    /// Overwrite the avatar's health.
    pub fn set_player_health(&mut self, health: i64)
        requires
            old(self).wf(),
            0 <= health <= HEALTH_LIMIT,
        ensures
            *final(self) == (PhysState {
                player: PlayerState { health, ..old(self).player },
                ..*old(self)
            }),
            final(self).wf(),
    {
        self.player.health = health;
    }

    /// One tick of the physics, exactly as [`PhysState::spec_tick`]
    /// specifies it.
    #[verifier::rlimit(100)]
    #[verifier::spinoff_prover]
    pub fn tick(&mut self, act: Action, state: &StaticState, search_settings: &SearchSettings)
        requires
            old(self).wf(),
            wf_world(state@, WORLD_BOUND as int),
        ensures
            *final(self) == (old(self).spec_tick(act, state@, search_settings.allow_damage)),
            final(self).wf(),
    {
        proof {
            reveal(PhysState::spec_tick);
        }
        self.player_tick(state, act);
        let hb = self.player.get_hitbox();
        proof {
            assert(state.proj@.map_values(|h: Hitbox| h.rect) =~= state@.proj);
        }
        if hits_any(&state.proj, &hb) {
            self.player.dead = true;
            return;
        }
        self.player.update_position();
        self.align_edges(state);
        let hb2 = self.player.get_hitbox();
        proof {
            assert(state.deadly@.map_values(|h: Hitbox| h.rect) =~= state@.deadly);
        }
        if hits_any(&state.deadly, &hb2) {
            self.player.dead = true;
            return;
        }
        if search_settings.allow_damage {
            let stopped = self.apply_damage(state);
            if stopped {
                return;
            }
        }
        self.detect_env_mod(state);
        if self.player.in_the_air {
            self.player.vy = clamp_i64(self.player.vy - self.gravity, VEL_LIMIT);
        }
        self.was_step_up_before = act.mov.is_up();
    }

    /// The target test of the search: both coordinates within `precision`.
    pub fn close_enough(&self, target_state: &PhysState, precision: i64) -> (r: bool)
        requires
            self.wf(),
            target_state.wf(),
            0 <= precision,
        ensures
            r == self.spec_close_enough(*target_state, precision as int),
    {
        let dx = self.player.x - target_state.player.x;
        let dy = self.player.y - target_state.player.y;
        -precision <= dx && dx <= precision && -precision <= dy && dy <= precision
    }

    /// The deduplication key of this state under its settings.
    pub fn state_key(&self) -> (r: (i64, i64, i64, i64, bool))
        requires
            self.wf(),
        ensures
            (r.0 as int, r.1 as int, r.2 as int, r.3 as int, r.4) == self.spec_state_key(),
            r == self.spec_key64(),
    {
        let kx = if self.settings.simple_geometry {
            half_away_round(self.player.x, 1_000)
        } else {
            self.player.x
        };
        let ky = if self.settings.simple_geometry {
            half_away_round(self.player.y, 1_000)
        } else {
            self.player.y
        };
        let kvy = if self.settings.mode == GameMode::Platformer {
            if self.settings.simple_geometry {
                half_away_round(self.player.vy, 10_000)
            } else {
                self.player.vy
            }
        } else {
            0
        };
        let kh = if self.settings.allow_damage {
            self.player.health
        } else {
            0
        };
        (kx, ky, kvy, kh, self.was_step_up_before)
    }
}

// Region modifiers.
impl PhysState {
    fn detect_env_mod(&mut self, state: &StaticState)
        requires
            old(self).wf(),
            wf_world(state@, WORLD_BOUND as int),
        ensures
            *final(self) == (old(self).spec_detect_env_mod(state@)),
            final(self).wf(),
    {
        let hb = self.player.get_hitbox();
        let n = state.environments.len();
        let mut i: usize = 1;
        while i < n
            invariant
                old(self).wf(),
                wf_world(state@, WORLD_BOUND as int),
                *self == *old(self),
                hb.rect == self.player.rect,
                n == state.environments.len(),
                1 <= i <= n || (n <= 1 && i == 1),
                forall|j: int|
                    1 <= j < i ==> !spec_collides((#[trigger] state@.envs[j]).hitbox, hb.rect),
            decreases n - i,
        {
            if state.environments[i].hitbox.collides(&hb) {
                proof {
                    lemma_first_env_skip(state@.envs, hb.rect, 1, i as int);
                    assert(spec_first_env_from(state@.envs, hb.rect, 1) == Some(i as int));
                }
                let im1 = i - 1;
                if self.active_modifier != im1 {
                    self.active_modifier = im1;
                    self.apply_modifier(&state.environments[i]);
                }
                return;
            }
            i += 1;
        }
        proof {
            lemma_first_env_skip(state@.envs, hb.rect, 1, if n >= 1 { n as int } else { 1 });
            assert(spec_first_env_from(state@.envs, hb.rect, 1) is None);
        }
        self.active_modifier = 0;
        self.apply_modifier(&state.environments[0]);
    }

    fn apply_modifier(&mut self, modifier: &EnvModifier)
        requires
            old(self).wf(),
            -crate::MULT_LIMIT <= modifier.gravity <= crate::MULT_LIMIT,
            -crate::MULT_LIMIT <= modifier.walk_speed <= crate::MULT_LIMIT,
            -crate::MULT_LIMIT <= modifier.jump_speed <= crate::MULT_LIMIT,
        ensures
            *final(self) == (old(self).spec_apply_modifier(
                crate::static_state::spec_env_data(*modifier),
            )),
            final(self).wf(),
    {
        self.gravity = clamp_i64(mul_fx(GRAVITY_CONSTANT, modifier.gravity), VEL_LIMIT);
        self.player.base_vx = clamp_i64(
            mul_fx(PLAYER_MOVEMENT_SPEED, modifier.walk_speed),
            VEL_LIMIT,
        );
        self.player.base_vy = clamp_i64(
            mul_fx(PLAYER_JUMP_SPEED, modifier.jump_speed),
            VEL_LIMIT,
        );
        self.player.jump_override = modifier.jump_override;
    }
}

// Edge alignment.
impl PhysState {
    fn align_edges(&mut self, state: &StaticState)
        requires
            old(self).wf(),
            wf_world(state@, WORLD_BOUND as int),
        ensures
            *final(self) == (old(self).spec_align_edges(state@)),
            final(self).wf(),
    {
        let hb = self.player.get_hitbox();
        let (collisions_x, collisions_y) = self.get_collisions_list(state, &hb);
        let ghost cxs = spec_collision_lists(state@.walls, old(self).player.rect).0;
        let ghost cys = spec_collision_lists(state@.walls, old(self).player.rect).1;
        if collisions_x.len() == 0 && collisions_y.len() == 0 {
            self.player.in_the_air = true;
            return;
        }
        let mut i: usize = 0;
        while i < collisions_x.len()
            invariant
                self.wf(),
                i <= collisions_x.len(),
                collisions_x@.map_values(|c: Collision| spec_cdata(c.hitbox, c.mpv)) == cxs,
                forall|j: int|
                    0 <= j < collisions_x.len() ==> spec_rect_bounded(
                        (#[trigger] collisions_x@[j]).hitbox.rect,
                        WORLD_BOUND as int,
                    ) && -2 * WORLD_BOUND <= collisions_x@[j].mpv.x <= 2 * WORLD_BOUND && -2
                        * WORLD_BOUND <= collisions_x@[j].mpv.y <= 2 * WORLD_BOUND,
                old(self).spec_align_x_all(cxs, 0) == self.spec_align_x_all(cxs, i as int),
            decreases collisions_x.len() - i,
        {
            let c = &collisions_x[i];
            self.align_x_edge(c);
            i += 1;
        }
        let hb2 = self.player.get_hitbox();
        let (_, collisions_y2) = self.get_collisions_list(state, &hb2);
        let ghost s1 = old(self).spec_align_x_all(cxs, 0);
        let ghost cy2s = spec_collision_lists(state@.walls, s1.player.rect).1;
        let mut i: usize = 0;
        while i < collisions_y2.len()
            invariant
                self.wf(),
                i <= collisions_y2.len(),
                collisions_y2@.map_values(|c: Collision| spec_cdata(c.hitbox, c.mpv)) == cy2s,
                forall|j: int|
                    0 <= j < collisions_y2.len() ==> spec_rect_bounded(
                        (#[trigger] collisions_y2@[j]).hitbox.rect,
                        WORLD_BOUND as int,
                    ) && -2 * WORLD_BOUND <= collisions_y2@[j].mpv.x <= 2 * WORLD_BOUND && -2
                        * WORLD_BOUND <= collisions_y2@[j].mpv.y <= 2 * WORLD_BOUND,
                s1.spec_align_y_all(cy2s, 0) == self.spec_align_y_all(cy2s, i as int),
            decreases collisions_y2.len() - i,
        {
            let c = &collisions_y2[i];
            self.align_y_edge(c);
            i += 1;
        }
    }

    fn align_x_edge(&mut self, collision: &Collision)
        requires
            old(self).wf(),
            spec_rect_bounded(collision.hitbox.rect, WORLD_BOUND as int),
            -2 * WORLD_BOUND <= collision.mpv.x <= 2 * WORLD_BOUND,
            -2 * WORLD_BOUND <= collision.mpv.y <= 2 * WORLD_BOUND,
        ensures
            *final(self) == (old(self).spec_align_x_edge(
                spec_cdata(collision.hitbox, collision.mpv),
            )),
            final(self).wf(),
    {
        if near_zero_rounded(collision.mpv.x) {
            return;
        }
        self.player.vx = 0;
        if collision.mpv.x < 0 {
            let dx = collision.hitbox.get_leftmost_point()
                - self.player.get_hitbox().get_rightmost_point();
            self.player.move_by(dx, 0);
        } else {
            let dx = collision.hitbox.get_rightmost_point()
                - self.player.get_hitbox().get_leftmost_point();
            self.player.move_by(dx, 0);
        }
    }

    fn align_y_edge(&mut self, collision: &Collision)
        requires
            old(self).wf(),
            spec_rect_bounded(collision.hitbox.rect, WORLD_BOUND as int),
            -2 * WORLD_BOUND <= collision.mpv.x <= 2 * WORLD_BOUND,
            -2 * WORLD_BOUND <= collision.mpv.y <= 2 * WORLD_BOUND,
        ensures
            *final(self) == (old(self).spec_align_y_edge(
                spec_cdata(collision.hitbox, collision.mpv),
            )),
            final(self).wf(),
    {
        if near_zero_rounded(collision.mpv.y) {
            return;
        }
        self.player.vy = 0;
        if collision.mpv.y > 0 {
            let dy = collision.hitbox.get_highest_point()
                - self.player.get_hitbox().get_lowest_point();
            self.player.move_by(0, dy);
            self.player.in_the_air = false;
        } else {
            let dy = collision.hitbox.get_lowest_point()
                - self.player.get_hitbox().get_highest_point();
            self.player.move_by(0, dy);
        }
    }
}

// Player-related steps.
impl PhysState {
    fn player_reset_can_jump(&mut self, state: &StaticState)
        requires
            old(self).wf(),
            wf_world(state@, WORLD_BOUND as int),
        ensures
            *final(self) == (old(self).spec_reset_can_jump(state@)),
            final(self).wf(),
    {
        if self.settings.mode == GameMode::Scroller {
            self.player.can_jump = true;
            return;
        }
        let probe = Hitbox::new(
            Rectangle {
                x1: self.player.rect.x1,
                x2: self.player.rect.x2,
                y1: self.player.rect.y1 - 10_000,
                y2: self.player.rect.y2 - 10_000,
            },
        );
        let can = self.player_can_jump(state, &probe);
        self.player.can_jump = can;
    }

    fn player_tick(&mut self, state: &StaticState, act: Action)
        requires
            old(self).wf(),
            wf_world(state@, WORLD_BOUND as int),
        ensures
            *final(self) == (old(self).spec_update_movement(state@, act).spec_update_stamina(
                act.shift,
            )),
            final(self).wf(),
    {
        self.player_update_movement(state, act);
        self.player_update_stamina(act.shift);
    }

    fn player_update_stamina(&mut self, shift_pressed: bool)
        requires
            old(self).wf(),
        ensures
            *final(self) == (old(self).spec_update_stamina(shift_pressed)),
            final(self).wf(),
    {
        if self.player.running || shift_pressed {
            return;
        }
        self.player.stamina = if self.player.stamina + 5_000 <= STAMINA_MAX {
            self.player.stamina + 5_000
        } else {
            STAMINA_MAX
        };
    }

    #[verifier::rlimit(100)]
    fn player_update_movement(&mut self, state: &StaticState, act: Action)
        requires
            old(self).wf(),
            wf_world(state@, WORLD_BOUND as int),
        ensures
            *final(self) == (old(self).spec_update_movement(state@, act)),
            final(self).wf(),
    {
        self.player.vx = 0;
        if self.settings.mode == GameMode::Scroller {
            self.player.vy = 0;
        }
        self.player.running = false;
        let sprinting = act.shift && self.player.stamina > 0;
        if act.mov.is_right() {
            self.player_change_direction(state, Direction::E, sprinting);
        }
        if act.mov.is_left() {
            self.player_change_direction(state, Direction::W, sprinting);
        }
        if !self.was_step_up_before && act.mov.is_up() {
            self.player_change_direction(state, Direction::N, sprinting);
        }
        if self.settings.mode == GameMode::Scroller && act.mov.is_down() {
            self.player_change_direction(state, Direction::S, sprinting);
        }
    }

    fn player_change_direction(&mut self, state: &StaticState, direction: Direction, sprinting:
        bool)
        requires
            old(self).wf(),
            wf_world(state@, WORLD_BOUND as int),
        ensures
            *final(self) == (old(self).spec_change_direction(state@, direction, sprinting)),
            final(self).wf(),
    {
        let mut speed_multiplier: i64 = SCALE;
        if (direction == Direction::E || direction == Direction::W) && sprinting {
            speed_multiplier = self.player.speed_multiplier;
            self.player.running = true;
            self.player.stamina = if self.player.stamina >= 5_000 {
                self.player.stamina - 5_000
            } else {
                0
            };
        }
        match direction {
            Direction::E => {
                self.player.vx = clamp_i64(
                    mul_fx(self.player.base_vx, speed_multiplier),
                    VEL_LIMIT,
                );
            },
            Direction::W => {
                self.player.vx = clamp_i64(
                    -mul_fx(self.player.base_vx, speed_multiplier),
                    VEL_LIMIT,
                );
            },
            Direction::N => {
                if self.settings.mode == GameMode::Scroller {
                    self.player.vy = clamp_i64(
                        mul_fx(self.player.base_vx, speed_multiplier),
                        VEL_LIMIT,
                    );
                    return;
                }
                self.player_reset_can_jump(state);
                if !self.player.can_jump && !self.player.jump_override {
                    return;
                }
                self.player.vy = clamp_i64(
                    mul_fx(self.player.base_vy, speed_multiplier),
                    VEL_LIMIT,
                );
                self.player.in_the_air = true;
            },
            Direction::S => {
                if self.settings.mode == GameMode::Scroller {
                    self.player.vy = clamp_i64(
                        -mul_fx(self.player.base_vx, speed_multiplier),
                        VEL_LIMIT,
                    );
                }
            },
        }
    }
}

// Collision scanning.
impl PhysState {
    fn get_collisions_list(&self, state: &StaticState, player: &Hitbox) -> (r: (
        Vec<Collision>,
        Vec<Collision>,
    ))
        requires
            wf_world(state@, WORLD_BOUND as int),
            spec_rect_bounded(player.rect, WORLD_BOUND as int),
        ensures
            r.0@.map_values(|c: Collision| spec_cdata(c.hitbox, c.mpv)) == spec_collision_lists(
                state@.walls,
                player.rect,
            ).0,
            r.1@.map_values(|c: Collision| spec_cdata(c.hitbox, c.mpv)) == spec_collision_lists(
                state@.walls,
                player.rect,
            ).1,
            forall|j: int|
                0 <= j < r.0@.len() ==> spec_rect_bounded(
                    (#[trigger] r.0@[j]).hitbox.rect,
                    WORLD_BOUND as int,
                ) && -2 * WORLD_BOUND <= r.0@[j].mpv.x <= 2 * WORLD_BOUND && -2 * WORLD_BOUND
                    <= r.0@[j].mpv.y <= 2 * WORLD_BOUND,
            forall|j: int|
                0 <= j < r.1@.len() ==> spec_rect_bounded(
                    (#[trigger] r.1@[j]).hitbox.rect,
                    WORLD_BOUND as int,
                ) && -2 * WORLD_BOUND <= r.1@[j].mpv.x <= 2 * WORLD_BOUND && -2 * WORLD_BOUND
                    <= r.1@[j].mpv.y <= 2 * WORLD_BOUND,
    {
        let mut collisions_x: Vec<Collision> = Vec::new();
        let mut collisions_y: Vec<Collision> = Vec::new();
        let mut i: usize = 0;
        while i < state.objects.len()
            invariant
                wf_world(state@, WORLD_BOUND as int),
                spec_rect_bounded(player.rect, WORLD_BOUND as int),
                i <= state.objects.len(),
                (
                    collisions_x@.map_values(|c: Collision| spec_cdata(c.hitbox, c.mpv)),
                    collisions_y@.map_values(|c: Collision| spec_cdata(c.hitbox, c.mpv)),
                ) == spec_collision_lists(state@.walls.subrange(0, i as int), player.rect),
                forall|j: int|
                    0 <= j < collisions_x@.len() ==> spec_rect_bounded(
                        (#[trigger] collisions_x@[j]).hitbox.rect,
                        WORLD_BOUND as int,
                    ) && -2 * WORLD_BOUND <= collisions_x@[j].mpv.x <= 2 * WORLD_BOUND && -2
                        * WORLD_BOUND <= collisions_x@[j].mpv.y <= 2 * WORLD_BOUND,
                forall|j: int|
                    0 <= j < collisions_y@.len() ==> spec_rect_bounded(
                        (#[trigger] collisions_y@[j]).hitbox.rect,
                        WORLD_BOUND as int,
                    ) && -2 * WORLD_BOUND <= collisions_y@[j].mpv.x <= 2 * WORLD_BOUND && -2
                        * WORLD_BOUND <= collisions_y@[j].mpv.y <= 2 * WORLD_BOUND,
            decreases state.objects.len() - i,
        {
            let o1 = state.objects[i].0;
            proof {
                assert(state@.walls[i as int] == state.objects@[i as int].0.rect);
            }
            if o1.collides(player) {
                let mpv = o1.get_mpv(player);
                let rx = fallback_round(mpv.x, 2);
                if -10_000 < rx && rx < 10_000 {
                    collisions_y.push(Collision { hitbox: o1, mpv });
                } else {
                    let ry = fallback_round(mpv.y, 2);
                    if -10_000 < ry && ry < 10_000 {
                        collisions_x.push(Collision { hitbox: o1, mpv });
                    }
                }
            }
            i += 1;
            proof {
                let pre = state@.walls.subrange(0, i - 1);
                let cur = state@.walls.subrange(0, i as int);
                assert(cur.drop_last() =~= pre);
                assert(cur.last() == state@.walls[i - 1]);
                assert(state@.walls[i - 1] == state.objects@[i - 1].0.rect);
            }
        }
        proof {
            assert(state@.walls.subrange(0, state@.walls.len() as int) =~= state@.walls);
        }
        (collisions_x, collisions_y)
    }

    fn player_can_jump(&self, state: &StaticState, player: &Hitbox) -> (r: bool)
        requires
            wf_world(state@, WORLD_BOUND as int),
            spec_rect_bounded(player.rect, WORLD_BOUND as int),
        ensures
            r == spec_can_jump(state@.walls, player.rect),
    {
        let mut i: usize = 0;
        while i < state.objects.len()
            invariant
                wf_world(state@, WORLD_BOUND as int),
                spec_rect_bounded(player.rect, WORLD_BOUND as int),
                i <= state.objects.len(),
                forall|j: int|
                    0 <= j < i ==> !(spec_collides(#[trigger] state@.walls[j], player.rect)
                        && spec_near_zero_r(spec_mpv(state@.walls[j], player.rect).0) && spec_mpv(
                        state@.walls[j],
                        player.rect,
                    ).1 > 0),
            decreases state.objects.len() - i,
        {
            let o1 = state.objects[i].0;
            proof {
                assert(state@.walls[i as int] == state.objects@[i as int].0.rect);
            }
            if o1.collides(player) {
                let mpv = o1.get_mpv(player);
                let rx = fallback_round(mpv.x, 2);
                if -10_000 < rx && rx < 10_000 && mpv.y > 0 {
                    assert(spec_collides(state@.walls[i as int], player.rect));
                    return true;
                }
            }
            i += 1;
        }
        false
    }
}

// Damage zones.
impl PhysState {
    fn apply_damage(&mut self, state: &StaticState) -> (stopped: bool)
        requires
            old(self).wf(),
            wf_world(state@, WORLD_BOUND as int),
        ensures
            *final(self) == (old(self).spec_apply_damage(state@.damage, 0).0),
            stopped == (old(self).spec_apply_damage(state@.damage, 0).1),
            final(self).wf(),
    {
        let hb = self.player.get_hitbox();
        let mut i: usize = 0;
        while i < state.constant_damage.len()
            invariant
                self.wf(),
                wf_world(state@, WORLD_BOUND as int),
                i <= state.constant_damage.len(),
                hb.rect == self.player.rect,
                old(self).spec_apply_damage(state@.damage, 0) == self.spec_apply_damage(
                    state@.damage,
                    i as int,
                ),
            decreases state.constant_damage.len() - i,
        {
            let (zone, damage) = state.constant_damage[i];
            if zone.collides(&hb) {
                let h = if self.player.health >= damage {
                    self.player.health - damage
                } else {
                    0
                };
                self.player.health = h;
                if h == 0 {
                    self.player.dead = true;
                    return true;
                }
            }
            i += 1;
        }
        false
    }
}

/// Apply one action to a state against a level and hand back the resulting
/// avatar.
pub fn get_transition(
    settings: SearchSettings,
    static_state: StaticState,
    state: PhysState,
    next_move: Move,
    shift_pressed: bool,
) -> (r: PlayerState)
    requires
        state.wf(),
        wf_world(static_state@, WORLD_BOUND as int),
    ensures
        r == state.spec_tick(
            Action { mov: next_move, shift: shift_pressed },
            static_state@,
            settings.allow_damage,
        ).player,
{
    let act = Action { mov: next_move, shift: shift_pressed };
    let mut state = state;
    state.tick(act, &static_state, &settings);
    state.player
}

} // verus!
