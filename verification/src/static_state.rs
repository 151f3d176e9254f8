//! The immutable per-search level description: solid obstacles, instant
//! death hazards, damage zones, moving projectiles and region modifiers,
//! partitioned once from a flat object list.
//!
//! Contracts speak of the level through its mathematical view
//! ([`WorldData`]), which carries exactly the fields the physics reads.

use crate::env_modifier::EnvModifier;
use crate::geometry::{spec_on_grid, spec_rect_bounded, Point, Rectangle};
use crate::hitbox::Hitbox;
use crate::objects::ObjectType;
use crate::rround::spec_round;
use crate::{HEALTH_LIMIT, MULT_LIMIT, VEL_LIMIT};
use vstd::prelude::*;

verus! {

/// What the physics reads from one region modifier.
pub ghost struct EnvData {
    pub hitbox: Rectangle,
    pub jump_speed: int,
    pub walk_speed: int,
    pub gravity: int,
    pub jump_override: bool,
}

/// The mathematical content of a level.
#[verifier::ext_equal]
pub ghost struct WorldData {
    pub walls: Seq<Rectangle>,
    pub deadly: Seq<Rectangle>,
    pub damage: Seq<(Rectangle, int)>,
    pub proj: Seq<Rectangle>,
    pub proj_v: Seq<(int, int)>,
    pub envs: Seq<EnvData>,
}

pub open spec fn spec_env_data(e: EnvModifier) -> EnvData {
    EnvData {
        hitbox: e.hitbox.rect,
        jump_speed: e.jump_speed as int,
        walk_speed: e.walk_speed as int,
        gravity: e.gravity as int,
        jump_override: e.jump_override,
    }
}

/// Every rectangle of the world is on the grid and within `bound`, every
/// projectile velocity and modifier factor is within its limit, every
/// damage amount is a valid health value, and the modifier list has its
/// default entry at index zero.
pub open spec fn wf_world(w: WorldData, bound: int) -> bool {
    &&& forall|i: int|
        0 <= i < w.walls.len() ==> spec_on_grid(#[trigger] w.walls[i]) && spec_rect_bounded(
            w.walls[i],
            bound,
        )
    &&& forall|i: int|
        0 <= i < w.deadly.len() ==> spec_on_grid(#[trigger] w.deadly[i]) && spec_rect_bounded(
            w.deadly[i],
            bound,
        )
    &&& forall|i: int|
        0 <= i < w.damage.len() ==> spec_on_grid(#[trigger] w.damage[i].0) && spec_rect_bounded(
            w.damage[i].0,
            bound,
        ) && 0 <= w.damage[i].1 <= HEALTH_LIMIT
    &&& forall|i: int|
        0 <= i < w.proj.len() ==> spec_on_grid(#[trigger] w.proj[i]) && spec_rect_bounded(
            w.proj[i],
            bound,
        )
    &&& w.proj_v.len() == w.proj.len()
    &&& forall|i: int|
        0 <= i < w.proj_v.len() ==> -VEL_LIMIT <= (#[trigger] w.proj_v[i]).0 <= VEL_LIMIT
            && -VEL_LIMIT <= w.proj_v[i].1 <= VEL_LIMIT
    &&& w.envs.len() >= 1
    &&& forall|i: int|
        0 <= i < w.envs.len() ==> {
            &&& -MULT_LIMIT <= (#[trigger] w.envs[i]).jump_speed <= MULT_LIMIT
            &&& -MULT_LIMIT <= w.envs[i].walk_speed <= MULT_LIMIT
            &&& -MULT_LIMIT <= w.envs[i].gravity <= MULT_LIMIT
        }
}

/// A bound on a well-formed world can be relaxed.
pub proof fn lemma_wf_world_widen(w: WorldData, b1: int, b2: int)
    requires
        wf_world(w, b1),
        b1 <= b2,
    ensures
        wf_world(w, b2),
{
    assert forall|i: int| 0 <= i < w.walls.len() implies spec_on_grid(#[trigger] w.walls[i])
        && spec_rect_bounded(w.walls[i], b2) by {
        assert(spec_rect_bounded(w.walls[i], b1));
    }
    assert forall|i: int| 0 <= i < w.deadly.len() implies spec_on_grid(#[trigger] w.deadly[i])
        && spec_rect_bounded(w.deadly[i], b2) by {
        assert(spec_rect_bounded(w.deadly[i], b1));
    }
    assert forall|i: int| 0 <= i < w.damage.len() implies spec_on_grid(#[trigger] w.damage[i].0)
        && spec_rect_bounded(w.damage[i].0, b2) && 0 <= w.damage[i].1 <= HEALTH_LIMIT by {
        assert(spec_rect_bounded(w.damage[i].0, b1));
    }
    assert forall|i: int| 0 <= i < w.proj.len() implies spec_on_grid(#[trigger] w.proj[i])
        && spec_rect_bounded(w.proj[i], b2) by {
        assert(spec_rect_bounded(w.proj[i], b1));
    }
}

/// One tick of projectile motion at the view level: every projectile
/// rectangle is offset by its velocity and re-rounded; everything else is
/// unchanged.
pub open spec fn spec_step_world(w: WorldData) -> WorldData {
    WorldData {
        proj: Seq::new(
            w.proj.len(),
            |i: int|
                Rectangle {
                    x1: spec_round(w.proj[i].x1 + w.proj_v[i].0, 2) as i64,
                    x2: spec_round(w.proj[i].x2 + w.proj_v[i].0, 2) as i64,
                    y1: spec_round(w.proj[i].y1 + w.proj_v[i].1, 2) as i64,
                    y2: spec_round(w.proj[i].y2 + w.proj_v[i].1, 2) as i64,
                },
        ),
        ..w
    }
}

/// Advancing a well-formed world keeps it well-formed, with the bound grown
/// by one velocity limit.
pub proof fn lemma_step_world_wf(w: WorldData, bound: int)
    requires
        wf_world(w, bound),
        0 <= bound <= crate::geometry::GEO_LIMIT,
    ensures
        wf_world(spec_step_world(w), bound + VEL_LIMIT + 100),
{
    let s = spec_step_world(w);
    assert forall|i: int| 0 <= i < s.proj.len() implies spec_on_grid(#[trigger] s.proj[i])
        && spec_rect_bounded(s.proj[i], bound + VEL_LIMIT + 100) by {
        crate::rround::lemma_round_is_on_grid(w.proj[i].x1 + w.proj_v[i].0);
        crate::rround::lemma_round_is_on_grid(w.proj[i].x2 + w.proj_v[i].0);
        crate::rround::lemma_round_is_on_grid(w.proj[i].y1 + w.proj_v[i].1);
        crate::rround::lemma_round_is_on_grid(w.proj[i].y2 + w.proj_v[i].1);
        crate::rround::lemma_rhe_near(w.proj[i].x1 + w.proj_v[i].0, 100);
        crate::rround::lemma_rhe_near(w.proj[i].x2 + w.proj_v[i].0, 100);
        crate::rround::lemma_rhe_near(w.proj[i].y1 + w.proj_v[i].1, 100);
        crate::rround::lemma_rhe_near(w.proj[i].y2 + w.proj_v[i].1, 100);
    }
}

/// The hitboxes of the instant-death objects, in input order.
pub open spec fn spec_deadly_of(objs: Seq<(Hitbox, ObjectType)>) -> Seq<Hitbox>
    decreases objs.len(),
{
    if objs.len() == 0 {
        Seq::empty()
    } else {
        let rest = spec_deadly_of(objs.drop_last());
        if objs.last().1.spec_is_deadly() {
            rest.push(objs.last().0)
        } else {
            rest
        }
    }
}

/// The hitboxes of the projectiles, in input order.
pub open spec fn spec_proj_of(objs: Seq<(Hitbox, ObjectType)>) -> Seq<Hitbox>
    decreases objs.len(),
{
    if objs.len() == 0 {
        Seq::empty()
    } else {
        let rest = spec_proj_of(objs.drop_last());
        if objs.last().1 matches ObjectType::Projectile(_) {
            rest.push(objs.last().0)
        } else {
            rest
        }
    }
}

/// The velocities of the projectiles, in input order.
pub open spec fn spec_proj_v_of(objs: Seq<(Hitbox, ObjectType)>) -> Seq<Point>
    decreases objs.len(),
{
    if objs.len() == 0 {
        Seq::empty()
    } else {
        let rest = spec_proj_v_of(objs.drop_last());
        match objs.last().1 {
            ObjectType::Projectile(v) => rest.push(v),
            _ => rest,
        }
    }
}

/// The damage zones with their damage amounts, in input order.
pub open spec fn spec_damage_of(objs: Seq<(Hitbox, ObjectType)>) -> Seq<(Hitbox, i64)>
    decreases objs.len(),
{
    if objs.len() == 0 {
        Seq::empty()
    } else {
        let rest = spec_damage_of(objs.drop_last());
        match objs.last().1 {
            ObjectType::ConstantDamage(d) => rest.push((objs.last().0, d)),
            _ => rest,
        }
    }
}

/// Everything that is neither deadly, a projectile, nor a damage zone: the
/// solid obstacles, in input order.
pub open spec fn spec_walls_of(objs: Seq<(Hitbox, ObjectType)>) -> Seq<(Hitbox, ObjectType)>
    decreases objs.len(),
{
    if objs.len() == 0 {
        Seq::empty()
    } else {
        let rest = spec_walls_of(objs.drop_last());
        let last = objs.last();
        if last.1.spec_is_deadly() || last.1 matches ObjectType::Projectile(_)
            || last.1 matches ObjectType::ConstantDamage(_) {
            rest
        } else {
            rest.push(last)
        }
    }
}

/// Copy a vector of plain values element by element.
fn copy_vec<T: Copy>(v: &Vec<T>) -> (r: Vec<T>)
    ensures
        r@ == v@,
{
    let mut r: Vec<T> = Vec::new();
    let mut i: usize = 0;
    while i < v.len()
        invariant
            i <= v.len(),
            r@ == v@.subrange(0, i as int),
        decreases v.len() - i,
    {
        r.push(v[i]);
        i += 1;
        proof {
            assert(r@ =~= v@.subrange(0, i as int));
        }
    }
    proof {
        assert(r@ =~= v@);
    }
    r
}

/// The level, already partitioned by object category.
#[derive(Debug)]
pub struct StaticState {
    pub objects: Vec<(Hitbox, ObjectType)>,
    pub deadly: Vec<Hitbox>,
    pub constant_damage: Vec<(Hitbox, i64)>,
    pub proj: Vec<Hitbox>,
    pub proj_v: Vec<Point>,
    pub environments: Vec<EnvModifier>,
}

impl View for StaticState {
    type V = WorldData;

    open spec fn view(&self) -> WorldData {
        WorldData {
            walls: self.objects@.map_values(|p: (Hitbox, ObjectType)| p.0.rect),
            deadly: self.deadly@.map_values(|h: Hitbox| h.rect),
            damage: self.constant_damage@.map_values(
                |p: (Hitbox, i64)| (p.0.rect, p.1 as int),
            ),
            proj: self.proj@.map_values(|h: Hitbox| h.rect),
            proj_v: self.proj_v@.map_values(|p: Point| (p.x as int, p.y as int)),
            envs: self.environments@.map_values(|e: EnvModifier| spec_env_data(e)),
        }
    }
}

impl StaticState {
    /// Partition a flat object list: instant-death objects, projectiles and
    /// damage zones each go to their own list, everything else is a solid
    /// obstacle; the modifier list is taken as given.
    pub fn new(objects: Vec<(Hitbox, ObjectType)>, environments: Vec<EnvModifier>) -> (r:
        StaticState)
        ensures
            r.objects@ == spec_walls_of(objects@),
            r.deadly@ == spec_deadly_of(objects@),
            r.constant_damage@ == spec_damage_of(objects@),
            r.proj@ == spec_proj_of(objects@),
            r.proj_v@ == spec_proj_v_of(objects@),
            r.environments == environments,
    {
        let mut deadly: Vec<Hitbox> = Vec::new();
        let mut constant_damage: Vec<(Hitbox, i64)> = Vec::new();
        let mut proj: Vec<Hitbox> = Vec::new();
        let mut proj_v: Vec<Point> = Vec::new();
        let mut other_objects: Vec<(Hitbox, ObjectType)> = Vec::new();
        let mut i: usize = 0;
        while i < objects.len()
            invariant
                i <= objects.len(),
                other_objects@ == spec_walls_of(objects@.subrange(0, i as int)),
                deadly@ == spec_deadly_of(objects@.subrange(0, i as int)),
                constant_damage@ == spec_damage_of(objects@.subrange(0, i as int)),
                proj@ == spec_proj_of(objects@.subrange(0, i as int)),
                proj_v@ == spec_proj_v_of(objects@.subrange(0, i as int)),
            decreases objects.len() - i,
        {
            let (hitbox, t) = objects[i];
            match t {
                ObjectType::Ouch() | ObjectType::SpikeOuch() | ObjectType::Portal()
                    | ObjectType::Warp() => {
                    deadly.push(hitbox);
                },
                ObjectType::Projectile(v) => {
                    proj.push(hitbox);
                    proj_v.push(v);
                },
                ObjectType::ConstantDamage(damage) => {
                    constant_damage.push((hitbox, damage));
                },
                _ => {
                    other_objects.push((hitbox, t));
                },
            }
            i += 1;
            proof {
                let pre = objects@.subrange(0, i - 1);
                let cur = objects@.subrange(0, i as int);
                assert(cur.drop_last() =~= pre);
                assert(cur.last() == objects@[i - 1]);
            }
        }
        proof {
            assert(objects@.subrange(0, objects@.len() as int) =~= objects@);
        }
        StaticState { objects: other_objects, deadly, constant_damage, proj, proj_v, environments }
    }

    /// A copy of the level with every projectile advanced one tick along its
    /// velocity; obstacles, hazards, damage zones and modifiers unchanged.
    pub fn step_deadly(&self) -> (r: StaticState)
        requires
            self.proj_v.len() == self.proj.len(),
            forall|i: int|
                0 <= i < self.proj.len() ==> spec_rect_bounded(
                    (#[trigger] self.proj[i]).rect,
                    crate::geometry::GEO_LIMIT as int,
                ),
            forall|i: int|
                0 <= i < self.proj_v.len() ==> -crate::geometry::GEO_LIMIT <= (
                #[trigger] self.proj_v[i]).x <= crate::geometry::GEO_LIMIT
                    && -crate::geometry::GEO_LIMIT <= self.proj_v[i].y
                    <= crate::geometry::GEO_LIMIT,
        ensures
            r@ == spec_step_world(self@),
            r.environments@.len() == self.environments@.len(),
            forall|i: int|
                0 <= i < self.environments@.len() ==> (#[trigger] r.environments@[i]).name@
                    == self.environments@[i].name@,
    {
        let mut proj: Vec<Hitbox> = Vec::new();
        let mut i: usize = 0;
        while i < self.proj.len()
            invariant
                i <= self.proj.len(),
                self.proj_v.len() == self.proj.len(),
                forall|j: int|
                    0 <= j < self.proj.len() ==> spec_rect_bounded(
                        (#[trigger] self.proj[j]).rect,
                        crate::geometry::GEO_LIMIT as int,
                    ),
                forall|j: int|
                    0 <= j < self.proj_v.len() ==> -crate::geometry::GEO_LIMIT <= (
                    #[trigger] self.proj_v[j]).x <= crate::geometry::GEO_LIMIT
                        && -crate::geometry::GEO_LIMIT <= self.proj_v[j].y
                        <= crate::geometry::GEO_LIMIT,
                proj@.len() == i,
                forall|j: int| 0 <= j < i ==> (#[trigger] proj@[j]).rect == spec_step_world(
                    self@,
                ).proj[j],
            decreases self.proj.len() - i,
        {
            let vel = self.proj_v[i];
            let moved = self.proj[i].rect.offset(vel.x, vel.y);
            proj.push(Hitbox::new(moved));
            i += 1;
        }
        let r = StaticState {
            objects: copy_vec(&self.objects),
            deadly: copy_vec(&self.deadly),
            constant_damage: copy_vec(&self.constant_damage),
            proj,
            proj_v: copy_vec(&self.proj_v),
            environments: clone_environments(&self.environments),
        };
        proof {
            assert(r@.proj =~= spec_step_world(self@).proj);
            assert(r@.envs =~= spec_step_world(self@).envs);
            assert(r@.walls =~= spec_step_world(self@).walls);
            assert(r@.deadly =~= spec_step_world(self@).deadly);
            assert(r@.damage =~= spec_step_world(self@).damage);
            assert(r@.proj_v =~= spec_step_world(self@).proj_v);
            assert(r@ =~= spec_step_world(self@));
        }
        r
    }
}

/// Copy a modifier list; the copy carries the same data and names.
fn clone_environments(v: &Vec<EnvModifier>) -> (r: Vec<EnvModifier>)
    ensures
        r@.len() == v@.len(),
        forall|i: int|
            0 <= i < v@.len() ==> spec_env_data(#[trigger] r@[i]) == spec_env_data(v@[i])
                && r@[i].name@ == v@[i].name@,
{
    let mut r: Vec<EnvModifier> = Vec::new();
    let mut i: usize = 0;
    while i < v.len()
        invariant
            i <= v.len(),
            r@.len() == i,
            forall|j: int|
                0 <= j < i ==> spec_env_data(#[trigger] r@[j]) == spec_env_data(v@[j]) && r@[j].name@
                    == v@[j].name@,
        decreases v.len() - i,
    {
        let e = &v[i];
        r.push(
            EnvModifier {
                hitbox: e.hitbox,
                name: e.name.clone(),
                jump_speed: e.jump_speed,
                walk_speed: e.walk_speed,
                gravity: e.gravity,
                jump_override: e.jump_override,
            },
        );
        i += 1;
    }
    r
}

} // verus!
