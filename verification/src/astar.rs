//! Batched best-first search over physics states.
//!
//! The search keeps an arena of reached states.  Every arena entry except
//! the root records the action and predecessor it was reached by, and is
//! proved to be one physics tick away from that predecessor.  Any path the
//! search returns is therefore sound: replaying its actions from the
//! initial state with the physics transition reproduces the recorded
//! avatar states, never passes through a dead state, and ends within the
//! target precision of the target ([`astar_search`]'s contract).
//!
//! Each round drains the cheapest open entries sequentially, expands them
//! in parallel against read-only snapshots, and merges the results
//! sequentially, exactly in the drained order.

use crate::moves::{Action, Move};
use crate::physics::{PhysState, PLAYER_JUMP_SPEED, PLAYER_MOVEMENT_SPEED, WORLD_BOUND};
use crate::player::PlayerState;
use crate::settings::{GameMode, SearchSettings};
use crate::state_table::{state_map_get, state_map_insert, state_map_new, state_map_of, StateKey,
    StateMap};
use crate::static_state::{wf_world, StaticState, WorldData};
use crate::{MULT_LIMIT, SCALE};
use rayon::iter::{IndexedParallelIterator, IntoParallelRefIterator, ParallelIterator};
use vstd::math::abs;
use vstd::prelude::*;

verus! {

/// How close (in raw steps, per axis) a state must come to the target to
/// count as reaching it: sixteen units.
pub const TARGET_PRECISION: i64 = 160_000;

/// Largest tick count the search will ever record; far beyond any
/// reachable depth, it only guards the tick arithmetic.
pub const TICKS_CAP: i64 = 1_000_000_000_000;

#[verifier::external_type_specification]
#[verifier::external_body]
pub struct ExInstant(std::time::Instant);

/// Relies on std::time::Instant::now for the wall clock; nothing is
/// assumed about the value it returns.
#[verifier::external_body]
fn instant_now() -> (r: std::time::Instant) {
    std::time::Instant::now()
}

/// Relies on std::time::Instant::elapsed; the result depends on the clock,
/// so nothing is assumed about it.
#[verifier::external_body]
fn elapsed_secs(start: &std::time::Instant) -> (r: u64) {
    start.elapsed().as_secs()
}

/// One open-set entry: estimated total cost (in `1/SCALE` ticks), the tick
/// count, and the arena index of the state to expand.
#[derive(Clone, Copy, Debug)]
pub struct SearchNode {
    pub cost: i64,
    pub ticks: i64,
    pub idx: usize,
}

/// One reached state: how it was reached (predecessor arena index and
/// action) and in how many ticks.  The root is its own predecessor.
#[derive(Clone, Copy, Debug)]
pub struct ArenaNode {
    pub state: PhysState,
    pub ticks: i64,
    pub prev: usize,
    pub act: Action,
}

/// One neighbor produced by a parallel expansion, waiting to be merged.
#[derive(Clone, Copy, Debug)]
pub struct ExpandResult {
    pub prev: usize,
    pub ticks: i64,
    pub f_score: i64,
    pub act: Action,
    pub next: PhysState,
}

/// The arena is a sound search tree: entry 0 is the initial state and
/// every other entry is one non-fatal physics tick away from its (earlier)
/// predecessor, with the tick count one more than the predecessor's.
#[verifier::opaque]
pub open spec fn arena_ok(
    arena: Seq<ArenaNode>,
    initial: PhysState,
    w: WorldData,
    allow_damage: bool,
) -> bool {
    &&& arena.len() >= 1
    &&& arena[0].state == initial
    &&& arena[0].ticks == 0
    &&& forall|i: int|
        0 <= i < arena.len() ==> (#[trigger] arena[i]).state.wf() && 0 <= arena[i].ticks
            <= TICKS_CAP
    &&& forall|i: int|
        1 <= i < arena.len() ==> {
            let n = #[trigger] arena[i];
            &&& n.prev < i
            &&& n.state == arena[n.prev as int].state.spec_tick(n.act, w, allow_damage)
            &&& !n.state.player.dead
            &&& n.ticks == arena[n.prev as int].ticks + 1
        }
}

/// What the arena records about one entry.
pub proof fn lemma_arena_node(
    arena: Seq<ArenaNode>,
    initial: PhysState,
    w: WorldData,
    allow_damage: bool,
    i: int,
)
    requires
        arena_ok(arena, initial, w, allow_damage),
        0 <= i < arena.len(),
    ensures
        arena[i].state.wf(),
        0 <= arena[i].ticks <= TICKS_CAP,
        i == 0 ==> arena[0].state == initial && arena[0].ticks == 0,
        i >= 1 ==> arena[i].prev < i && arena[i].state == arena[arena[i].prev as int]
            .state.spec_tick(arena[i].act, w, allow_damage) && !arena[i].state.player.dead
            && arena[i].ticks == arena[arena[i].prev as int].ticks + 1,
{
    reveal(arena_ok);
}

/// Appending a node that extends a recorded entry by one surviving tick
/// keeps the arena sound.
#[verifier::rlimit(100)]
pub proof fn lemma_arena_push(
    arena: Seq<ArenaNode>,
    initial: PhysState,
    w: WorldData,
    allow_damage: bool,
    node: ArenaNode,
)
    requires
        arena_ok(arena, initial, w, allow_damage),
        node.prev < arena.len(),
        node.state == arena[node.prev as int].state.spec_tick(node.act, w, allow_damage),
        !node.state.player.dead,
        node.ticks == arena[node.prev as int].ticks + 1,
        node.state.wf(),
        node.ticks <= TICKS_CAP,
    ensures
        arena_ok(arena.push(node), initial, w, allow_damage),
{
    reveal(arena_ok);
    let a2 = arena.push(node);
    assert forall|i: int| 0 <= i < a2.len() implies (#[trigger] a2[i]).state.wf() && 0 <= a2[i]
        .ticks <= TICKS_CAP by {
        if i < arena.len() {
            assert(a2[i] == arena[i]);
        }
    }
    assert forall|i: int| 1 <= i < a2.len() implies {
        let n = #[trigger] a2[i];
        &&& n.prev < i
        &&& n.state == a2[n.prev as int].state.spec_tick(n.act, w, allow_damage)
        &&& !n.state.player.dead
        &&& n.ticks == a2[n.prev as int].ticks + 1
    } by {
        if i < arena.len() {
            assert(a2[i] == arena[i]);
            assert(a2[arena[i].prev as int] == arena[arena[i].prev as int]);
        } else {
            assert(a2[i] == node);
            assert(a2[node.prev as int] == arena[node.prev as int]);
        }
    }
}

/// The state after replaying `path`'s actions from `s`.
pub open spec fn spec_run_end(
    w: WorldData,
    allow_damage: bool,
    s: PhysState,
    path: Seq<(Move, bool, PlayerState)>,
) -> PhysState
    decreases path.len(),
{
    if path.len() == 0 {
        s
    } else {
        spec_run_end(
            w,
            allow_damage,
            s.spec_tick(Action { mov: path[0].0, shift: path[0].1 }, w, allow_damage),
            path.drop_first(),
        )
    }
}

/// Replaying `path` from `s` never passes through a dead state and each
/// entry records exactly the avatar its tick produced.
pub open spec fn spec_run_valid(
    w: WorldData,
    allow_damage: bool,
    s: PhysState,
    path: Seq<(Move, bool, PlayerState)>,
) -> bool
    decreases path.len(),
{
    if path.len() == 0 {
        true
    } else {
        let n = s.spec_tick(Action { mov: path[0].0, shift: path[0].1 }, w, allow_damage);
        &&& !n.player.dead
        &&& path[0].2 == n.player
        &&& spec_run_valid(w, allow_damage, n, path.drop_first())
    }
}

/// Appending one step extends the replay by one tick.
pub proof fn lemma_run_push(
    w: WorldData,
    allow_damage: bool,
    s: PhysState,
    path: Seq<(Move, bool, PlayerState)>,
    step: (Move, bool, PlayerState),
)
    ensures
        spec_run_end(w, allow_damage, s, path.push(step)) == spec_run_end(
            w,
            allow_damage,
            s,
            path,
        ).spec_tick(Action { mov: step.0, shift: step.1 }, w, allow_damage),
        spec_run_valid(w, allow_damage, s, path.push(step)) <==> (spec_run_valid(
            w,
            allow_damage,
            s,
            path,
        ) && !spec_run_end(w, allow_damage, s, path).spec_tick(
            Action { mov: step.0, shift: step.1 },
            w,
            allow_damage,
        ).player.dead && step.2 == spec_run_end(w, allow_damage, s, path).spec_tick(
            Action { mov: step.0, shift: step.1 },
            w,
            allow_damage,
        ).player),
    decreases path.len(),
{
    reveal_with_fuel(spec_run_end, 3);
    reveal_with_fuel(spec_run_valid, 3);
    if path.len() == 0 {
        assert(path.push(step).drop_first() =~= path);
        assert(path.push(step)[0] == step);
    } else {
        let n = s.spec_tick(Action { mov: path[0].0, shift: path[0].1 }, w, allow_damage);
        lemma_run_push(w, allow_damage, n, path.drop_first(), step);
        assert(path.push(step).drop_first() =~= path.drop_first().push(step));
        assert(path.push(step)[0] == path[0]);
    }
}

/// The heuristic: the larger of the two per-axis straight-line tick
/// estimates, scaled by the heuristic weight.  Measured in `1/SCALE`
/// ticks.
pub open spec fn spec_heuristic(
    settings: SearchSettings,
    target: PlayerState,
    current: PlayerState,
) -> int {
    let y_speed: int = if settings.mode == GameMode::Platformer {
        PLAYER_JUMP_SPEED as int
    } else {
        PLAYER_MOVEMENT_SPEED as int
    };
    let dx = abs(target.x - current.x) as int;
    let dy = abs(target.y - current.y) as int;
    let xt = dx * (SCALE as int) / (PLAYER_MOVEMENT_SPEED as int);
    let yt = dy * (SCALE as int) / y_speed;
    let m = if xt >= yt {
        xt
    } else {
        yt
    };
    m * settings.heuristic_weight / (SCALE as int)
}

fn heuristic(settings: &SearchSettings, target_state: &PlayerState, current_state: &PlayerState)
    -> (r: i64)
    requires
        target_state.wf(),
        current_state.wf(),
        0 <= settings.heuristic_weight <= MULT_LIMIT,
    ensures
        r as int == spec_heuristic(*settings, *target_state, *current_state),
        0 <= r <= 1_000_000_000_000_000_000,
{
    let y_speed: u64 = if settings.mode == GameMode::Platformer {
        PLAYER_JUMP_SPEED as u64
    } else {
        PLAYER_MOVEMENT_SPEED as u64
    };
    let dxi: i64 = target_state.x - current_state.x;
    let dyi: i64 = target_state.y - current_state.y;
    let dx: u64 = (if dxi < 0 {
        -dxi
    } else {
        dxi
    }) as u64;
    let dy: u64 = (if dyi < 0 {
        -dyi
    } else {
        dyi
    }) as u64;
    let xt: u64 = dx * (SCALE as u64) / (PLAYER_MOVEMENT_SPEED as u64);
    let yt: u64 = dy * (SCALE as u64) / y_speed;
    proof {
        crate::rround::lemma_div_decomposition(dx as int * (SCALE as int), 23_000);
        crate::rround::lemma_div_decomposition(dy as int * (SCALE as int), y_speed as int);
    }
    let m: u64 = if xt >= yt {
        xt
    } else {
        yt
    };
    proof {
        assert(xt as int <= 9_000_000_000_000);
        assert(yt as int <= 9_000_000_000_000);
        assert(m as int * (settings.heuristic_weight as int) <= 9_000_000_000_000_000_000)
            by (nonlinear_arith)
            requires
                0 <= m as int <= 9_000_000_000_000,
                0 <= settings.heuristic_weight as int <= 1_000_000,
        ;
    }
    let hw: u64 = m * (settings.heuristic_weight as u64) / (SCALE as u64);
    proof {
        crate::rround::lemma_div_decomposition(
            m as int * (settings.heuristic_weight as int),
            SCALE as int,
        );
    }
    hw as i64
}

/// The shift states a search may press, as the settings dictate.
pub open spec fn spec_shift_variants(settings: SearchSettings) -> Seq<bool> {
    if settings.always_shift {
        seq![true]
    } else if settings.disable_shift {
        seq![false]
    } else {
        seq![false, true]
    }
}

/// The actions one move contributes for one shift state.  In platformer
/// mode a shifted move without a horizontal component is inferior to the
/// unshifted one: under an always-shift policy the shift is dropped,
/// otherwise the variant is skipped entirely.
pub open spec fn spec_action_variant(settings: SearchSettings, m: Move, sv: bool) -> Seq<Action> {
    if settings.mode == GameMode::Platformer && sv && m.spec_is_only_vertical() {
        if settings.always_shift {
            seq![Action { mov: m, shift: false }]
        } else {
            Seq::empty()
        }
    } else {
        seq![Action { mov: m, shift: sv }]
    }
}

/// The action set a search draws from: every allowed move paired with
/// every allowed shift state, minus the redundant shifted vertical moves.
pub open spec fn spec_allowed_actions(settings: SearchSettings) -> Seq<Action> {
    Move::spec_all(settings).flat_map(
        |m: Move|
            spec_shift_variants(settings).flat_map(
                |sv: bool| spec_action_variant(settings, m, sv),
            ),
    )
}

fn shift_variants(settings: &SearchSettings) -> (r: Vec<bool>)
    ensures
        r@ == spec_shift_variants(*settings),
{
    let mut r: Vec<bool> = Vec::new();
    if settings.always_shift {
        r.push(true);
    } else if settings.disable_shift {
        r.push(false);
    } else {
        r.push(false);
        r.push(true);
    }
    proof {
        assert(r@ =~= spec_shift_variants(*settings));
    }
    r
}

pub fn allowed_actions(settings: &SearchSettings) -> (r: Vec<Action>)
    ensures
        r@ == spec_allowed_actions(*settings),
{
    let variants = shift_variants(settings);
    let allowed_moves = Move::all(settings);
    let ghost inner = |m: Move|
        spec_shift_variants(*settings).flat_map(
            |sv: bool| spec_action_variant(*settings, m, sv),
        );
    let mut r: Vec<Action> = Vec::new();
    let mut i: usize = 0;
    while i < allowed_moves.len()
        invariant
            i <= allowed_moves.len(),
            variants@ == spec_shift_variants(*settings),
            allowed_moves@ == Move::spec_all(*settings),
            inner == (|m: Move|
                spec_shift_variants(*settings).flat_map(
                    |sv: bool| spec_action_variant(*settings, m, sv),
                )),
            r@ == allowed_moves@.subrange(0, i as int).flat_map(inner),
        decreases allowed_moves.len() - i,
    {
        let m = allowed_moves[i];
        let ghost before = r@;
        let mut j: usize = 0;
        while j < variants.len()
            invariant
                j <= variants.len(),
                variants@ == spec_shift_variants(*settings),
                r@ == before + variants@.subrange(0, j as int).flat_map(
                    |sv: bool| spec_action_variant(*settings, m, sv),
                ),
            decreases variants.len() - j,
        {
            let sv = variants[j];
            if settings.mode == GameMode::Platformer && sv && m.is_only_vertical() {
                if settings.always_shift {
                    r.push(Action { mov: m, shift: false });
                }
            } else {
                r.push(Action { mov: m, shift: sv });
            }
            j += 1;
            proof {
                let f = |sv: bool| spec_action_variant(*settings, m, sv);
                let pre = variants@.subrange(0, j - 1);
                let cur = variants@.subrange(0, j as int);
                assert(cur =~= pre.push(variants@[j - 1]));
                pre.lemma_flat_map_push(f, variants@[j - 1]);
                assert(r@ =~= before + (pre.flat_map(f) + f(variants@[j - 1])));
            }
        }
        i += 1;
        proof {
            assert(variants@.subrange(0, variants@.len() as int) =~= variants@);
            let pre = allowed_moves@.subrange(0, i - 1);
            let cur = allowed_moves@.subrange(0, i as int);
            assert(cur =~= pre.push(allowed_moves@[i - 1]));
            pre.lemma_flat_map_push(inner, allowed_moves@[i - 1]);
            assert(r@ =~= pre.flat_map(inner) + inner(allowed_moves@[i - 1]));
        }
    }
    proof {
        assert(allowed_moves@.subrange(0, allowed_moves@.len() as int) =~= allowed_moves@);
    }
    r
}

/// Apply one action to a state and hand back the resulting state.
pub fn apply_transition(
    settings: &SearchSettings,
    state: PhysState,
    static_state: &StaticState,
    act: Action,
) -> (r: PhysState)
    requires
        state.wf(),
        wf_world(static_state@, WORLD_BOUND as int),
    ensures
        r == state.spec_tick(act, static_state@, settings.allow_damage),
        r.wf(),
{
    let mut neighbor_state = state;
    neighbor_state.tick(act, static_state, settings);
    neighbor_state
}

/// The neighbors of `s` under `acts`: every action that is not an up move
/// right after an up move, applied once, keeping the survivors.
pub open spec fn spec_transitions(
    s: PhysState,
    w: WorldData,
    allow_damage: bool,
    acts: Seq<Action>,
) -> Seq<(Action, PhysState)>
    decreases acts.len(),
{
    if acts.len() == 0 {
        Seq::empty()
    } else {
        let rest = spec_transitions(s, w, allow_damage, acts.drop_last());
        let a = acts.last();
        if a.mov.spec_is_up() && s.was_step_up_before {
            rest
        } else {
            let n = s.spec_tick(a, w, allow_damage);
            if n.player.dead {
                rest
            } else {
                rest.push((a, n))
            }
        }
    }
}

pub fn transitions(
    settings: &SearchSettings,
    state: &PhysState,
    static_state: &StaticState,
    acts: &Vec<Action>,
) -> (r: Vec<(Action, PhysState)>)
    requires
        state.wf(),
        wf_world(static_state@, WORLD_BOUND as int),
    ensures
        r@ == spec_transitions(*state, static_state@, settings.allow_damage, acts@),
        forall|j: int| 0 <= j < r@.len() ==> (#[trigger] r@[j]).1.wf(),
{
    let mut r: Vec<(Action, PhysState)> = Vec::new();
    let mut i: usize = 0;
    while i < acts.len()
        invariant
            i <= acts.len(),
            state.wf(),
            wf_world(static_state@, WORLD_BOUND as int),
            r@ == spec_transitions(
                *state,
                static_state@,
                settings.allow_damage,
                acts@.subrange(0, i as int),
            ),
            forall|j: int| 0 <= j < r@.len() ==> (#[trigger] r@[j]).1.wf(),
        decreases acts.len() - i,
    {
        let a = acts[i];
        if !(a.mov.is_up() && state.was_step_up_before) {
            let mut neighbor = *state;
            neighbor.tick(a, static_state, settings);
            if !neighbor.player.dead {
                r.push((a, neighbor));
            }
        }
        i += 1;
        proof {
            let pre = acts@.subrange(0, i - 1);
            let cur = acts@.subrange(0, i as int);
            assert(cur.drop_last() =~= pre);
            assert(cur.last() == acts@[i - 1]);
        }
    }
    proof {
        assert(acts@.subrange(0, acts@.len() as int) =~= acts@);
    }
    r
}

/// The neighbors one drained entry contributes, after the staleness
/// pre-filter against the best-tick map snapshot.
pub open spec fn spec_expand(
    settings: SearchSettings,
    w: WorldData,
    g: Map<StateKey, usize>,
    arena: Seq<ArenaNode>,
    target: PhysState,
    acts: Seq<Action>,
    item: SearchNode,
) -> Seq<ExpandResult> {
    let s = arena[item.idx as int].state;
    let k = s.spec_key64();
    if g.dom().contains(k) && g[k] < arena.len() && arena[g[k] as int].ticks < item.ticks {
        Seq::empty()
    } else {
        spec_expand_list(settings, w, g, arena, s, item.ticks, item.idx, target, acts)
    }
}

/// The per-action expansion: skip forbidden and fatal actions, pre-filter
/// against the best-tick snapshot, and price the rest.
#[verifier::opaque]
pub open spec fn spec_expand_list(
    settings: SearchSettings,
    w: WorldData,
    g: Map<StateKey, usize>,
    arena: Seq<ArenaNode>,
    s: PhysState,
    ticks: i64,
    pi: usize,
    target: PhysState,
    acts: Seq<Action>,
) -> Seq<ExpandResult>
    decreases acts.len(),
{
    if acts.len() == 0 {
        Seq::empty()
    } else {
        let rest = spec_expand_list(
            settings,
            w,
            g,
            arena,
            s,
            ticks,
            pi,
            target,
            acts.drop_last(),
        );
        let a = acts.last();
        if a.mov.spec_is_up() && s.was_step_up_before {
            rest
        } else {
            let n = s.spec_tick(a, w, settings.allow_damage);
            if n.player.dead {
                rest
            } else {
                let nk = n.spec_key64();
                if g.dom().contains(nk) && g[nk] < arena.len() && ticks + 1 >= arena[g[nk] as int]
                    .ticks {
                    rest
                } else {
                    rest.push(
                        ExpandResult {
                            prev: pi,
                            ticks: ticks,
                            f_score: ((ticks + 1) * (SCALE as int) + spec_heuristic(
                                settings,
                                target.player,
                                n.player,
                            )) as i64,
                            act: a,
                            next: n,
                        },
                    )
                }
            }
        }
    }
}

/// Every produced neighbor records its real predecessor, that
/// predecessor's tick count, and the surviving state one tick produces.
pub proof fn lemma_expand_list_good(
    settings: SearchSettings,
    w: WorldData,
    g: Map<StateKey, usize>,
    arena: Seq<ArenaNode>,
    s: PhysState,
    ticks: i64,
    pi: usize,
    target: PhysState,
    acts: Seq<Action>,
)
    ensures
        forall|j: int|
            0 <= j < spec_expand_list(settings, w, g, arena, s, ticks, pi, target, acts).len()
                ==> {
                let er = #[trigger] spec_expand_list(
                    settings,
                    w,
                    g,
                    arena,
                    s,
                    ticks,
                    pi,
                    target,
                    acts,
                )[j];
                &&& er.prev == pi
                &&& er.ticks == ticks
                &&& er.next == s.spec_tick(er.act, w, settings.allow_damage)
                &&& !er.next.player.dead
            },
    decreases acts.len(),
{
    reveal(spec_expand_list);
    if acts.len() > 0 {
        lemma_expand_list_good(settings, w, g, arena, s, ticks, pi, target, acts.drop_last());
    }
}

fn expand_one(
    settings: &SearchSettings,
    static_state: &StaticState,
    acts: &Vec<Action>,
    target_state: &PhysState,
    g: &StateMap,
    arena: &Vec<ArenaNode>,
    item: &SearchNode,
) -> (r: Vec<ExpandResult>)
    requires
        wf_world(static_state@, WORLD_BOUND as int),
        target_state.wf(),
        0 <= settings.heuristic_weight <= MULT_LIMIT,
        item.idx < arena.len(),
        0 <= item.ticks <= TICKS_CAP,
        forall|i: int| 0 <= i < arena.len() ==> (#[trigger] arena@[i]).state.wf(),
        map_ok(state_map_of(*g), arena@.len() as int),
    ensures
        r@ == spec_expand(
            *settings,
            static_state@,
            state_map_of(*g),
            arena@,
            *target_state,
            acts@,
            *item,
        ),
        forall|j: int| 0 <= j < r@.len() ==> (#[trigger] r@[j]).next.wf(),
{
    let s = arena[item.idx].state;
    let skey = s.state_key();
    let stale = match state_map_get(g, skey) {
        Some(j) => arena[j].ticks < item.ticks,
        None => false,
    };
    if stale {
        return Vec::new();
    }
    let mut r: Vec<ExpandResult> = Vec::new();
    let mut i: usize = 0;
    proof {
        reveal(spec_expand_list);
    }
    while i < acts.len()
        invariant
            i <= acts.len(),
            wf_world(static_state@, WORLD_BOUND as int),
            target_state.wf(),
            0 <= settings.heuristic_weight <= MULT_LIMIT,
            item.idx < arena.len(),
            0 <= item.ticks <= TICKS_CAP,
            forall|z: int| 0 <= z < arena.len() ==> (#[trigger] arena@[z]).state.wf(),
            map_ok(state_map_of(*g), arena@.len() as int),
            s == arena@[item.idx as int].state,
            r@ == spec_expand_list(
                *settings,
                static_state@,
                state_map_of(*g),
                arena@,
                s,
                item.ticks,
                item.idx,
                *target_state,
                acts@.subrange(0, i as int),
            ),
            forall|j: int| 0 <= j < r@.len() ==> (#[trigger] r@[j]).next.wf(),
        decreases acts.len() - i,
    {
        let a = acts[i];
        if !(a.mov.is_up() && s.was_step_up_before) {
            let mut n = s;
            n.tick(a, static_state, settings);
            if !n.player.dead {
                let nk = n.state_key();
                let skip = match state_map_get(g, nk) {
                    Some(j) => item.ticks + 1 >= arena[j].ticks,
                    None => false,
                };
                if !skip {
                    let h = heuristic(settings, &target_state.player, &n.player);
                    let f = (item.ticks + 1) * SCALE + h;
                    r.push(
                        ExpandResult {
                            prev: item.idx,
                            ticks: item.ticks,
                            f_score: f,
                            act: a,
                            next: n,
                        },
                    );
                }
            }
        }
        i += 1;
        proof {
            reveal(spec_expand_list);
            let pre = acts@.subrange(0, i - 1);
            let cur = acts@.subrange(0, i as int);
            assert(cur.drop_last() =~= pre);
            assert(cur.last() == acts@[i - 1]);
        }
    }
    proof {
        assert(acts@.subrange(0, acts@.len() as int) =~= acts@);
    }
    r
}

/// Relies on rayon's indexed parallel map over a slice
/// (`par_iter().map(..).collect()`): the closure runs once per drained
/// entry over read-only borrows and the results are collected in input
/// order.  The closure only calls the verified `expand_one`, so each
/// result is that function's result for its entry.
#[verifier::external_body]
fn par_expand(
    settings: &SearchSettings,
    static_state: &StaticState,
    acts: &Vec<Action>,
    target_state: &PhysState,
    g: &StateMap,
    arena: &Vec<ArenaNode>,
    items: &Vec<SearchNode>,
) -> (r: Vec<Vec<ExpandResult>>)
    requires
        wf_world(static_state@, WORLD_BOUND as int),
        target_state.wf(),
        0 <= settings.heuristic_weight <= MULT_LIMIT,
        forall|i: int| 0 <= i < arena.len() ==> (#[trigger] arena@[i]).state.wf(),
        map_ok(state_map_of(*g), arena@.len() as int),
        forall|i: int|
            0 <= i < items.len() ==> (#[trigger] items@[i]).idx < arena.len() && 0 <= items@[i]
                .ticks <= TICKS_CAP,
    ensures
        r@.len() == items@.len(),
        forall|i: int|
            0 <= i < items@.len() ==> (#[trigger] r@[i])@ == spec_expand(
                *settings,
                static_state@,
                state_map_of(*g),
                arena@,
                *target_state,
                acts@,
                items@[i],
            ),
        forall|i: int, j: int|
            0 <= i < r@.len() && 0 <= j < r@[i]@.len() ==> (#[trigger] r@[i]@[j]).next.wf(),
{
    items
        .par_iter()
        .map(|it| expand_one(settings, static_state, acts, target_state, g, arena, it))
        .collect()
}

/// Every recorded arena index in the map is a valid index.
pub open spec fn map_ok(g: Map<StateKey, usize>, n: int) -> bool {
    forall|k: StateKey| g.dom().contains(k) ==> #[trigger] g[k] < n
}

/// Every open entry points into the arena and carries that entry's tick
/// count.
pub open spec fn open_ok(open: Seq<SearchNode>, arena: Seq<ArenaNode>) -> bool {
    forall|j: int|
        0 <= j < open.len() ==> (#[trigger] open[j]).idx < arena.len() && open[j].ticks
            == arena[open[j].idx as int].ticks
}

/// Remove and return an entry of minimal cost, if the open set is not
/// empty; the rest of the set is untouched apart from reordering.
fn pop_min(open: &mut Vec<SearchNode>) -> (r: Option<SearchNode>)
    ensures
        old(open).len() == 0 ==> r is None && *final(open) == *old(open),
        old(open).len() > 0 ==> {
            &&& r matches Some(n)
            &&& old(open)@.contains(r.unwrap())
            &&& final(open)@.len() == old(open)@.len() - 1
            &&& forall|j: int|
                0 <= j < final(open)@.len() ==> old(open)@.contains(#[trigger] final(open)@[j])
            &&& forall|j: int|
                0 <= j < final(open)@.len() ==> r.unwrap().cost <= (#[trigger] final(open)@[j]).cost
        },
{
    if open.len() == 0 {
        return None;
    }
    let mut best: usize = 0;
    let mut i: usize = 1;
    while i < open.len()
        invariant
            open.len() > 0,
            best < i,
            i <= open.len(),
            forall|j: int| 0 <= j < i ==> open@[best as int].cost <= (#[trigger] open@[j]).cost,
        decreases open.len() - i,
    {
        if open[i].cost < open[best].cost {
            best = i;
        }
        i += 1;
    }
    let ghost before = open@;
    let n = open.swap_remove(best);
    proof {
        assert(before.contains(n)) by {
            assert(before[best as int] == n);
        }
        assert forall|j: int| 0 <= j < open@.len() implies before.contains(#[trigger] open@[j])
            && n.cost <= open@[j].cost by {
            if j == best {
                assert(before[before.len() - 1] == open@[j]);
            } else {
                assert(before[j] == open@[j]);
            }
        }
    }
    Some(n)
}

/// Merge one produced neighbor: return the finished path if it reaches the
/// target, otherwise record it (arena, best-tick map, open set) unless a
/// tick count at least as good is already recorded for its key.
fn merge_result(
    arena: &mut Vec<ArenaNode>,
    g_score: &mut StateMap,
    open_set: &mut Vec<SearchNode>,
    er: ExpandResult,
    target_state: &PhysState,
    Ghost(w): Ghost<WorldData>,
    Ghost(ad): Ghost<bool>,
    Ghost(initial): Ghost<PhysState>,
) -> (r: Option<Vec<(Move, bool, PlayerState)>>)
    requires
        arena_ok(old(arena)@, initial, w, ad),
        map_ok(state_map_of(*old(g_score)), old(arena)@.len() as int),
        open_ok(old(open_set)@, old(arena)@),
        target_state.wf(),
        er.prev < old(arena)@.len(),
        er.ticks == old(arena)@[er.prev as int].ticks,
        er.next == old(arena)@[er.prev as int].state.spec_tick(er.act, w, ad),
        !er.next.player.dead,
        er.next.wf(),
    ensures
        arena_ok(final(arena)@, initial, w, ad),
        map_ok(state_map_of(*final(g_score)), final(arena)@.len() as int),
        open_ok(final(open_set)@, final(arena)@),
        final(arena)@.len() >= old(arena)@.len(),
        forall|z: int| 0 <= z < old(arena)@.len() ==> #[trigger] final(arena)@[z] == old(arena)@[z],
        r matches Some(path) ==> {
            &&& path@.len() >= 1
            &&& spec_run_valid(w, ad, initial, path@)
            &&& spec_run_end(w, ad, initial, path@).spec_close_enough(
                *target_state,
                TARGET_PRECISION as int,
            )
        },
{
    if er.next.close_enough(target_state, TARGET_PRECISION) {
        let mut moves = reconstruct_path(arena, er.prev, Ghost(w), Ghost(ad), Ghost(initial));
        proof {
            lemma_run_push(w, ad, initial, moves@, (er.act.mov, er.act.shift, er.next.player));
            assert(Action { mov: er.act.mov, shift: er.act.shift } == er.act);
        }
        moves.push((er.act.mov, er.act.shift, er.next.player));
        return Some(moves);
    }
    proof {
        lemma_arena_node(arena@, initial, w, ad, er.prev as int);
    }
    if er.ticks < TICKS_CAP {
        let nt = er.ticks + 1;
        let nk = er.next.state_key();
        let skip = match state_map_get(g_score, nk) {
            Some(j) => nt >= arena[j].ticks,
            None => false,
        };
        if !skip {
            let new_idx = arena.len();
            let node = ArenaNode { state: er.next, ticks: nt, prev: er.prev, act: er.act };
            proof {
                lemma_arena_push(arena@, initial, w, ad, node);
            }
            arena.push(node);
            state_map_insert(g_score, nk, new_idx);
            open_set.push(SearchNode { cost: er.f_score, ticks: nt, idx: new_idx });
        }
    }
    None
}

/// Best-first search from `initial_state` to within [`TARGET_PRECISION`]
/// of `target_state`.
///
/// Any returned path is sound: replaying its actions tick by tick from the
/// initial state reproduces exactly the recorded avatar states, never
/// passes through a dead state, and ends close enough to the target.  A
/// `None` means the timeout elapsed or the open set was exhausted.
pub fn astar_search(
    settings: SearchSettings,
    initial_state: PhysState,
    target_state: PhysState,
    static_state: StaticState,
) -> (r: Option<Vec<(Move, bool, PlayerState)>>)
    requires
        initial_state.wf(),
        target_state.wf(),
        wf_world(static_state@, WORLD_BOUND as int),
        0 <= settings.heuristic_weight <= MULT_LIMIT,
    ensures
        r matches Some(path) ==> {
            &&& path@.len() >= 1
            &&& spec_run_valid(static_state@, settings.allow_damage, initial_state, path@)
            &&& spec_run_end(
                static_state@,
                settings.allow_damage,
                initial_state,
                path@,
            ).spec_close_enough(target_state, TARGET_PRECISION as int)
        },
{
    let ghost w = static_state@;
    let ghost ad = settings.allow_damage;
    let mut arena: Vec<ArenaNode> = Vec::new();
    arena.push(
        ArenaNode {
            state: initial_state,
            ticks: 0,
            prev: 0,
            act: Action { mov: Move::NONE, shift: false },
        },
    );
    proof {
        reveal(arena_ok);
        assert(arena_ok(arena@, initial_state, w, ad));
    }
    let mut g_score = state_map_new();
    let ikey = initial_state.state_key();
    state_map_insert(&mut g_score, ikey, 0);
    let h0 = heuristic(&settings, &target_state.player, &initial_state.player);
    let mut open_set: Vec<SearchNode> = Vec::new();
    open_set.push(SearchNode { cost: h0, ticks: 0, idx: 0 });
    let acts = allowed_actions(&settings);
    let start = instant_now();
    let mut rounds: u64 = 0;
    while rounds < 1_000_000_000_000_000_000
        invariant
            initial_state.wf(),
            target_state.wf(),
            wf_world(w, WORLD_BOUND as int),
            w == static_state@,
            ad == settings.allow_damage,
            0 <= settings.heuristic_weight <= MULT_LIMIT,
            arena_ok(arena@, initial_state, w, ad),
            map_ok(state_map_of(g_score), arena@.len() as int),
            open_ok(open_set@, arena@),
        decreases 1_000_000_000_000_000_000 - rounds,
    {
        rounds += 1;
        if elapsed_secs(&start) > settings.timeout {
            return None;
        }
        let mut to_process: Vec<SearchNode> = Vec::new();
        loop
            invariant
                arena_ok(arena@, initial_state, w, ad),
                open_ok(open_set@, arena@),
                open_ok(to_process@, arena@),
            decreases open_set.len(),
        {
            if to_process.len() >= settings.state_batch_size {
                break;
            }
            match pop_min(&mut open_set) {
                None => { break; },
                Some(n) => {
                    proof {
                        assert(open_ok(to_process@.push(n), arena@));
                    }
                    to_process.push(n);
                },
            }
        }
        if to_process.len() == 0 {
            return None;
        }
        proof {
            assert forall|i: int| 0 <= i < arena@.len() implies (
            #[trigger] arena@[i]).state.wf() by {
                lemma_arena_node(arena@, initial_state, w, ad, i);
            }
            assert forall|i: int| 0 <= i < to_process@.len() implies (
            #[trigger] to_process@[i]).idx < arena.len() && 0 <= to_process@[i].ticks
                <= TICKS_CAP by {
                lemma_arena_node(arena@, initial_state, w, ad, to_process@[i].idx as int);
            }
        }
        let results = par_expand(
            &settings,
            &static_state,
            &acts,
            &target_state,
            &g_score,
            &arena,
            &to_process,
        );
        let ghost old_arena = arena@;
        let ghost old_gmap = state_map_of(g_score);
        let mut bi: usize = 0;
        while bi < results.len()
            invariant
                initial_state.wf(),
                target_state.wf(),
                wf_world(w, WORLD_BOUND as int),
                w == static_state@,
                ad == settings.allow_damage,
                0 <= settings.heuristic_weight <= MULT_LIMIT,
                arena_ok(arena@, initial_state, w, ad),
                map_ok(state_map_of(g_score), arena@.len() as int),
                open_ok(open_set@, arena@),
                arena@.len() >= old_arena.len(),
                forall|z: int| 0 <= z < old_arena.len() ==> #[trigger] arena@[z] == old_arena[z],
                results@.len() == to_process@.len(),
                forall|z: int|
                    0 <= z < to_process@.len() ==> (#[trigger] to_process@[z]).idx
                        < old_arena.len() && to_process@[z].ticks == old_arena[to_process@[z].idx
                        as int].ticks,
                forall|z: int|
                    0 <= z < results@.len() ==> (#[trigger] results@[z])@ == spec_expand(
                        settings,
                        w,
                        old_gmap,
                        old_arena,
                        target_state,
                        acts@,
                        to_process@[z],
                    ),
                forall|z: int, y: int|
                    0 <= z < results@.len() && 0 <= y < results@[z]@.len() ==> (
                    #[trigger] results@[z]@[y]).next.wf(),
            decreases results.len() - bi,
        {
            let ghost item = to_process@[bi as int];
            proof {
                lemma_expand_list_good(
                    settings,
                    w,
                    old_gmap,
                    old_arena,
                    old_arena[item.idx as int].state,
                    item.ticks,
                    item.idx,
                    target_state,
                    acts@,
                );
            }
            let batch_len = results[bi].len();
            let mut ei: usize = 0;
            while ei < batch_len
                invariant
                    initial_state.wf(),
                    target_state.wf(),
                    wf_world(w, WORLD_BOUND as int),
                    w == static_state@,
                    ad == settings.allow_damage,
                    arena_ok(arena@, initial_state, w, ad),
                    map_ok(state_map_of(g_score), arena@.len() as int),
                    open_ok(open_set@, arena@),
                    arena@.len() >= old_arena.len(),
                    forall|z: int|
                        0 <= z < old_arena.len() ==> #[trigger] arena@[z] == old_arena[z],
                    bi < results@.len(),
                    batch_len == results@[bi as int]@.len(),
                    item.idx < old_arena.len(),
                    item.ticks == old_arena[item.idx as int].ticks,
                    forall|y: int|
                        0 <= y < results@[bi as int]@.len() ==> {
                            let er = #[trigger] results@[bi as int]@[y];
                            &&& er.prev == item.idx
                            &&& er.ticks == item.ticks
                            &&& er.next == old_arena[item.idx as int].state.spec_tick(
                                er.act,
                                w,
                                ad,
                            )
                            &&& !er.next.player.dead
                            &&& er.next.wf()
                        },
                decreases batch_len - ei,
            {
                let er = results[bi][ei];
                let found = merge_result(
                    &mut arena,
                    &mut g_score,
                    &mut open_set,
                    er,
                    &target_state,
                    Ghost(w),
                    Ghost(ad),
                    Ghost(initial_state),
                );
                if let Some(path) = found {
                    return Some(path);
                }
                ei += 1;
            }
            bi += 1;
        }
    }
    None
}

/// Walk the predecessor chain of arena entry `k` back to the root and hand
/// out the actions and recorded avatars, in forward order.
fn reconstruct_path(
    arena: &Vec<ArenaNode>,
    k: usize,
    Ghost(w): Ghost<WorldData>,
    Ghost(ad): Ghost<bool>,
    Ghost(initial): Ghost<PhysState>,
) -> (path: Vec<(Move, bool, PlayerState)>)
    requires
        arena_ok(arena@, initial, w, ad),
        k < arena.len(),
    ensures
        spec_run_valid(w, ad, initial, path@),
        spec_run_end(w, ad, initial, path@) == arena@[k as int].state,
    decreases k,
{
    proof {
        lemma_arena_node(arena@, initial, w, ad, k as int);
        lemma_arena_node(arena@, initial, w, ad, 0);
    }
    if k == 0 {
        let path: Vec<(Move, bool, PlayerState)> = Vec::new();
        return path;
    }
    let node = arena[k];
    let mut path = reconstruct_path(arena, node.prev, Ghost(w), Ghost(ad), Ghost(initial));
    proof {
        lemma_run_push(w, ad, initial, path@, (node.act.mov, node.act.shift, node.state.player));
        assert(Action { mov: node.act.mov, shift: node.act.shift } == node.act);
    }
    path.push((node.act.mov, node.act.shift, node.state.player));
    path
}

} // verus!
