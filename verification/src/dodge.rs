//! Bounded forced-death lookahead.
//!
//! `is_fatal` explores every action sequence up to a fixed horizon against
//! a precomputed chain of worlds whose projectiles advance once per depth,
//! pruning revisited projected states per depth; a state is fatal when no
//! branch survives to the horizon.  `dodge_search` keeps the intended
//! action if it survives and is not fatal, and otherwise picks a surviving
//! non-fatal alternative, preferring one without an up move; with no
//! alternative it falls back to the intended action.  Both are proved to
//! return exactly what their depth-first specification says, so a returned
//! alternative really does survive the lookahead.

use crate::astar::apply_transition;
use crate::moves::{Action, Move};
use crate::physics::{PhysState, WORLD_BOUND};
use crate::settings::SearchSettings;
use crate::state_table::{state_set_insert, state_set_new, state_set_of, StateKey, StateSet};
use crate::static_state::{spec_step_world, wf_world, StaticState, WorldData};
use crate::{POS_LIMIT, VEL_LIMIT};
use rayon::iter::{IndexedParallelIterator, IntoParallelRefIterator, ParallelIterator};
use vstd::pervasive::VecAdditionalExecFns;
use vstd::prelude::*;

verus! {

/// The lookahead horizon, in ticks.
pub const MAXDEPTH: usize = 25;

/// The contents of a stack of per-depth visited sets.
pub open spec fn seen_views(v: Seq<StateSet>) -> Seq<Set<StateKey>> {
    v.map_values(|s: StateSet| state_set_of(s))
}

/// A fresh stack of empty visited sets, one per depth.
pub open spec fn spec_empty_seen() -> Seq<Set<StateKey>> {
    Seq::new(MAXDEPTH as nat, |i: int| Set::empty())
}

/// The worlds a lookahead runs against, as views.
pub open spec fn worlds_of(v: Seq<StaticState>) -> Seq<WorldData> {
    v.map_values(|s: StaticState| s@)
}

/// The world after `k + 1` projectile steps from `w0`.
pub open spec fn spec_chain_world(w0: WorldData, k: nat) -> WorldData
    decreases k,
{
    if k == 0 {
        spec_step_world(w0)
    } else {
        spec_step_world(spec_chain_world(w0, (k - 1) as nat))
    }
}

/// The full world chain of one dodge query: the level with its
/// projectiles advanced once, twice, ..., horizon-plus-one times.
pub open spec fn spec_dodge_worlds(w0: WorldData) -> Seq<WorldData> {
    Seq::new((MAXDEPTH + 1) as nat, |i: int| spec_chain_world(w0, i as nat))
}

/// The depth-first survival search.  At the horizon the branch survives;
/// a projected state already seen at this depth does not; otherwise the
/// state is recorded and its children are explored in action order.  The
/// second component is the visited stack as the search left it.
pub open spec fn spec_dfs(
    allow_damage: bool,
    worlds: Seq<WorldData>,
    acts: Seq<Action>,
    depth: int,
    s: PhysState,
    seen: Seq<Set<StateKey>>,
) -> (bool, Seq<Set<StateKey>>)
    decreases MAXDEPTH as int - depth, 1int, 0int,
{
    if depth < 0 || depth >= MAXDEPTH {
        (true, seen)
    } else if seen[depth].contains(s.spec_key64()) {
        (false, seen)
    } else {
        let seen2 = seen.update(depth, seen[depth].insert(s.spec_key64()));
        spec_dfs_children(allow_damage, worlds, acts, depth, s, 0, seen2)
    }
}

/// The children of one lookahead node, explored left to right: actions
/// forbidden after an up move and actions whose tick kills are skipped;
/// one surviving branch suffices.
pub open spec fn spec_dfs_children(
    allow_damage: bool,
    worlds: Seq<WorldData>,
    acts: Seq<Action>,
    depth: int,
    s: PhysState,
    i: int,
    seen: Seq<Set<StateKey>>,
) -> (bool, Seq<Set<StateKey>>)
    decreases MAXDEPTH as int - depth, 0int, acts.len() - i,
{
    if depth < 0 || depth >= MAXDEPTH {
        (false, seen)
    } else if i < 0 || i >= acts.len() {
        (false, seen)
    } else {
        let a = acts[i];
        if a.mov.spec_is_up() && s.was_step_up_before {
            spec_dfs_children(allow_damage, worlds, acts, depth, s, i + 1, seen)
        } else {
            let n = s.spec_tick(a, worlds[depth + 1], allow_damage);
            if n.player.dead {
                spec_dfs_children(allow_damage, worlds, acts, depth, s, i + 1, seen)
            } else {
                let sub = spec_dfs(allow_damage, worlds, acts, depth + 1, n, seen);
                if sub.0 {
                    (true, sub.1)
                } else {
                    spec_dfs_children(allow_damage, worlds, acts, depth, s, i + 1, sub.1)
                }
            }
        }
    }
}

/// No action sequence from `s` survives to the horizon.
pub open spec fn spec_is_fatal(
    allow_damage: bool,
    worlds: Seq<WorldData>,
    acts: Seq<Action>,
    s: PhysState,
) -> bool {
    !spec_dfs(allow_damage, worlds, acts, 0, s, spec_empty_seen()).0
}

/// Taking `a` now survives the tick and is not followed by a forced death
/// within the horizon.
pub open spec fn spec_survives(
    allow_damage: bool,
    worlds: Seq<WorldData>,
    acts: Seq<Action>,
    s: PhysState,
    a: Action,
) -> bool {
    let n = s.spec_tick(a, worlds[0], allow_damage);
    &&& !n.player.dead
    &&& !spec_is_fatal(allow_damage, worlds, acts, n)
}

/// First action index at or after `i` that is a surviving alternative to
/// the intended action (and, when `non_up_only` is set, not an up move).
pub open spec fn spec_first_safe(
    allow_damage: bool,
    worlds: Seq<WorldData>,
    acts: Seq<Action>,
    s: PhysState,
    cur_act: Action,
    i: int,
    non_up_only: bool,
) -> Option<int>
    decreases acts.len() - i,
{
    if i < 0 || i >= acts.len() {
        None
    } else if acts[i] != cur_act && spec_survives(allow_damage, worlds, acts, s, acts[i]) && (
    !non_up_only || !acts[i].mov.spec_is_up()) {
        Some(i)
    } else {
        spec_first_safe(allow_damage, worlds, acts, s, cur_act, i + 1, non_up_only)
    }
}

/// The alternative a dodge returns when the intended action does not
/// survive: the first surviving non-up alternative in action order, else
/// the first surviving alternative, else the intended action itself.
pub open spec fn spec_dodge_choice(
    allow_damage: bool,
    worlds: Seq<WorldData>,
    acts: Seq<Action>,
    s: PhysState,
    cur_act: Action,
) -> (Move, bool) {
    match spec_first_safe(allow_damage, worlds, acts, s, cur_act, 0, true) {
        Some(i) => (acts[i].mov, acts[i].shift),
        None => match spec_first_safe(allow_damage, worlds, acts, s, cur_act, 0, false) {
            Some(i) => (acts[i].mov, acts[i].shift),
            None => (cur_act.mov, cur_act.shift),
        },
    }
}

fn dfs(
    depth: usize,
    state: &PhysState,
    seen: &mut Vec<StateSet>,
    settings: &SearchSettings,
    static_states: &Vec<StaticState>,
    acts: &Vec<Action>,
) -> (r: bool)
    requires
        depth <= MAXDEPTH,
        old(seen).len() == MAXDEPTH,
        state.wf(),
        static_states.len() == MAXDEPTH + 1,
        forall|d: int|
            0 <= d <= MAXDEPTH ==> wf_world((#[trigger] static_states@[d])@, WORLD_BOUND as int),
    ensures
        final(seen).len() == MAXDEPTH,
        r == spec_dfs(
            settings.allow_damage,
            worlds_of(static_states@),
            acts@,
            depth as int,
            *state,
            seen_views(old(seen)@),
        ).0,
        seen_views(final(seen)@) == spec_dfs(
            settings.allow_damage,
            worlds_of(static_states@),
            acts@,
            depth as int,
            *state,
            seen_views(old(seen)@),
        ).1,
    decreases MAXDEPTH - depth,
{
    if depth == MAXDEPTH {
        return true;
    }
    let key = state.state_key();
    let mut cur = state_set_new();
    seen.set_and_swap(depth, &mut cur);
    let newly = state_set_insert(&mut cur, key);
    seen.set_and_swap(depth, &mut cur);
    let ghost seen1 = seen_views(seen@);
    if !newly {
        proof {
            assert(state_set_of(seen@[depth as int]) =~= seen_views(old(seen)@)[depth as int]);
            assert(seen_views(seen@) =~= seen_views(old(seen)@));
        }
        return false;
    }
    proof {
        assert(seen_views(seen@) =~= seen_views(old(seen)@).update(
            depth as int,
            seen_views(old(seen)@)[depth as int].insert(state.spec_key64()),
        ));
    }
    let ghost w = worlds_of(static_states@);
    let ghost ad = settings.allow_damage;
    let mut j: usize = 0;
    while j < acts.len()
        invariant
            j <= acts.len(),
            depth < MAXDEPTH,
            seen.len() == MAXDEPTH,
            state.wf(),
            static_states.len() == MAXDEPTH + 1,
            forall|d: int|
                0 <= d <= MAXDEPTH ==> wf_world(
                    (#[trigger] static_states@[d])@,
                    WORLD_BOUND as int,
                ),
            w == worlds_of(static_states@),
            ad == settings.allow_damage,
            !seen_views(old(seen)@)[depth as int].contains(state.spec_key64()),
            seen1 == seen_views(old(seen)@).update(
                depth as int,
                seen_views(old(seen)@)[depth as int].insert(state.spec_key64()),
            ),
            spec_dfs_children(ad, w, acts@, depth as int, *state, 0, seen1)
                == spec_dfs_children(ad, w, acts@, depth as int, *state, j as int, seen_views(
                seen@,
            )),
        decreases acts.len() - j,
    {
        let a = acts[j];
        if !(a.mov.is_up() && state.was_step_up_before) {
            let mut n = *state;
            proof {
                assert(w[depth as int + 1] == static_states@[depth as int + 1]@);
            }
            n.tick(a, &static_states[depth + 1], settings);
            if !n.player.dead {
                let sub = dfs(depth + 1, &n, seen, settings, static_states, acts);
                if sub {
                    return true;
                }
            }
        }
        j += 1;
    }
    false
}

/// Whether `initial_state` is certainly dead within the horizon: the
/// depth-first survival search, run on a fresh visited stack.
pub fn is_fatal(
    acts: &Vec<Action>,
    settings: &SearchSettings,
    initial_state: PhysState,
    static_states: &Vec<StaticState>,
) -> (r: bool)
    requires
        initial_state.wf(),
        static_states.len() == MAXDEPTH + 1,
        forall|d: int|
            0 <= d <= MAXDEPTH ==> wf_world((#[trigger] static_states@[d])@, WORLD_BOUND as int),
    ensures
        r == spec_is_fatal(
            settings.allow_damage,
            worlds_of(static_states@),
            acts@,
            initial_state,
        ),
{
    let mut seen: Vec<StateSet> = Vec::new();
    let mut i: usize = 0;
    while i < MAXDEPTH
        invariant
            i <= MAXDEPTH,
            seen.len() == i,
            forall|z: int|
                0 <= z < i ==> forall|k: StateKey|
                    !state_set_of(#[trigger] seen@[z]).contains(k),
        decreases MAXDEPTH - i,
    {
        seen.push(state_set_new());
        i += 1;
    }
    proof {
        assert forall|z: int| 0 <= z < MAXDEPTH implies seen_views(seen@)[z]
            =~= spec_empty_seen()[z] by {}
        assert(seen_views(seen@) =~= spec_empty_seen());
    }
    let survives = dfs(0, &initial_state, &mut seen, settings, static_states, acts);
    !survives
}

fn candidate_ok(
    settings: &SearchSettings,
    initial_state: &PhysState,
    static_states: &Vec<StaticState>,
    acts: &Vec<Action>,
    cur_act: Action,
    act: Action,
) -> (r: bool)
    requires
        initial_state.wf(),
        static_states.len() == MAXDEPTH + 1,
        forall|d: int|
            0 <= d <= MAXDEPTH ==> wf_world((#[trigger] static_states@[d])@, WORLD_BOUND as int),
    ensures
        r == (act != cur_act && spec_survives(
            settings.allow_damage,
            worlds_of(static_states@),
            acts@,
            *initial_state,
            act,
        )),
{
    if act == cur_act {
        return false;
    }
    proof {
        assert(worlds_of(static_states@)[0] == static_states@[0]@);
    }
    let next = apply_transition(settings, *initial_state, &static_states[0], act);
    if next.player.dead {
        return false;
    }
    let fatal = is_fatal(acts, settings, next, static_states);
    !fatal
}

/// Relies on rayon's indexed parallel map over a slice
/// (`par_iter().map(..).collect()`): the closure runs once per candidate
/// action over read-only borrows and the results come back in input
/// order.  The closure only calls the verified `candidate_ok`, so each
/// result is that function's verdict for its action.
#[verifier::external_body]
fn par_candidates(
    settings: &SearchSettings,
    initial_state: &PhysState,
    static_states: &Vec<StaticState>,
    acts: &Vec<Action>,
    cur_act: Action,
) -> (r: Vec<bool>)
    requires
        initial_state.wf(),
        static_states.len() == MAXDEPTH + 1,
        forall|d: int|
            0 <= d <= MAXDEPTH ==> wf_world((#[trigger] static_states@[d])@, WORLD_BOUND as int),
    ensures
        r@.len() == acts@.len(),
        forall|i: int|
            0 <= i < acts@.len() ==> r@[i] == (acts@[i] != cur_act && spec_survives(
                settings.allow_damage,
                worlds_of(static_states@),
                acts@,
                *initial_state,
                acts@[i],
            )),
{
    acts
        .par_iter()
        .map(|a| candidate_ok(settings, initial_state, static_states, acts, cur_act, *a))
        .collect()
}

/// Keep the intended action if it survives the tick and the lookahead;
/// otherwise pick a surviving, non-fatal alternative, preferring one that
/// is not an up move; with no surviving alternative, fall back to the
/// intended action.
pub fn dodge_search(
    settings: SearchSettings,
    initial_state: PhysState,
    static_state: StaticState,
    cur_move: Move,
    shift_pressed: bool,
) -> (r: (Move, bool))
    requires
        initial_state.wf(),
        wf_world(static_state@, POS_LIMIT as int),
    ensures
        ({
            let worlds = spec_dodge_worlds(static_state@);
            let all = Action::spec_all_gm(settings.mode);
            let cur_act = Action { mov: cur_move, shift: shift_pressed };
            let ad = settings.allow_damage;
            &&& spec_survives(ad, worlds, all, initial_state, cur_act) ==> r == (
                cur_move,
                shift_pressed,
            )
            &&& r != (cur_move, shift_pressed) ==> spec_survives(
                ad,
                worlds,
                all,
                initial_state,
                Action { mov: r.0, shift: r.1 },
            )
            &&& (exists|i: int|
                0 <= i < all.len() && (#[trigger] all[i]) != cur_act && spec_survives(
                    ad,
                    worlds,
                    all,
                    initial_state,
                    all[i],
                ) && !all[i].mov.spec_is_up()) ==> (r == (cur_move, shift_pressed)
                || !r.0.spec_is_up())
            &&& (exists|i: int|
                0 <= i < all.len() && (#[trigger] all[i]) != cur_act && spec_survives(
                    ad,
                    worlds,
                    all,
                    initial_state,
                    all[i],
                )) ==> spec_survives(
                ad,
                worlds,
                all,
                initial_state,
                Action { mov: r.0, shift: r.1 },
            )
            &&& !spec_survives(ad, worlds, all, initial_state, cur_act) ==> r
                == spec_dodge_choice(ad, worlds, all, initial_state, cur_act)
        }),
{
    let ghost w0 = static_state@;
    let mut static_states: Vec<StaticState> = Vec::new();
    proof {
        assert forall|i: int| 0 <= i < static_state.proj.len() implies
            crate::geometry::spec_rect_bounded(
                (#[trigger] static_state.proj[i]).rect,
                crate::geometry::GEO_LIMIT as int,
            ) by {
            assert(static_state@.proj[i] == static_state.proj@[i].rect);
        }
        assert forall|i: int| 0 <= i < static_state.proj_v.len() implies
            -crate::geometry::GEO_LIMIT <= (#[trigger] static_state.proj_v[i]).x
                <= crate::geometry::GEO_LIMIT && -crate::geometry::GEO_LIMIT
                <= static_state.proj_v[i].y <= crate::geometry::GEO_LIMIT by {
            assert(static_state@.proj_v[i] == (
                static_state.proj_v@[i].x as int,
                static_state.proj_v@[i].y as int,
            ));
        }
        crate::static_state::lemma_step_world_wf(w0, POS_LIMIT as int);
    }
    let first = static_state.step_deadly();
    static_states.push(first);
    let mut d: usize = 1;
    while d <= MAXDEPTH
        invariant
            1 <= d <= MAXDEPTH + 1,
            w0 == static_state@,
            wf_world(w0, POS_LIMIT as int),
            static_states@.len() == d,
            forall|i: int|
                0 <= i < d ==> (#[trigger] static_states@[i])@ == spec_chain_world(w0, i as nat),
            forall|i: int|
                0 <= i < d ==> wf_world((#[trigger] static_states@[i])@, POS_LIMIT as int + (i
                    + 1) * (VEL_LIMIT as int + 100)),
        decreases MAXDEPTH + 1 - d,
    {
        let prev = &static_states[d - 1];
        proof {
            assert forall|i: int| 0 <= i < prev.proj.len() implies
                crate::geometry::spec_rect_bounded(
                    (#[trigger] prev.proj[i]).rect,
                    crate::geometry::GEO_LIMIT as int,
                ) by {
                assert(prev@.proj[i] == prev.proj@[i].rect);
            }
            assert forall|i: int| 0 <= i < prev.proj_v.len() implies -crate::geometry::GEO_LIMIT
                <= (#[trigger] prev.proj_v[i]).x <= crate::geometry::GEO_LIMIT
                && -crate::geometry::GEO_LIMIT <= prev.proj_v[i].y
                <= crate::geometry::GEO_LIMIT by {
                assert(prev@.proj_v[i] == (prev.proj_v@[i].x as int, prev.proj_v@[i].y as int));
            }
            crate::static_state::lemma_step_world_wf(
                prev@,
                POS_LIMIT as int + (d as int) * (VEL_LIMIT as int + 100),
            );
        }
        let next = static_states[d - 1].step_deadly();
        static_states.push(next);
        d += 1;
    }
    proof {
        assert forall|i: int| 0 <= i <= MAXDEPTH implies wf_world(
            (#[trigger] static_states@[i])@,
            WORLD_BOUND as int,
        ) by {
            crate::static_state::lemma_wf_world_widen(
                static_states@[i]@,
                POS_LIMIT as int + (i + 1) * (VEL_LIMIT as int + 100),
                WORLD_BOUND as int,
            );
        }
        assert(worlds_of(static_states@) =~= spec_dodge_worlds(w0));
    }
    let acts = Action::all_gm(settings.mode);
    let cur_act = Action { mov: cur_move, shift: shift_pressed };
    proof {
        assert(worlds_of(static_states@)[0] == static_states@[0]@);
    }
    let next = apply_transition(&settings, initial_state, &static_states[0], cur_act);
    if !next.player.dead && !is_fatal(&acts, &settings, next, &static_states) {
        return (cur_move, shift_pressed);
    }
    let oks = par_candidates(&settings, &initial_state, &static_states, &acts, cur_act);
    let ghost not_cur_safe = !spec_survives(
        settings.allow_damage,
        spec_dodge_worlds(w0),
        Action::spec_all_gm(settings.mode),
        initial_state,
        cur_act,
    );
    let mut i: usize = 0;
    while i < acts.len()
        invariant
            w0 == static_state@,
            cur_act == (Action { mov: cur_move, shift: shift_pressed }),
            not_cur_safe == !spec_survives(
                settings.allow_damage,
                spec_dodge_worlds(w0),
                Action::spec_all_gm(settings.mode),
                initial_state,
                cur_act,
            ),
            not_cur_safe,
            i <= acts.len(),
            oks@.len() == acts@.len(),
            acts@ == Action::spec_all_gm(settings.mode),
            forall|z: int|
                0 <= z < acts@.len() ==> oks@[z] == ((#[trigger] acts@[z]) != cur_act
                    && spec_survives(
                    settings.allow_damage,
                    spec_dodge_worlds(w0),
                    acts@,
                    initial_state,
                    acts@[z],
                )),
            forall|z: int|
                0 <= z < i ==> !((#[trigger] acts@[z]) != cur_act && spec_survives(
                    settings.allow_damage,
                    spec_dodge_worlds(w0),
                    acts@,
                    initial_state,
                    acts@[z],
                ) && !acts@[z].mov.spec_is_up()),
            spec_first_safe(
                settings.allow_damage,
                spec_dodge_worlds(w0),
                acts@,
                initial_state,
                cur_act,
                0,
                true,
            ) == spec_first_safe(
                settings.allow_damage,
                spec_dodge_worlds(w0),
                acts@,
                initial_state,
                cur_act,
                i as int,
                true,
            ),
        decreases acts.len() - i,
    {
        if oks[i] && !acts[i].mov.is_up() {
            let a = acts[i];
            proof {
                assert(Action { mov: a.mov, shift: a.shift } == a);
                assert(spec_first_safe(
                    settings.allow_damage,
                    spec_dodge_worlds(w0),
                    acts@,
                    initial_state,
                    cur_act,
                    i as int,
                    true,
                ) == Some(i as int));
            }
            return (a.mov, a.shift);
        }
        i += 1;
    }
    let mut i: usize = 0;
    while i < acts.len()
        invariant
            w0 == static_state@,
            cur_act == (Action { mov: cur_move, shift: shift_pressed }),
            not_cur_safe == !spec_survives(
                settings.allow_damage,
                spec_dodge_worlds(w0),
                Action::spec_all_gm(settings.mode),
                initial_state,
                cur_act,
            ),
            not_cur_safe,
            i <= acts.len(),
            oks@.len() == acts@.len(),
            acts@ == Action::spec_all_gm(settings.mode),
            forall|z: int|
                0 <= z < acts@.len() ==> oks@[z] == ((#[trigger] acts@[z]) != cur_act
                    && spec_survives(
                    settings.allow_damage,
                    spec_dodge_worlds(w0),
                    acts@,
                    initial_state,
                    acts@[z],
                )),
            forall|z: int|
                0 <= z < acts@.len() ==> !((#[trigger] acts@[z]) != cur_act && spec_survives(
                    settings.allow_damage,
                    spec_dodge_worlds(w0),
                    acts@,
                    initial_state,
                    acts@[z],
                ) && !acts@[z].mov.spec_is_up()),
            forall|z: int|
                0 <= z < i ==> !((#[trigger] acts@[z]) != cur_act && spec_survives(
                    settings.allow_damage,
                    spec_dodge_worlds(w0),
                    acts@,
                    initial_state,
                    acts@[z],
                )),
            spec_first_safe(
                settings.allow_damage,
                spec_dodge_worlds(w0),
                acts@,
                initial_state,
                cur_act,
                0,
                true,
            ) is None,
            spec_first_safe(
                settings.allow_damage,
                spec_dodge_worlds(w0),
                acts@,
                initial_state,
                cur_act,
                0,
                false,
            ) == spec_first_safe(
                settings.allow_damage,
                spec_dodge_worlds(w0),
                acts@,
                initial_state,
                cur_act,
                i as int,
                false,
            ),
        decreases acts.len() - i,
    {
        if oks[i] {
            let a = acts[i];
            proof {
                assert(Action { mov: a.mov, shift: a.shift } == a);
                assert(spec_first_safe(
                    settings.allow_damage,
                    spec_dodge_worlds(w0),
                    acts@,
                    initial_state,
                    cur_act,
                    i as int,
                    false,
                ) == Some(i as int));
            }
            return (a.mov, a.shift);
        }
        i += 1;
    }
    (cur_move, shift_pressed)
}

} // verus!
