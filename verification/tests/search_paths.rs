//! The best-first search: the flat-platform scenario, path replay, and the
//! allowed-action sets.

use search::astar::{allowed_actions, apply_transition, astar_search, transitions};
use search::env_modifier::EnvModifier;
use search::geometry::Rectangle;
use search::hitbox::Hitbox;
use search::moves::{Action, Direction, Move};
use search::objects::ObjectType;
use search::physics::PhysState;
use search::player::PlayerState;
use search::settings::{GameMode, SearchSettings};
use search::static_state::StaticState;

fn box_at(x1: i64, x2: i64, y1: i64, y2: i64) -> Hitbox {
    Hitbox::new(Rectangle::new(x1, x2, y1, y2))
}

fn default_env() -> EnvModifier {
    EnvModifier::new(
        box_at(-10_000_000, 10_000_000, -10_000_000, 10_000_000),
        String::from("default"),
        10_000,
        10_000,
        10_000,
        false,
    )
}

fn player_at(x: i64, y: i64) -> PlayerState {
    PlayerState::new(
        x, y, 0, 0, 23_000, 55_000, 1_000_000, false, Direction::E, false, true, false,
        1_000_000, 10_000, 10_000,
    )
}

fn settings() -> SearchSettings {
    SearchSettings::new(GameMode::Platformer, 5, false, false, Vec::new(), 10_000, true, 256, false)
}

fn platform_world() -> StaticState {
    let objects = vec![(box_at(-1_000_000, 1_000_000, -360_000, -260_000), ObjectType::Wall())];
    StaticState::new(objects, vec![default_env()])
}

/// An avatar on a flat platform with the target straight above within jump
/// range: the search must return a short path ending within sixteen units
/// of the target on both axes.
#[test]
fn jump_to_target_above() {
    let world = platform_world();
    let s = settings();
    let initial = PhysState::new(player_at(0, 0), s.physics_settings(), &world);
    let target = PhysState::new(player_at(0, 900_000), s.physics_settings(), &world);
    let path = astar_search(s, initial, target, platform_world());
    let path = path.expect("a path to a target within jump range");
    assert!(path.len() >= 1);
    assert!(path.len() <= 60);
    let last = path[path.len() - 1].2;
    assert!((last.x - 0).abs() <= 160_000, "x = {}", last.x);
    assert!((last.y - 900_000).abs() <= 160_000, "y = {}", last.y);
}

/// Replaying a returned path action by action through the transition
/// reproduces exactly the recorded avatar states, with nobody dying.
#[test]
fn returned_path_replays_tick_by_tick() {
    let world = platform_world();
    let s = settings();
    let initial = PhysState::new(player_at(0, 0), s.physics_settings(), &world);
    let target = PhysState::new(player_at(300_000, 0), s.physics_settings(), &world);
    let path = astar_search(s.clone(), initial, target, platform_world())
        .expect("a path to a nearby target");
    let mut state = initial;
    for (mov, shift, recorded) in path {
        state = apply_transition(&s, state, &world, Action { mov, shift });
        assert!(!state.player.dead);
        assert_eq!(state.player, recorded);
    }
    assert!((state.player.x - 300_000).abs() <= 160_000);
    assert!((state.player.y - 0).abs() <= 160_000);
}

#[test]
fn allowed_actions_filter_shifted_vertical_moves() {
    // platformer, both shift states: every move twice, except the two
    // vertical-only moves whose shifted variant is dropped
    let s = settings();
    let acts = allowed_actions(&s);
    assert_eq!(acts.len(), 10);
    assert!(!acts.contains(&Action { mov: Move::NONE, shift: true }));
    assert!(!acts.contains(&Action { mov: Move::W, shift: true }));
    assert!(acts.contains(&Action { mov: Move::WD, shift: true }));

    let mut always = settings();
    always.always_shift = true;
    let acts = allowed_actions(&always);
    assert_eq!(acts.len(), 6);
    assert!(acts.contains(&Action { mov: Move::NONE, shift: false }));
    assert!(acts.contains(&Action { mov: Move::W, shift: false }));
    assert!(acts.contains(&Action { mov: Move::A, shift: true }));

    let mut scroller = settings();
    scroller.mode = GameMode::Scroller;
    assert_eq!(allowed_actions(&scroller).len(), 18);

    let mut restricted = settings();
    restricted.allowed_moves = vec![Move::A, Move::D];
    restricted.disable_shift = true;
    let acts = allowed_actions(&restricted);
    assert_eq!(acts.len(), 2);
    assert!(acts.contains(&Action { mov: Move::A, shift: false }));
    assert!(acts.contains(&Action { mov: Move::D, shift: false }));
}

#[test]
fn transitions_filter_deaths_and_repeated_up() {
    let world = platform_world();
    let s = settings();
    let initial = PhysState::new(player_at(0, 0), s.physics_settings(), &world);
    let acts = allowed_actions(&s);
    let neigh = transitions(&s, &initial, &world, &acts);
    // nothing kills here, so every allowed action survives
    assert_eq!(neigh.len(), acts.len());
    let mut up_state = initial;
    up_state.was_step_up_before = true;
    let neigh_up = transitions(&s, &up_state, &world, &acts);
    // the five up actions (unshifted W, and WA and WD in both shift
    // states) are suppressed right after an up move
    assert_eq!(neigh_up.len(), acts.len() - 5);
}
