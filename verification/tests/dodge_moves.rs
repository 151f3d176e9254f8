//! The forced-death lookahead: the incoming-projectile scenario and the
//! fatality classifier.

use search::dodge::{dodge_search, is_fatal, MAXDEPTH};
use search::env_modifier::EnvModifier;
use search::geometry::{Point, Rectangle};
use search::hitbox::Hitbox;
use search::moves::{Action, Direction, Move};
use search::objects::ObjectType;
use search::physics::PhysState;
use search::player::PlayerState;
use search::settings::{GameMode, SearchSettings};
use search::static_state::StaticState;

fn box_at(x1: i64, x2: i64, y1: i64, y2: i64) -> Hitbox {
    Hitbox::new(Rectangle::new(x1, x2, y1, y2))
}

fn fast_env() -> EnvModifier {
    // the default modifier trebles walking speed, so every scroller move
    // covers 6.9 units per tick
    EnvModifier::new(
        box_at(-10_000_000, 10_000_000, -10_000_000, 10_000_000),
        String::from("default"),
        10_000,
        30_000,
        10_000,
        false,
    )
}

fn player_at(x: i64, y: i64) -> PlayerState {
    PlayerState::new(
        x, y, 0, 0, 23_000, 55_000, 1_000_000, false, Direction::E, false, true, false,
        1_000_000, 10_000, 10_000,
    )
}

fn settings() -> SearchSettings {
    SearchSettings::new(GameMode::Scroller, 5, false, false, Vec::new(), 10_000, false, 64, false)
}

/// A corridor: instant-death strips just above and below the avatar, and a
/// projectile coming in from the left faster than walking speed.  Only
/// running right (the fast default modifier outruns it) survives.
fn corridor_world() -> StaticState {
    let objects = vec![
        (box_at(-2_000_000, 2_000_000, 210_000, 410_000), ObjectType::Ouch()),
        (box_at(-2_000_000, 2_000_000, -470_000, -270_000), ObjectType::Ouch()),
        (box_at(-410_000, -310_000, -100_000, 100_000), ObjectType::Projectile(Point::new(
            50_000,
            0,
        ))),
    ];
    StaticState::new(objects, vec![fast_env()])
}

/// The incoming-projectile scenario: the intended idle move is fatal and
/// running right is the surviving side-step, so the dodge returns exactly
/// that.
#[test]
fn dodge_picks_the_surviving_side_step() {
    let world = corridor_world();
    let s = settings();
    let initial = PhysState::new(player_at(0, 0), s.physics_settings(), &world);
    let (mov, shift) = dodge_search(s, initial, world, Move::NONE, false);
    assert_eq!(mov, Move::D);
    assert_eq!(shift, true);
}

/// A safe intended action is kept unchanged.
#[test]
fn dodge_keeps_a_safe_intended_action() {
    let world = StaticState::new(Vec::new(), vec![fast_env()]);
    let s = settings();
    let initial = PhysState::new(player_at(0, 0), s.physics_settings(), &world);
    let (mov, shift) = dodge_search(s, initial, world, Move::A, false);
    assert_eq!((mov, shift), (Move::A, false));
}

#[test]
fn fatality_classifier_on_world_chains() {
    let s = settings();
    // a hopeless state: idle in front of the projectile with deadly strips
    // all around and walls of death left and right as well
    let objects = vec![
        (box_at(-2_000_000, 2_000_000, 210_000, 410_000), ObjectType::Ouch()),
        (box_at(-2_000_000, 2_000_000, -470_000, -270_000), ObjectType::Ouch()),
        (box_at(-2_000_000, -1_000_000, -100_000, 100_000), ObjectType::Ouch()),
        (box_at(300_000, 2_000_000, -260_000, 200_000), ObjectType::Ouch()),
        (box_at(-410_000, -310_000, -100_000, 100_000), ObjectType::Projectile(Point::new(
            50_000,
            0,
        ))),
    ];
    let world = StaticState::new(objects, vec![fast_env()]);
    let initial = PhysState::new(player_at(0, 0), s.physics_settings(), &world);
    let mut chain = vec![world.step_deadly()];
    for _ in 0..MAXDEPTH {
        chain.push(chain[chain.len() - 1].step_deadly());
    }
    let acts = Action::all_gm(s.mode);
    assert!(is_fatal(&acts, &s, initial, &chain));

    // with the side walls removed and the projectile further out (the
    // classifier starts before the avatar's first move, so the chain is
    // already two steps ahead) the avatar can outrun it
    let open_objects = vec![
        (box_at(-2_000_000, 2_000_000, 210_000, 410_000), ObjectType::Ouch()),
        (box_at(-2_000_000, 2_000_000, -470_000, -270_000), ObjectType::Ouch()),
        (box_at(-610_000, -510_000, -100_000, 100_000), ObjectType::Projectile(Point::new(
            50_000,
            0,
        ))),
    ];
    let open_world = StaticState::new(open_objects, vec![fast_env()]);
    let open_initial = PhysState::new(player_at(0, 0), s.physics_settings(), &open_world);
    let mut open_chain = vec![open_world.step_deadly()];
    for _ in 0..MAXDEPTH {
        open_chain.push(open_chain[open_chain.len() - 1].step_deadly());
    }
    assert!(!is_fatal(&acts, &s, open_initial, &open_chain));
}
