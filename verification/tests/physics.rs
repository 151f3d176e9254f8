//! The one-tick transition: determinism, jumping, gravity, stamina,
//! hazards, damage and region modifiers.  All quantities are raw
//! fixed-point steps of 1/10_000 of a unit.

use search::env_modifier::EnvModifier;
use search::geometry::{Point, Rectangle};
use search::hitbox::Hitbox;
use search::moves::{Direction, Move};
use search::objects::ObjectType;
use search::physics::{get_transition, PhysState};
use search::player::PlayerState;
use search::settings::{GameMode, SearchSettings};
use search::static_state::StaticState;

fn box_at(x1: i64, x2: i64, y1: i64, y2: i64) -> Hitbox {
    Hitbox::new(Rectangle::new(x1, x2, y1, y2))
}

fn default_env() -> EnvModifier {
    EnvModifier::new(
        box_at(-10_000_000, 10_000_000, -10_000_000, 10_000_000),
        String::from("default"),
        10_000,
        10_000,
        10_000,
        false,
    )
}

fn player_at(x: i64, y: i64) -> PlayerState {
    PlayerState::new(
        x, y, 0, 0, 23_000, 55_000, 1_000_000, false, Direction::E, false, true, false,
        1_000_000, 10_000, 10_000,
    )
}

fn settings(mode: GameMode) -> SearchSettings {
    SearchSettings::new(mode, 5, false, false, Vec::new(), 10_000, false, 64, false)
}

fn platform_world() -> StaticState {
    // a flat platform whose top edge touches the avatar's feet at y = 0
    let objects = vec![(box_at(-1_000_000, 1_000_000, -360_000, -260_000), ObjectType::Wall())];
    StaticState::new(objects, vec![default_env()])
}

#[test]
fn advance_is_deterministic() {
    let world = platform_world();
    let s = settings(GameMode::Platformer);
    let st = PhysState::new(player_at(0, 0), s.physics_settings(), &world);
    let a = get_transition(settings(GameMode::Platformer), world, st, Move::WD, true);
    let world2 = platform_world();
    let b = get_transition(settings(GameMode::Platformer), world2, st, Move::WD, true);
    assert_eq!(a, b);
}

#[test]
fn jump_from_platform_sets_velocity_and_air() {
    let world = platform_world();
    let s = settings(GameMode::Platformer);
    let after = get_transition(s, world, PhysState::new(
        player_at(0, 0),
        settings(GameMode::Platformer).physics_settings(),
        &platform_world(),
    ), Move::W, false);
    // jumped: moved up by the jump speed, then gravity trimmed the velocity
    assert_eq!(after.y, 55_000);
    assert_eq!(after.vy, 54_000);
    assert!(after.in_the_air);
    assert!(!after.dead);
}

#[test]
fn repeated_up_is_suppressed() {
    let world = platform_world();
    let s = settings(GameMode::Platformer);
    let mut st = PhysState::new(player_at(0, 0), s.physics_settings(), &world);
    st.tick(search::moves::Action { mov: Move::W, shift: false }, &world, &s);
    let y1 = st.player.y;
    assert!(st.was_step_up_before);
    // the second W must not re-trigger the jump velocity
    st.tick(search::moves::Action { mov: Move::W, shift: false }, &world, &s);
    assert_eq!(st.player.y - y1, st.player.vy + 1_000);
    assert!(st.was_step_up_before);
}

#[test]
fn walking_moves_by_walk_speed() {
    let world = platform_world();
    let s = settings(GameMode::Platformer);
    let st = PhysState::new(player_at(0, 0), s.physics_settings(), &world);
    let after = get_transition(s, platform_world(), st, Move::D, false);
    assert_eq!(after.x, 23_000);
    let after_l = get_transition(settings(GameMode::Platformer), world, st, Move::A, false);
    assert_eq!(after_l.x, -23_000);
}

#[test]
fn sprint_consumes_stamina_and_scales_speed() {
    let world = platform_world();
    let s = settings(GameMode::Platformer);
    let mut player = player_at(0, 0);
    player.speed_multiplier = 20_000;  // 2x
    let st = PhysState::new(player, s.physics_settings(), &world);
    let after = get_transition(s, world, st, Move::D, true);
    assert_eq!(after.x, 46_000);
    assert!(after.running);
    assert_eq!(after.stamina, 995_000);
}

#[test]
fn stamina_regenerates_up_to_cap() {
    let world = platform_world();
    let s = settings(GameMode::Platformer);
    let mut player = player_at(0, 0);
    player.stamina = 994_000;
    let st = PhysState::new(player, s.physics_settings(), &world);
    let after = get_transition(s.clone(), platform_world(), st, Move::NONE, false);
    assert_eq!(after.stamina, 999_000);
    let mut player2 = player_at(0, 0);
    player2.stamina = 998_000;
    let st2 = PhysState::new(player2, s.physics_settings(), &world);
    let after2 = get_transition(s, world, st2, Move::NONE, false);
    assert_eq!(after2.stamina, 1_000_000);
}

#[test]
fn free_fall_accelerates_downward() {
    // no platform at all: the avatar falls
    let world = StaticState::new(Vec::new(), vec![default_env()]);
    let s = settings(GameMode::Platformer);
    let mut st = PhysState::new(player_at(0, 0), s.physics_settings(), &world);
    st.tick(search::moves::Action { mov: Move::NONE, shift: false }, &world, &s);
    assert!(st.player.in_the_air);
    assert_eq!(st.player.vy, -1_000);
    assert_eq!(st.player.y, 0);
    st.tick(search::moves::Action { mov: Move::NONE, shift: false }, &world, &s);
    assert_eq!(st.player.y, -1_000);
    assert_eq!(st.player.vy, -2_000);
}

#[test]
fn landing_snaps_to_the_surface() {
    let world = platform_world();
    let s = settings(GameMode::Platformer);
    // start slightly above the platform, falling fast
    let mut player = player_at(0, 40_000);
    player.vy = -100_000;
    player.in_the_air = true;
    let mut st = PhysState::new(player, s.physics_settings(), &world);
    st.player.vy = -100_000;
    st.player.in_the_air = true;
    st.tick(search::moves::Action { mov: Move::NONE, shift: false }, &world, &s);
    // feet end exactly on the platform top (y1 = y - 26 units = -260_000)
    assert_eq!(st.player.y, 0);
    assert!(!st.player.in_the_air);
    assert_eq!(st.player.vy, 0);
}

#[test]
fn deadly_object_kills() {
    let objects = vec![(box_at(200_000, 400_000, -260_000, 200_000), ObjectType::SpikeOuch())];
    let world = StaticState::new(objects, vec![default_env()]);
    let s = settings(GameMode::Scroller);
    let st = PhysState::new(player_at(0, 0), s.physics_settings(), &world);
    // one step to the right walks into the hazard
    let after = get_transition(s, world, st, Move::D, false);
    assert!(after.dead);
}

#[test]
fn projectile_kills_before_the_move() {
    let objects = vec![
        (box_at(-300_000, -250_000, -100_000, 100_000), ObjectType::Projectile(Point::new(
            50_000,
            0,
        ))),
    ];
    let world = StaticState::new(objects, vec![default_env()]);
    let s = settings(GameMode::Scroller);
    let st = PhysState::new(player_at(-200_000, 0), s.physics_settings(), &world);
    let after = get_transition(s, world, st, Move::D, false);
    assert!(after.dead);
}

#[test]
fn damage_zone_reduces_health_and_kills_at_zero() {
    let objects = vec![(box_at(-100_000, 100_000, -260_000, 200_000), ObjectType::ConstantDamage(
        300_000,
    ))];
    let world = StaticState::new(objects, vec![default_env()]);
    let mut s = settings(GameMode::Scroller);
    s.allow_damage = true;
    let st = PhysState::new(player_at(0, 0), s.physics_settings(), &world);
    let after = get_transition(s.clone(), StaticState::new(
        vec![(box_at(-100_000, 100_000, -260_000, 200_000), ObjectType::ConstantDamage(300_000))],
        vec![default_env()],
    ), st, Move::NONE, false);
    assert_eq!(after.health, 700_000);
    assert!(!after.dead);
    // a zone that removes everything kills
    let objects2 = vec![(box_at(-100_000, 100_000, -260_000, 200_000), ObjectType::ConstantDamage(
        1_000_000,
    ))];
    let world2 = StaticState::new(objects2, vec![default_env()]);
    let st2 = PhysState::new(player_at(0, 0), s.physics_settings(), &world2);
    let after2 = get_transition(s, world2, st2, Move::NONE, false);
    assert_eq!(after2.health, 0);
    assert!(after2.dead);
}

#[test]
fn region_modifier_rescales_speeds() {
    // a non-default modifier covering the avatar triples walking speed;
    // a far-away modifier sits in between so the detection index differs
    // from the remembered default
    let far = EnvModifier::new(
        box_at(5_000_000, 6_000_000, 5_000_000, 6_000_000),
        String::from("far"),
        10_000,
        10_000,
        10_000,
        false,
    );
    let zone = EnvModifier::new(
        box_at(-1_000_000, 1_000_000, -1_000_000, 1_000_000),
        String::from("fast"),
        10_000,
        30_000,
        10_000,
        false,
    );
    let world = StaticState::new(Vec::new(), vec![default_env(), far, zone]);
    let s = settings(GameMode::Scroller);
    let st = PhysState::new(player_at(0, 0), s.physics_settings(), &world);
    assert_eq!(st.player.base_vx, 69_000);
    let after = get_transition(s, world, st, Move::D, false);
    assert_eq!(after.x, 69_000);
}

#[test]
fn close_enough_uses_per_axis_precision() {
    let world = StaticState::new(Vec::new(), vec![default_env()]);
    let s = settings(GameMode::Scroller);
    let a = PhysState::new(player_at(0, 0), s.physics_settings(), &world);
    let b = PhysState::new(player_at(150_000, -150_000), s.physics_settings(), &world);
    assert!(a.close_enough(&b, 160_000));
    assert!(!a.close_enough(&b, 140_000));
}

#[test]
fn partition_splits_object_categories() {
    let wall = box_at(0, 100_000, 0, 100_000);
    let ouch = box_at(1, 2, 3, 4);
    let proj = box_at(5, 6, 7, 8);
    let zone = box_at(9, 10, 11, 12);
    let objects = vec![
        (wall, ObjectType::Wall()),
        (ouch, ObjectType::Ouch()),
        (proj, ObjectType::Projectile(Point::new(50_000, -10_000))),
        (zone, ObjectType::ConstantDamage(123)),
        (ouch, ObjectType::Portal()),
    ];
    let world = StaticState::new(objects, vec![default_env()]);
    assert_eq!(world.objects.len(), 1);
    assert_eq!(world.deadly.len(), 2);
    assert_eq!(world.proj.len(), 1);
    assert_eq!(world.proj_v.len(), 1);
    assert_eq!(world.constant_damage.len(), 1);
    assert_eq!(world.constant_damage[0].1, 123);
    assert_eq!(world.proj_v[0], Point::new(50_000, -10_000));
}

#[test]
fn step_deadly_moves_projectiles_only() {
    let wall = box_at(0, 100_000, 0, 100_000);
    let proj = box_at(-300_000, -250_000, -100_000, 100_000);
    let objects = vec![
        (wall, ObjectType::Wall()),
        (proj, ObjectType::Projectile(Point::new(50_000, -10_000))),
    ];
    let world = StaticState::new(objects, vec![default_env()]);
    let stepped = world.step_deadly();
    assert_eq!(stepped.objects.len(), 1);
    assert_eq!(stepped.objects[0].0, wall);
    assert_eq!(stepped.proj[0].rect.x1, -250_000);
    assert_eq!(stepped.proj[0].rect.x2, -200_000);
    assert_eq!(stepped.proj[0].rect.y1, -110_000);
    assert_eq!(stepped.proj[0].rect.y2, 90_000);
    // velocities and the original are untouched
    assert_eq!(stepped.proj_v[0], Point::new(50_000, -10_000));
    assert_eq!(world.proj[0].rect.x1, -300_000);
}

#[test]
fn state_key_projects_by_settings() {
    let world = StaticState::new(Vec::new(), vec![default_env()]);
    let mut s = settings(GameMode::Platformer);
    s.simple_geometry = true;
    let mut st = PhysState::new(player_at(123_449, -123_450), s.physics_settings(), &world);
    st.player.vy = 15_000;
    let k = st.state_key();
    // the constructor first rounds to hundredths (123_449 -> 123_400),
    // then the key coarsens to tenths with ties away from zero
    assert_eq!(k.0, 123_000);
    assert_eq!(k.1, -123_000);
    assert_eq!(k.2, 20_000);
    assert_eq!(k.3, 0);
    assert_eq!(k.4, false);
}
