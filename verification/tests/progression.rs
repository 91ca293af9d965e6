use combat_core::components::{Entity, GameState, Opponent, Vec3i, WinOrLostState};
use combat_core::progression::{change_level, test_shields};
use combat_core::resources::{Level, SpawnTimer};
use combat_core::world::GameWorld;

fn opponent(id: u64, hits: i64) -> Entity {
    Entity {
        id,
        alive: true,
        pos: Vec3i { x: 0, y: 0, z: -100_000 },
        vel: Vec3i { x: 0, y: 0, z: 50_000 },
        scale: 1_000,
        opponent: Some(Opponent { max_hits: hits }),
        laser: None,
        planet: None,
        gun: None,
        bounds: None,
        effect: None,
        tile: None,
    }
}

#[test]
fn setup_starts_level_one_with_full_quota() {
    let w = GameWorld::setup();
    assert_eq!(w.ship.shields, 100);
    assert_eq!(w.ship.hits, 40);
    assert_eq!(w.ship.win_or_lost, WinOrLostState::Neutral);
    assert_eq!(w.state, GameState::Running);
    assert_eq!(w.level.value, 1);
    assert_eq!(w.spawn_timer.period_ms, 2_000);
    assert_eq!(w.entities.len(), 2);
    assert!(w.entities[0].planet.is_some());
    assert!(w.entities[1].planet.is_some());
    assert_eq!(w.rotate_queue.len(), 0);
    assert_eq!(w.effect_queue.len(), 0);
}

#[test]
fn spent_quota_enters_level_two_removes_planets_and_rotates_once() {
    let mut w = GameWorld::setup();
    w.ship.hits = 0;
    change_level(&mut w);
    assert_eq!(w.ship.hits, 40);
    assert_eq!(w.level.value, 2);
    assert!(!w.entities[0].alive);
    assert!(!w.entities[1].alive);
    assert_eq!(w.rotate_queue.len(), 1);
    assert_eq!(w.spawn_timer.period_ms, 100);
}

#[test]
fn entering_level_three_clears_opponents_and_slows_the_cadence() {
    let mut w = GameWorld::setup();
    w.level = Level { value: 2 };
    w.entities.push(opponent(10, 4));
    w.next_id = 11;
    w.ship.hits = -2;
    change_level(&mut w);
    assert_eq!(w.ship.hits, 40);
    assert_eq!(w.level.value, 3);
    assert!(w.entities[0].alive);
    assert!(w.entities[1].alive);
    assert!(!w.entities[2].alive);
    assert_eq!(w.rotate_queue.len(), 1);
    assert_eq!(w.spawn_timer.period_ms, 400);
}

#[test]
fn forty_qualifying_kills_advance_to_level_two() {
    let mut w = GameWorld::setup();
    let mut pairs: Vec<(u64, u64)> = Vec::new();
    for k in 0..40u64 {
        let opp_id = 10 + 2 * k;
        let laser_id = 11 + 2 * k;
        w.entities.push(opponent(opp_id, 1));
        let mut l = opponent(laser_id, 1);
        l.opponent = None;
        l.laser = Some(combat_core::components::Laser { player: true });
        w.entities.push(l);
        pairs.push((laser_id, opp_id));
    }
    w.next_id = 90;
    combat_core::collision::handle_collisions(&mut w, &pairs);
    assert_eq!(w.ship.hits, 0);
    change_level(&mut w);
    assert_eq!(w.ship.hits, 40);
    assert_eq!(w.level.value, 2);
    assert_eq!(w.rotate_queue.len(), 1);
    assert!(!w.entities[0].alive);
    assert!(!w.entities[1].alive);
    assert_eq!(w.spawn_timer.period_ms, 100);
}

#[test]
fn quota_not_spent_changes_nothing() {
    let mut w = GameWorld::setup();
    w.ship.hits = 1;
    change_level(&mut w);
    assert_eq!(w.ship.hits, 1);
    assert_eq!(w.level.value, 1);
    assert_eq!(w.rotate_queue.len(), 0);
    assert_eq!(w.spawn_timer.period_ms, 2_000);
}

#[test]
fn negative_shields_latch_the_loss_exactly_once() {
    let mut w = GameWorld::setup();
    w.ship.shields = -1;
    test_shields(&mut w);
    assert_eq!(w.ship.win_or_lost, WinOrLostState::Lost);
    assert_eq!(w.state, GameState::End);
    let rotations = w.rotate_queue.len();
    let effects = w.effect_queue.len();
    test_shields(&mut w);
    assert_eq!(w.ship.win_or_lost, WinOrLostState::Lost);
    assert_eq!(w.state, GameState::End);
    assert_eq!(w.rotate_queue.len(), rotations);
    assert_eq!(w.effect_queue.len(), effects);
}

#[test]
fn non_negative_shields_leave_the_verdict_open() {
    let mut w = GameWorld::setup();
    w.ship.shields = 0;
    test_shields(&mut w);
    assert_eq!(w.ship.win_or_lost, WinOrLostState::Neutral);
    assert_eq!(w.state, GameState::Running);
}

#[test]
fn spawn_timer_accumulates_and_wraps_on_expiry() {
    let mut t = SpawnTimer::default();
    assert_eq!(t.period_ms, 2_000);
    assert!(!t.tick(1_500));
    assert_eq!(t.elapsed_ms, 1_500);
    assert!(t.tick(700));
    assert_eq!(t.elapsed_ms, 200);
    t.set_period(400);
    assert_eq!(t.period_ms, 400);
    assert_eq!(t.elapsed_ms, 0);
}

#[test]
fn level_defaults_to_one() {
    let l = Level::default();
    assert_eq!(l.value, 1);
}
