use combat_core::collision::handle_collisions;
use combat_core::components::{Despawnable, Entity, Laser, Opponent, Vec3i};
use combat_core::world::{GameWorld, SHIP_ID};

fn opponent(id: u64, hits: i64) -> Entity {
    Entity {
        id,
        alive: true,
        pos: Vec3i { x: 1_000, y: 2_000, z: -50_000 },
        vel: Vec3i { x: 0, y: 0, z: 0 },
        scale: 1_000,
        opponent: Some(Opponent { max_hits: hits }),
        laser: None,
        planet: None,
        gun: None,
        bounds: None,
        effect: None,
        tile: None,
    }
}

fn laser(id: u64, player: bool) -> Entity {
    Entity {
        id,
        alive: true,
        pos: Vec3i { x: 0, y: 0, z: -40_000 },
        vel: Vec3i { x: 0, y: 0, z: -600_000 },
        scale: 1_000,
        opponent: None,
        laser: Some(Laser { player }),
        planet: None,
        gun: None,
        bounds: Some(Despawnable { min: -1_000_000, max: 0 }),
        effect: None,
        tile: None,
    }
}

#[test]
fn ship_opponent_collision_is_lethal_and_costs_a_tenth() {
    let mut w = GameWorld::setup();
    w.entities.push(opponent(10, 4));
    w.next_id = 11;
    let pairs = vec![(SHIP_ID, 10)];
    handle_collisions(&mut w, &pairs);
    assert!(!w.entities[2].alive);
    assert_eq!(w.ship.shields, 90);
    assert_eq!(w.ship.hits, 40);
    assert_eq!(w.effect_queue.len(), 1);
    assert_eq!(w.effect_queue[0].0, Vec3i { x: 1_000, y: 2_000, z: -50_000 });
}

#[test]
fn player_laser_consumed_and_opponent_survives() {
    let mut w = GameWorld::setup();
    w.entities.push(opponent(10, 4));
    w.entities.push(laser(11, true));
    w.next_id = 12;
    let pairs = vec![(11, 10)];
    handle_collisions(&mut w, &pairs);
    assert!(w.entities[2].alive);
    assert_eq!(w.entities[2].opponent, Some(Opponent { max_hits: 3 }));
    assert!(!w.entities[3].alive);
    assert_eq!(w.ship.shields, 100);
    assert_eq!(w.ship.hits, 40);
    assert_eq!(w.effect_queue.len(), 0);
}

#[test]
fn player_laser_spends_last_hit_and_counts_the_kill() {
    let mut w = GameWorld::setup();
    w.entities.push(opponent(10, 1));
    w.entities.push(laser(11, true));
    w.next_id = 12;
    let pairs = vec![(10, 11)];
    handle_collisions(&mut w, &pairs);
    assert!(!w.entities[2].alive);
    assert_eq!(w.entities[2].opponent, Some(Opponent { max_hits: 0 }));
    assert!(!w.entities[3].alive);
    assert_eq!(w.ship.hits, 39);
    assert_eq!(w.ship.shields, 100);
    assert_eq!(w.effect_queue.len(), 1);
}

#[test]
fn hostile_laser_does_not_damage_other_opponents() {
    let mut w = GameWorld::setup();
    w.entities.push(opponent(10, 2));
    w.entities.push(laser(11, false));
    w.next_id = 12;
    let pairs = vec![(11, 10)];
    handle_collisions(&mut w, &pairs);
    assert!(w.entities[2].alive);
    assert_eq!(w.entities[2].opponent, Some(Opponent { max_hits: 2 }));
    assert!(w.entities[3].alive);
    assert_eq!(w.ship.shields, 100);
}

#[test]
fn hostile_laser_on_ship_costs_a_twentieth_and_is_consumed() {
    let mut w = GameWorld::setup();
    w.entities.push(laser(10, false));
    w.next_id = 11;
    let pairs = vec![(SHIP_ID, 10)];
    handle_collisions(&mut w, &pairs);
    assert_eq!(w.ship.shields, 95);
    assert!(!w.entities[2].alive);
    assert_eq!(w.effect_queue.len(), 0);
}

#[test]
fn friendly_laser_on_ship_has_no_effect_and_survives() {
    let mut w = GameWorld::setup();
    w.entities.push(laser(10, true));
    w.next_id = 11;
    let pairs = vec![(10, SHIP_ID)];
    handle_collisions(&mut w, &pairs);
    assert_eq!(w.ship.shields, 100);
    assert!(w.entities[2].alive);
}

#[test]
fn pairs_resolve_in_arrival_order_and_skip_destroyed_entities() {
    let mut w = GameWorld::setup();
    w.entities.push(opponent(10, 1));
    w.entities.push(laser(11, true));
    w.entities.push(laser(12, true));
    w.next_id = 13;
    // The first pair kills the opponent; the second refers to it again and
    // must be skipped silently.
    let pairs = vec![(11, 10), (12, 10)];
    handle_collisions(&mut w, &pairs);
    assert!(!w.entities[2].alive);
    assert!(!w.entities[3].alive);
    assert!(w.entities[4].alive);
    assert_eq!(w.ship.hits, 39);
    assert_eq!(w.effect_queue.len(), 1);
}

#[test]
fn unrelated_pairs_are_ignored() {
    let mut w = GameWorld::setup();
    w.next_id = 3;
    // Two planet ids and an unknown id: no classification applies.
    let pairs = vec![(1, 2), (7, 8)];
    handle_collisions(&mut w, &pairs);
    assert_eq!(w.ship.shields, 100);
    assert_eq!(w.ship.hits, 40);
    assert!(w.entities[0].alive);
    assert!(w.entities[1].alive);
    assert_eq!(w.effect_queue.len(), 0);
}

#[test]
fn hull_collision_outranks_projectile_classification() {
    let mut w = GameWorld::setup();
    w.entities.push(opponent(10, 4));
    w.next_id = 11;
    // The opponent collides with the ship itself: lethal whatever the
    // remaining count, and classified as a hull collision.
    let pairs = vec![(10, SHIP_ID)];
    handle_collisions(&mut w, &pairs);
    assert!(!w.entities[2].alive);
    assert_eq!(w.ship.shields, 90);
    assert_eq!(w.ship.hits, 40);
}
