use combat_core::components::{
    Despawnable, EffectTime, Entity, GameState, LaserGun, Opponent, Vec3i,
};
use combat_core::effects::{create_effect, remove_effect};
use combat_core::events::CreateEffectEvent;
use combat_core::spawn::spawn_opponent;
use combat_core::sweep::{despawn_all, prune_removed};
use combat_core::tick::tick;
use combat_core::weapon::{laser_opponent, laser_player, spawn_laser};
use combat_core::world::GameWorld;

fn bounded(id: u64, z: i64) -> Entity {
    Entity {
        id,
        alive: true,
        pos: Vec3i { x: 0, y: 0, z },
        vel: Vec3i { x: 0, y: 0, z: 0 },
        scale: 1_000,
        opponent: None,
        laser: None,
        planet: None,
        gun: None,
        bounds: Some(Despawnable { min: -1_000_000, max: 0 }),
        effect: None,
        tile: None,
    }
}

fn gunned_opponent(id: u64, z: i64) -> Entity {
    Entity {
        id,
        alive: true,
        pos: Vec3i { x: 0, y: 0, z },
        vel: Vec3i { x: 0, y: 0, z: 50_000 },
        scale: 1_000,
        opponent: Some(Opponent { max_hits: 1 }),
        laser: None,
        planet: None,
        gun: Some(LaserGun {
            positions: vec![Vec3i { x: 0, y: 0, z: 5_000 }],
            player: false,
            fire: false,
            cooldown_ms: 0,
            std_cooldown_ms: 1_000,
        }),
        bounds: None,
        effect: None,
        tile: None,
    }
}

#[test]
fn level_one_expiry_spawns_a_single_hit_fighter_within_the_windows() {
    let mut w = GameWorld::setup();
    spawn_opponent(&mut w, 2_000);
    assert_eq!(w.entities.len(), 3);
    let e = &w.entities[2];
    assert!(e.alive);
    assert_eq!(e.opponent, Some(Opponent { max_hits: 1 }));
    assert_eq!(e.pos.z, -300_000);
    assert!(-15_000 <= e.pos.x && e.pos.x < 15_000);
    assert!(-10_000 <= e.pos.y && e.pos.y < 10_000);
    assert!(40_000 <= e.vel.z && e.vel.z < 80_000);
    let g = e.gun.as_ref().unwrap();
    assert!(!g.player);
    assert!(400 <= g.std_cooldown_ms && g.std_cooldown_ms < 2_000);
    assert_eq!(g.positions, vec![Vec3i { x: 0, y: 0, z: 5_000 }]);
    assert_eq!(e.bounds, Some(Despawnable { min: -1_000_000, max: 0 }));
    assert_eq!(w.next_id, 4);
}

#[test]
fn short_frame_leaves_the_timer_accumulating_and_spawns_nothing() {
    let mut w = GameWorld::setup();
    spawn_opponent(&mut w, 500);
    assert_eq!(w.entities.len(), 2);
    assert_eq!(w.spawn_timer.elapsed_ms, 500);
}

#[test]
fn level_two_expiry_spawns_a_scaled_four_hit_boulder() {
    let mut w = GameWorld::setup();
    w.level.value = 2;
    w.spawn_timer.set_period(100);
    spawn_opponent(&mut w, 150);
    assert_eq!(w.entities.len(), 3);
    let e = &w.entities[2];
    assert_eq!(e.opponent, Some(Opponent { max_hits: 4 }));
    assert!(e.gun.is_none());
    assert!(4_000 <= e.scale && e.scale <= 28_000);
    assert!(40_000 <= e.vel.z && e.vel.z < 80_000);
}

#[test]
fn level_three_lays_the_terrain_pattern_once() {
    let mut w = GameWorld::setup();
    w.level.value = 3;
    w.spawn_timer.set_period(400);
    spawn_opponent(&mut w, 400);
    assert_eq!(w.entities.len(), 19);
    assert!(w.terrain_done);
    let texture = w.entities[2].tile.as_ref().unwrap().texture;
    assert!((1..=8).contains(&texture));
    for k in 0..17 {
        let t = &w.entities[2 + k];
        assert!(t.alive);
        let tile = t.tile.as_ref().unwrap();
        assert_eq!(tile.texture, texture);
        assert_eq!(t.pos.z, -240_000);
        assert_eq!(t.vel, Vec3i { x: 0, y: 0, z: 24_000 });
    }
    // The staircase profile: flat ends, tilted ramps, trench floor.
    assert_eq!(w.entities[2].pos, Vec3i { x: -60_000, y: 0, z: -240_000 });
    assert_eq!(w.entities[2 + 7].pos.y, -20_000);
    assert_eq!(w.entities[2 + 5].tile.as_ref().unwrap().rot_quarter, 1);
    assert_eq!(w.entities[2 + 10].tile.as_ref().unwrap().rot_quarter, -1);
    assert_eq!(w.entities[2 + 16].pos.x, 60_000);
    // A later expiry lays nothing further.
    spawn_opponent(&mut w, 400);
    assert_eq!(w.entities.len(), 19);
}

#[test]
fn ship_volley_spawns_one_laser_per_firing_point_and_reloads() {
    let mut w = GameWorld::setup();
    laser_player(&mut w, true);
    spawn_laser(&mut w, 16);
    assert_eq!(w.entities.len(), 4);
    assert_eq!(w.ship_gun.cooldown_ms, 200);
    let left = &w.entities[2];
    let right = &w.entities[3];
    assert_eq!(left.pos, Vec3i { x: -1_000, y: 0, z: -25_000 });
    assert_eq!(right.pos, Vec3i { x: 1_000, y: 0, z: -25_000 });
    assert_eq!(left.vel.z, -600_000);
    assert!(left.laser.as_ref().unwrap().player);
    // While reloading, the held trigger counts the cooldown down and no
    // laser spawns.
    spawn_laser(&mut w, 50);
    assert_eq!(w.entities.len(), 4);
    assert_eq!(w.ship_gun.cooldown_ms, 150);
    // Releasing the trigger freezes the cooldown.
    laser_player(&mut w, false);
    spawn_laser(&mut w, 50);
    assert_eq!(w.ship_gun.cooldown_ms, 150);
}

#[test]
fn opponent_fire_is_gated_by_the_depth_window_in_level_one() {
    let mut w = GameWorld::setup();
    w.entities.push(gunned_opponent(10, -150_000));
    w.entities.push(gunned_opponent(11, -250_000));
    w.next_id = 12;
    laser_opponent(&mut w);
    assert!(w.entities[2].gun.as_ref().unwrap().fire);
    assert!(!w.entities[3].gun.as_ref().unwrap().fire);
    // An opponent volley heads backward, toward the ship.
    spawn_laser(&mut w, 16);
    assert_eq!(w.entities.len(), 5);
    let shot = &w.entities[4];
    assert_eq!(shot.vel.z, 600_000);
    assert!(!shot.laser.as_ref().unwrap().player);
    assert_eq!(shot.pos, Vec3i { x: 0, y: 0, z: -145_000 });
}

#[test]
fn opponent_gating_is_inactive_beyond_level_one() {
    let mut w = GameWorld::setup();
    w.level.value = 2;
    w.entities.push(gunned_opponent(10, -150_000));
    w.next_id = 11;
    laser_opponent(&mut w);
    assert!(!w.entities[2].gun.as_ref().unwrap().fire);
}

#[test]
fn bounded_entities_are_removed_exactly_outside_their_interval() {
    let mut w = GameWorld::setup();
    w.entities.push(bounded(10, -500_000));
    w.entities.push(bounded(11, 1));
    w.entities.push(bounded(12, -1_000_001));
    w.entities.push(bounded(13, 0));
    w.entities.push(bounded(14, -1_000_000));
    w.next_id = 15;
    despawn_all(&mut w);
    assert!(w.entities[2].alive);
    assert!(!w.entities[3].alive);
    assert!(!w.entities[4].alive);
    assert!(w.entities[5].alive);
    assert!(w.entities[6].alive);
}

#[test]
fn debris_burst_drains_the_queue_and_scatters_thirty_two_cubes() {
    let mut w = GameWorld::setup();
    w.effect_queue.push(CreateEffectEvent(Vec3i { x: 10_000, y: 0, z: -90_000 }));
    let base = w.entities.len();
    let id_base = w.next_id;
    create_effect(&mut w);
    assert_eq!(w.effect_queue.len(), 0);
    assert_eq!(w.entities.len(), base + 32);
    assert_eq!(w.next_id, id_base + 32);
    for j in 0..32 {
        let e = &w.entities[base + j];
        assert!(e.alive);
        assert_eq!(e.effect, Some(EffectTime { remaining_ms: 2_000 }));
        assert!((10_000 - 200..=10_000 + 100).contains(&e.pos.x));
        assert!((0..=100).contains(&e.pos.y));
        assert!((-90_200..=-89_900).contains(&e.pos.z));
        assert!(-100_000 <= e.vel.x && e.vel.x < 100_000);
    }
    // The first cube sits at the lower corner of the grid.
    assert_eq!(w.entities[base].pos, Vec3i { x: 9_800, y: 0, z: -90_200 });
}

#[test]
fn debris_dies_the_moment_its_countdown_runs_out() {
    let mut w = GameWorld::setup();
    w.effect_queue.push(CreateEffectEvent(Vec3i { x: 0, y: 0, z: 0 }));
    create_effect(&mut w);
    remove_effect(&mut w, 1_500);
    assert!(w.entities[2].alive);
    assert_eq!(w.entities[2].effect, Some(EffectTime { remaining_ms: 500 }));
    remove_effect(&mut w, 500);
    assert!(!w.entities[2].alive);
    assert_eq!(w.entities[2].effect, Some(EffectTime { remaining_ms: 0 }));
}

#[test]
fn pruning_drops_destroyed_entries_and_keeps_order() {
    let mut w = GameWorld::setup();
    w.entities.push(bounded(10, -500_000));
    w.entities.push(bounded(11, -600_000));
    w.entities.push(bounded(12, -700_000));
    w.next_id = 13;
    w.entities[3].alive = false;
    prune_removed(&mut w);
    assert_eq!(w.entities.len(), 4);
    assert_eq!(w.entities[2].id, 10);
    assert_eq!(w.entities[3].id, 12);
}

#[test]
fn ended_simulation_ignores_further_frames() {
    let mut w = GameWorld::setup();
    w.state = GameState::End;
    w.ship.shields = -3;
    let pairs = vec![(0u64, 1u64)];
    tick(&mut w, true, &pairs, 16);
    assert_eq!(w.ship.shields, -3);
    assert_eq!(w.entities.len(), 2);
    assert_eq!(w.rotate_queue.len(), 0);
    assert_eq!(w.effect_queue.len(), 0);
}

#[test]
fn a_running_frame_spawns_fires_and_sweeps_in_order() {
    let mut w = GameWorld::setup();
    let pairs: Vec<(u64, u64)> = Vec::new();
    tick(&mut w, true, &pairs, 2_000);
    // The held trigger released a volley and the timer expiry spawned one
    // fighter; nothing has left its bounds yet.
    assert_eq!(w.ship_gun.cooldown_ms, 200);
    let lasers = w
        .entities
        .iter()
        .filter(|e| e.laser.is_some())
        .count();
    let fighters = w
        .entities
        .iter()
        .filter(|e| e.opponent.is_some())
        .count();
    assert_eq!(lasers, 2);
    assert_eq!(fighters, 1);
    assert_eq!(w.ship.shields, 100);
    assert_eq!(w.level.value, 1);
}

#[test]
fn a_frame_that_drains_the_shields_latches_the_loss() {
    let mut w = GameWorld::setup();
    w.ship.shields = 4;
    // One hostile projectile hits the ship this frame: the twentieth of a
    // full shield it costs leaves the charge below zero, and the loss
    // check of the same frame latches the verdict.
    w.entities.push(Entity {
        id: 10,
        alive: true,
        pos: Vec3i { x: 0, y: 0, z: -25_000 },
        vel: Vec3i { x: 0, y: 0, z: 600_000 },
        scale: 1_000,
        opponent: None,
        laser: Some(combat_core::components::Laser { player: false }),
        planet: None,
        gun: None,
        bounds: Some(Despawnable { min: -1_000_000, max: 0 }),
        effect: None,
        tile: None,
    });
    w.next_id = 11;
    let pairs = vec![(0u64, 10u64)];
    tick(&mut w, false, &pairs, 16);
    assert_eq!(w.ship.shields, -1);
    assert_eq!(w.state, GameState::End);
    assert_eq!(
        w.ship.win_or_lost,
        combat_core::components::WinOrLostState::Lost
    );
    // The next frame is a no-op.
    let before = w.entities.len();
    tick(&mut w, true, &pairs, 16);
    assert_eq!(w.entities.len(), before);
    assert_eq!(w.ship.shields, -1);
}

#[test]
fn position_write_back_reaches_the_addressed_entity_only() {
    let mut w = GameWorld::setup();
    w.entities.push(bounded(10, -500_000));
    w.next_id = 11;
    w.apply_position(10, Vec3i { x: 7, y: 8, z: 9 });
    assert_eq!(w.entities[2].pos, Vec3i { x: 7, y: 8, z: 9 });
    assert_eq!(w.entities[0].pos, Vec3i { x: -80_000, y: 0, z: -320_000 });
    w.apply_ship_position(Vec3i { x: 1, y: 2, z: -25_000 });
    assert_eq!(w.ship_pos, Vec3i { x: 1, y: 2, z: -25_000 });
}
