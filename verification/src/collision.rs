//! Collision triage and the damage model.
//!
//! Each frame the physics broad phase reports the entity-id pairs whose
//! volumes started overlapping. Every pair is classified into one of four
//! interaction kinds, in priority order: ship against opponent first, then
//! projectile against opponent, then projectile against ship, and anything
//! else is ignored. The matching damage rule then runs. The whole pass is
//! specified as a left fold of a pure step function over the pair list.

use vstd::prelude::*;
use crate::components::Entity;
use crate::events::CreateEffectEvent;
use crate::world::{GameWorld, SHIP_ID};

verus! {

/// Shield charge lost when the hull rams an opponent, in hundredths.
pub const SHIP_OPPONENT_DAMAGE: i64 = 10;

/// Shield charge lost to a hostile projectile, in hundredths.
pub const LASER_SHIP_DAMAGE: i64 = 5;

/// The slice of the simulation state that collision resolution may touch:
/// the ship's charge and kill quota, the registry, and the queued effect
/// requests. Everything else is framed unchanged.
#[verifier::ext_equal]
pub struct CombatState {
    pub shields: int,
    pub hits: int,
    pub entities: Seq<Entity>,
    pub effects: Seq<CreateEffectEvent>,
}

/// The combat-relevant view of the world.
pub open spec fn combat_model(w: GameWorld) -> CombatState {
    CombatState {
        shields: w.ship.shields as int,
        hits: w.ship.hits as int,
        entities: w.entities@,
        effects: w.effect_queue@,
    }
}

/// A live entity that carries the opponent tag and answers to one of the
/// two colliding ids.
pub open spec fn opponent_matches(e: Entity, a: u64, b: u64) -> bool {
    e.alive && e.opponent is Some && (e.id == a || e.id == b)
}

/// A live entity that carries the projectile tag and answers to one of
/// the two colliding ids.
pub open spec fn laser_matches(e: Entity, a: u64, b: u64) -> bool {
    e.alive && e.laser is Some && (e.id == a || e.id == b)
}

/// Index of the first live opponent among the pair, scanning from `i`.
pub open spec fn find_opponent_from(s: Seq<Entity>, a: u64, b: u64, i: int) -> Option<int>
    decreases s.len() - i,
{
    if i < 0 || i >= s.len() {
        None
    } else if opponent_matches(s[i], a, b) {
        Some(i)
    } else {
        find_opponent_from(s, a, b, i + 1)
    }
}

/// Index of the first live projectile among the pair, scanning from `i`.
pub open spec fn find_laser_from(s: Seq<Entity>, a: u64, b: u64, i: int) -> Option<int>
    decreases s.len() - i,
{
    if i < 0 || i >= s.len() {
        None
    } else if laser_matches(s[i], a, b) {
        Some(i)
    } else {
        find_laser_from(s, a, b, i + 1)
    }
}

/// Outcome of one overlap pair: the interaction kinds of the design, in
/// their priority order.
///
/// A hull collision always destroys the opponent, whatever its remaining
/// hit count, and costs a tenth of a full shield. A qualifying projectile
/// hit on an opponent consumes the projectile in every case, takes one
/// remaining hit, and on the last one destroys the opponent, counts the
/// kill toward the quota, and requests a debris burst. A hostile
/// projectile on the ship costs a twentieth of a full shield and consumes
/// the projectile; a friendly one is ignored and survives. Anything else
/// leaves the state untouched.
pub open spec fn collide_step(s: CombatState, a: u64, b: u64) -> CombatState {
    match find_opponent_from(s.entities, a, b, 0) {
        Some(i) => {
            if a == SHIP_ID || b == SHIP_ID {
                CombatState {
                    shields: s.shields - SHIP_OPPONENT_DAMAGE,
                    entities: s.entities.update(i, s.entities[i].killed()),
                    effects: s.effects.push(CreateEffectEvent(s.entities[i].pos)),
                    ..s
                }
            } else {
                match find_laser_from(s.entities, a, b, 0) {
                    Some(j) => {
                        if s.entities[j].laser->0.player {
                            let e = s.entities[i];
                            let h = e.opponent->0.max_hits - 1;
                            let lasered = s.entities.update(j, s.entities[j].killed());
                            if h <= 0 {
                                CombatState {
                                    shields: s.shields,
                                    hits: s.hits - 1,
                                    entities: lasered.update(i, e.with_hits(h as i64).killed()),
                                    effects: s.effects.push(CreateEffectEvent(e.pos)),
                                }
                            } else {
                                CombatState {
                                    entities: lasered.update(i, e.with_hits(h as i64)),
                                    ..s
                                }
                            }
                        } else {
                            s
                        }
                    },
                    None => s,
                }
            }
        },
        None => {
            if a == SHIP_ID || b == SHIP_ID {
                match find_laser_from(s.entities, a, b, 0) {
                    Some(j) => {
                        if !s.entities[j].laser->0.player {
                            CombatState {
                                shields: s.shields - LASER_SHIP_DAMAGE,
                                entities: s.entities.update(j, s.entities[j].killed()),
                                ..s
                            }
                        } else {
                            s
                        }
                    },
                    None => s,
                }
            } else {
                s
            }
        },
    }
}

/// Left fold of the step over the pair list, in arrival order.
pub open spec fn collide_all(s: CombatState, pairs: Seq<(u64, u64)>) -> CombatState
    decreases pairs.len(),
{
    if pairs.len() == 0 {
        s
    } else {
        collide_step(collide_all(s, pairs.drop_last()), pairs.last().0, pairs.last().1)
    }
}

/// A successful scan lands on an index inside the sequence that matches
/// as an opponent.
pub proof fn lemma_find_opponent_range(s: Seq<Entity>, a: u64, b: u64, i0: int)
    requires
        i0 >= 0,
    ensures
        find_opponent_from(s, a, b, i0) matches Some(i) ==> i0 <= i < s.len()
            && opponent_matches(s[i], a, b),
    decreases s.len() - i0,
{
    if i0 < s.len() && !opponent_matches(s[i0], a, b) {
        lemma_find_opponent_range(s, a, b, i0 + 1);
    }
}

/// A successful scan lands on an index inside the sequence that matches
/// as a projectile.
pub proof fn lemma_find_laser_range(s: Seq<Entity>, a: u64, b: u64, i0: int)
    requires
        i0 >= 0,
    ensures
        find_laser_from(s, a, b, i0) matches Some(i) ==> i0 <= i < s.len() && laser_matches(
            s[i],
            a,
            b,
        ),
    decreases s.len() - i0,
{
    if i0 < s.len() && !laser_matches(s[i0], a, b) {
        lemma_find_laser_range(s, a, b, i0 + 1);
    }
}

/// One resolved pair costs at most one hull's worth of shield charge and
/// one quota kill, raises at most one effect request, and never adds or
/// removes registry entries.
pub proof fn lemma_collide_step_bounds(s: CombatState, a: u64, b: u64)
    ensures
        collide_step(s, a, b).shields <= s.shields,
        collide_step(s, a, b).shields >= s.shields - SHIP_OPPONENT_DAMAGE,
        collide_step(s, a, b).hits <= s.hits,
        collide_step(s, a, b).hits >= s.hits - 1,
        collide_step(s, a, b).entities.len() == s.entities.len(),
        collide_step(s, a, b).effects.len() <= s.effects.len() + 1,
{
    lemma_find_opponent_range(s.entities, a, b, 0);
    lemma_find_laser_range(s.entities, a, b, 0);
}

/// Over a whole frame's pairs, the ship's charge and quota never
/// increase, the registry keeps its length, and at most one effect
/// request is raised per pair.
pub proof fn lemma_collide_all_bounds(s: CombatState, pairs: Seq<(u64, u64)>)
    ensures
        collide_all(s, pairs).shields <= s.shields,
        collide_all(s, pairs).hits <= s.hits,
        collide_all(s, pairs).entities.len() == s.entities.len(),
        collide_all(s, pairs).effects.len() <= s.effects.len() + pairs.len(),
    decreases pairs.len(),
{
    if pairs.len() > 0 {
        lemma_collide_all_bounds(s, pairs.drop_last());
        lemma_collide_step_bounds(
            collide_all(s, pairs.drop_last()),
            pairs.last().0,
            pairs.last().1,
        );
    }
}

/// Scans the registry for the first live opponent answering to the pair.
fn find_live_opponent(entities: &Vec<Entity>, a: u64, b: u64) -> (r: Option<usize>)
    ensures
        match r {
            Some(i) => i < entities@.len() && find_opponent_from(entities@, a, b, 0) == Some(
                i as int,
            ) && opponent_matches(entities@[i as int], a, b),
            None => find_opponent_from(entities@, a, b, 0) is None,
        },
{
    let n = entities.len();
    let mut i: usize = 0;
    while i < n
        invariant
            i <= n,
            n == entities@.len(),
            find_opponent_from(entities@, a, b, 0) == find_opponent_from(
                entities@,
                a,
                b,
                i as int,
            ),
        decreases n - i,
    {
        let e = &entities[i];
        if e.alive && e.opponent.is_some() && (e.id == a || e.id == b) {
            return Some(i);
        }
        i = i + 1;
    }
    None
}

/// Scans the registry for the first live projectile answering to the
/// pair.
fn find_live_laser(entities: &Vec<Entity>, a: u64, b: u64) -> (r: Option<usize>)
    ensures
        match r {
            Some(j) => j < entities@.len() && find_laser_from(entities@, a, b, 0) == Some(
                j as int,
            ) && laser_matches(entities@[j as int], a, b),
            None => find_laser_from(entities@, a, b, 0) is None,
        },
{
    let n = entities.len();
    let mut i: usize = 0;
    while i < n
        invariant
            i <= n,
            n == entities@.len(),
            find_laser_from(entities@, a, b, 0) == find_laser_from(entities@, a, b, i as int),
        decreases n - i,
    {
        let e = &entities[i];
        if e.alive && e.laser.is_some() && (e.id == a || e.id == b) {
            return Some(i);
        }
        i = i + 1;
    }
    None
}

/// Hull collision: the opponent dies whatever its remaining hit count, a
/// tenth of a full shield is lost, and a debris burst is requested at the
/// opponent's position.
pub fn handle_ship_opponent_collision(world: &mut GameWorld, i: usize)
    requires
        old(world).wf(),
        i < old(world).entities@.len(),
        old(world).entities@[i as int].alive,
        old(world).entities@[i as int].opponent is Some,
        old(world).ship.shields >= i64::MIN + SHIP_OPPONENT_DAMAGE,
    ensures
        final(world).wf(),
        final(world).ship.shields == old(world).ship.shields - SHIP_OPPONENT_DAMAGE,
        final(world).ship.hits == old(world).ship.hits,
        final(world).ship.win_or_lost == old(world).ship.win_or_lost,
        final(world).entities@ == old(world).entities@.update(
            i as int,
            old(world).entities@[i as int].killed(),
        ),
        final(world).effect_queue@ == old(world).effect_queue@.push(
            CreateEffectEvent(old(world).entities@[i as int].pos),
        ),
        unchanged_outside_combat(*old(world), *final(world)),
{
    world.ship.shields = world.ship.shields - SHIP_OPPONENT_DAMAGE;
    let pos = world.entities[i].pos;
    world.effect_queue.push(CreateEffectEvent(pos));
    let e = &mut world.entities[i];
    e.alive = false;
    proof {
        assert(world.entities@ =~= old(world).entities@.update(
            i as int,
            old(world).entities@[i as int].killed(),
        ));
        assert(world.effect_queue@ =~= old(world).effect_queue@.push(
            CreateEffectEvent(old(world).entities@[i as int].pos),
        ));
    }
}

/// The parts of the world that collision resolution never touches.
pub open spec fn unchanged_outside_combat(a: GameWorld, b: GameWorld) -> bool {
    &&& b.ship_pos == a.ship_pos
    &&& b.ship_gun == a.ship_gun
    &&& b.state == a.state
    &&& b.level == a.level
    &&& b.spawn_timer == a.spawn_timer
    &&& b.next_id == a.next_id
    &&& b.rotate_queue@ == a.rotate_queue@
    &&& b.terrain_done == a.terrain_done
}

/// Projectile impact on an opponent. Only a friendly projectile
/// qualifies: it is consumed, one remaining hit is taken, and on the last
/// one the opponent dies, the kill counts toward the quota, and a debris
/// burst is requested. A hostile projectile among opponents is ignored.
pub fn handle_laser_opponent_collision(world: &mut GameWorld, i: usize, j: usize)
    requires
        old(world).wf(),
        i < old(world).entities@.len(),
        j < old(world).entities@.len(),
        i != j,
        old(world).entities@[i as int].alive,
        old(world).entities@[i as int].opponent is Some,
        old(world).entities@[j as int].alive,
        old(world).entities@[j as int].laser is Some,
        old(world).ship.hits > i64::MIN,
    ensures
        final(world).wf(),
        ({
            let e = old(world).entities@[i as int];
            let l = old(world).entities@[j as int];
            let h = e.opponent->0.max_hits - 1;
            let lasered = old(world).entities@.update(j as int, l.killed());
            if l.laser->0.player {
                if h <= 0 {
                    &&& final(world).ship.shields == old(world).ship.shields
                    &&& final(world).ship.hits == old(world).ship.hits - 1
                    &&& final(world).ship.win_or_lost == old(world).ship.win_or_lost
                    &&& final(world).entities@ == lasered.update(
                        i as int,
                        e.with_hits(h as i64).killed(),
                    )
                    &&& final(world).effect_queue@ == old(world).effect_queue@.push(
                        CreateEffectEvent(e.pos),
                    )
                    &&& unchanged_outside_combat(*old(world), *final(world))
                } else {
                    &&& final(world).ship == old(world).ship
                    &&& final(world).entities@ == lasered.update(i as int, e.with_hits(h as i64))
                    &&& final(world).effect_queue@ == old(world).effect_queue@
                    &&& unchanged_outside_combat(*old(world), *final(world))
                }
            } else {
                *final(world) == *old(world)
            }
        }),
{
    let player = match &world.entities[j].laser {
        Some(l) => l.player,
        None => false,
    };
    if player {
        let hits_before = match &world.entities[i].opponent {
            Some(o) => o.max_hits,
            None => 0,
        };
        let h = hits_before - 1;
        let lj = &mut world.entities[j];
        lj.alive = false;
        let ei = &mut world.entities[i];
        ei.opponent = Some(crate::components::Opponent { max_hits: h });
        if h <= 0 {
            let ei2 = &mut world.entities[i];
            ei2.alive = false;
            world.ship.hits = world.ship.hits - 1;
            let pos = world.entities[i].pos;
            world.effect_queue.push(CreateEffectEvent(pos));
        }
        proof {
            let e = old(world).entities@[i as int];
            let l = old(world).entities@[j as int];
            let lasered = old(world).entities@.update(j as int, l.killed());
            if h <= 0 {
                assert(world.entities@ =~= lasered.update(i as int, e.with_hits(h).killed()));
            } else {
                assert(world.entities@ =~= lasered.update(i as int, e.with_hits(h)));
            }
        }
    }
}

/// Projectile impact on the ship. Only a hostile projectile qualifies: it
/// is consumed and a twentieth of a full shield is lost. A friendly
/// projectile has no effect and survives.
pub fn handle_laser_ship_collision(world: &mut GameWorld, j: usize)
    requires
        old(world).wf(),
        j < old(world).entities@.len(),
        old(world).entities@[j as int].alive,
        old(world).entities@[j as int].laser is Some,
        old(world).ship.shields >= i64::MIN + LASER_SHIP_DAMAGE,
    ensures
        final(world).wf(),
        ({
            let l = old(world).entities@[j as int];
            if !l.laser->0.player {
                &&& final(world).ship.shields == old(world).ship.shields - LASER_SHIP_DAMAGE
                &&& final(world).ship.hits == old(world).ship.hits
                &&& final(world).ship.win_or_lost == old(world).ship.win_or_lost
                &&& final(world).entities@ == old(world).entities@.update(j as int, l.killed())
                &&& final(world).effect_queue@ == old(world).effect_queue@
                &&& unchanged_outside_combat(*old(world), *final(world))
            } else {
                *final(world) == *old(world)
            }
        }),
{
    let player = match &world.entities[j].laser {
        Some(l) => l.player,
        None => true,
    };
    if !player {
        world.ship.shields = world.ship.shields - LASER_SHIP_DAMAGE;
        let lj = &mut world.entities[j];
        lj.alive = false;
        proof {
            let l = old(world).entities@[j as int];
            assert(world.entities@ =~= old(world).entities@.update(j as int, l.killed()));
        }
    }
}

/// Classifies one overlap pair by tag membership, in priority order, and
/// applies the matching damage rule. Pairs that involve a destroyed or
/// unknown entity fall through to the identity.
pub fn handle_collision(world: &mut GameWorld, a: u64, b: u64)
    requires
        old(world).wf(),
        old(world).ship.shields >= i64::MIN + SHIP_OPPONENT_DAMAGE,
        old(world).ship.hits > i64::MIN,
    ensures
        final(world).wf(),
        combat_model(*final(world)) == collide_step(combat_model(*old(world)), a, b),
        final(world).ship.shields >= old(world).ship.shields - SHIP_OPPONENT_DAMAGE,
        final(world).ship.hits >= old(world).ship.hits - 1,
        final(world).ship.win_or_lost == old(world).ship.win_or_lost,
        final(world).entities@.len() == old(world).entities@.len(),
        unchanged_outside_combat(*old(world), *final(world)),
{
    let ghost pre = combat_model(*old(world));
    match find_live_opponent(&world.entities, a, b) {
        Some(i) => {
            if a == SHIP_ID || b == SHIP_ID {
                handle_ship_opponent_collision(world, i);
            } else {
                match find_live_laser(&world.entities, a, b) {
                    Some(j) => {
                        proof {
                            assert(world.entities@[i as int].opponent is Some);
                            assert(world.entities@[j as int].laser is Some);
                        }
                        handle_laser_opponent_collision(world, i, j);
                    },
                    None => {},
                }
            }
        },
        None => {
            if a == SHIP_ID || b == SHIP_ID {
                match find_live_laser(&world.entities, a, b) {
                    Some(j) => handle_laser_ship_collision(world, j),
                    None => {},
                }
            }
        },
    }
    proof {
        assert(combat_model(*world) =~= collide_step(pre, a, b));
    }
}

/// The collision phase: the combat-relevant state is the left fold of the
/// step function over the frame's pairs, in arrival order, and everything
/// outside it stays as it was.
pub open spec fn collide_rel(a: GameWorld, b: GameWorld, pairs: Seq<(u64, u64)>) -> bool {
    &&& combat_model(b) == collide_all(combat_model(a), pairs)
    &&& b.ship.win_or_lost == a.ship.win_or_lost
    &&& b.entities@.len() == a.entities@.len()
    &&& unchanged_outside_combat(a, b)
}

/// Resolves every overlap pair of the frame, in arrival order: the final
/// state is the left fold of the step function over the pair list.
pub fn handle_collisions(world: &mut GameWorld, pairs: &Vec<(u64, u64)>)
    requires
        old(world).wf(),
        old(world).ship.shields - SHIP_OPPONENT_DAMAGE * pairs@.len() >= i64::MIN,
        old(world).ship.hits - pairs@.len() >= i64::MIN,
    ensures
        final(world).wf(),
        collide_rel(*old(world), *final(world), pairs@),
{
    let n = pairs.len();
    let mut k: usize = 0;
    proof {
        assert(pairs@.take(0) =~= Seq::<(u64, u64)>::empty());
    }
    while k < n
        invariant
            k <= n,
            n == pairs@.len(),
            world.wf(),
            combat_model(*world) == collide_all(combat_model(*old(world)), pairs@.take(k as int)),
            world.ship.shields >= old(world).ship.shields - SHIP_OPPONENT_DAMAGE * k,
            world.ship.hits >= old(world).ship.hits - k,
            old(world).ship.shields - SHIP_OPPONENT_DAMAGE * pairs@.len() >= i64::MIN,
            old(world).ship.hits - pairs@.len() >= i64::MIN,
            world.ship.win_or_lost == old(world).ship.win_or_lost,
            world.entities@.len() == old(world).entities@.len(),
            unchanged_outside_combat(*old(world), *world),
        decreases n - k,
    {
        let ghost before = combat_model(*world);
        let pair = pairs[k];
        handle_collision(world, pair.0, pair.1);
        proof {
            assert(pairs@.take(k + 1).drop_last() =~= pairs@.take(k as int));
            assert(pairs@.take(k + 1).last() == pairs@[k as int]);
            assert(collide_all(combat_model(*old(world)), pairs@.take(k + 1)) == collide_step(
                before,
                pair.0,
                pair.1,
            ));
        }
        k = k + 1;
    }
    proof {
        assert(pairs@.take(n as int) =~= pairs@);
    }
}

} // verus!
