//! Spawn requests and the one-way queue that carries them from the scheduler
//! to the consumer.
//!
//! A request is emitted once, consumed once, then discarded. The queue keeps
//! emission order; a per-consumer read cursor makes each request be consumed
//! exactly once.

use vstd::prelude::*;

use crate::config::{Config, MAX_ANGULAR_VELOCITY};
use crate::store::{
    count_asteroids, is_asteroid, lemma_count_push, Asteroid, Body, Collider, ColliderShape,
    Damage, Entity, EntityStore,
};

verus! {

/// Friction coefficient of asteroid colliders, in hundredths. The negative
/// value is deliberate gameplay tuning (a slippery, speed-preserving surface),
/// not a physical mistake.
pub const ASTEROID_FRICTION: i64 = -30;

/// Contact damage carried by every asteroid.
pub const ASTEROID_DAMAGE: u32 = 1;

/// Collision radius of a big asteroid: half of the 10.10-unit diameter.
pub const BIG_RADIUS: i64 = 505;

/// Collision radius of a medium asteroid: half of the 4.30-unit diameter.
pub const MEDIUM_RADIUS: i64 = 215;

/// Collision radius of a small asteroid: half of the 2.80-unit diameter.
pub const SMALL_RADIUS: i64 = 140;

#[derive(Clone, Copy, PartialEq, Eq, Structural, Debug)]
pub enum AsteroidSize {
    Big,
    Medium,
    Small,
}

pub open spec fn spec_radius(size: AsteroidSize) -> int {
    match size {
        AsteroidSize::Big => BIG_RADIUS as int,
        AsteroidSize::Medium => MEDIUM_RADIUS as int,
        AsteroidSize::Small => SMALL_RADIUS as int,
    }
}

/// The size-dependent collision radius, in hundredths of a unit.
pub fn collision_radius(size: AsteroidSize) -> (r: i64)
    ensures
        r == spec_radius(size),
{
    match size {
        AsteroidSize::Big => BIG_RADIUS,
        AsteroidSize::Medium => MEDIUM_RADIUS,
        AsteroidSize::Small => SMALL_RADIUS,
    }
}

/// A one-shot description of an asteroid to materialize. Lengths are
/// hundredths of a unit, velocities hundredths of a unit per second, angular
/// velocity hundredths of a radian per second.
#[derive(Clone, Copy, PartialEq, Eq, Structural, Debug)]
pub struct SpawnRequest {
    pub size: AsteroidSize,
    pub x: i64,
    pub y: i64,
    pub vx: i64,
    pub vy: i64,
    pub angvel: i64,
}

/// What holds of every request the scheduler emits: a big asteroid on the top
/// or left arena edge, velocities within a quarter of the arena extent per
/// second, spin within the angular-velocity bound.
pub open spec fn valid_spawn_request(req: SpawnRequest, c: Config) -> bool {
    &&& req.size is Big
    &&& ((req.y == c.half_height() && -c.half_width() <= req.x < c.half_width()) || (req.x
        == -c.half_width() && -c.half_height() <= req.y < c.half_height()))
    &&& -c.quarter_width() <= req.vx < c.quarter_width()
    &&& -c.quarter_height() <= req.vy < c.quarter_height()
    &&& -MAX_ANGULAR_VELOCITY <= req.angvel < MAX_ANGULAR_VELOCITY
}

/// The single-producer/single-consumer spawn-request buffer, in emission
/// order.
pub struct SpawnQueue {
    pub events: Vec<SpawnRequest>,
}

impl SpawnQueue {
    pub fn new() -> (q: SpawnQueue)
        ensures
            q.events@ == Seq::<SpawnRequest>::empty(),
    {
        SpawnQueue { events: Vec::new() }
    }

    pub fn send(&mut self, req: SpawnRequest)
        ensures
            final(self).events@ == old(self).events@.push(req),
    {
        self.events.push(req);
    }

    pub fn len(&self) -> (n: usize)
        ensures
            n == self.events@.len(),
    {
        self.events.len()
    }

    /// Drop every stored request; consumers must reset their cursors with it.
    pub fn clear(&mut self)
        ensures
            final(self).events@ == Seq::<SpawnRequest>::empty(),
    {
        self.events.clear();
    }
}

/// The consumer's read cursor into the spawn queue: everything before the
/// cursor has already been materialized.
#[derive(Clone, Copy, PartialEq, Eq, Structural, Debug)]
pub struct SpawnAsteroidState {
    pub cursor: usize,
}

impl SpawnAsteroidState {
    pub fn new() -> (s: SpawnAsteroidState)
        ensures
            s.cursor == 0,
    {
        SpawnAsteroidState { cursor: 0 }
    }
}

/// The entity a spawn request materializes into: a dynamic body at the
/// requested position and velocities, a ball collider of the size-appropriate
/// radius with the tuned friction, and the asteroid and damage tags.
pub open spec fn spec_asteroid_entity(req: SpawnRequest) -> Entity {
    Entity {
        alive: true,
        body: Some(
            Body {
                x: req.x,
                y: req.y,
                vx: req.vx,
                vy: req.vy,
                angvel: req.angvel,
                rotation: 0,
            },
        ),
        collider: Some(
            Collider {
                shape: ColliderShape::Ball { radius: spec_radius(req.size) as i64 },
                sensor: false,
                friction: ASTEROID_FRICTION,
            },
        ),
        asteroid: Some(Asteroid { size: req.size }),
        damage: Some(Damage { value: ASTEROID_DAMAGE }),
        laser: None,
    }
}

pub fn make_asteroid_entity(req: &SpawnRequest) -> (e: Entity)
    ensures
        e == spec_asteroid_entity(*req),
{
    Entity {
        alive: true,
        body: Some(
            Body {
                x: req.x,
                y: req.y,
                vx: req.vx,
                vy: req.vy,
                angvel: req.angvel,
                rotation: 0,
            },
        ),
        collider: Some(
            Collider {
                shape: ColliderShape::Ball { radius: collision_radius(req.size) },
                sensor: false,
                friction: ASTEROID_FRICTION,
            },
        ),
        asteroid: Some(Asteroid { size: req.size }),
        damage: Some(Damage { value: ASTEROID_DAMAGE }),
        laser: None,
    }
}

/// The spawn consumer: drain every request queued past the cursor, in
/// emission order, and materialize each into exactly one new asteroid entity.
/// Existing entities are untouched, and the asteroid population grows by
/// exactly the number of requests consumed.
pub fn spawn_asteroid_system(
    state: &mut SpawnAsteroidState,
    events: &SpawnQueue,
    store: &mut EntityStore,
)
    requires
        old(state).cursor <= events.events@.len(),
    ensures
        final(state).cursor == events.events@.len(),
        final(store).entities@.len() == old(store).entities@.len() + events.events@.len() - old(
            state,
        ).cursor,
        forall|i: int|
            0 <= i < old(store).entities@.len() ==> final(store).entities@[i] == old(
                store,
            ).entities@[i],
        forall|j: int|
            old(state).cursor <= j < events.events@.len() ==> final(store).entities@[old(
                store,
            ).entities@.len() + j - old(state).cursor] == spec_asteroid_entity(events.events@[j]),
        count_asteroids(final(store).entities@) == count_asteroids(old(store).entities@)
            + events.events@.len() - old(state).cursor,
{
    let mut k: usize = state.cursor;
    while k < events.events.len()
        invariant
            old(state).cursor <= k <= events.events@.len(),
            store.entities@.len() == old(store).entities@.len() + k - old(state).cursor,
            forall|i: int|
                0 <= i < old(store).entities@.len() ==> store.entities@[i] == old(
                    store,
                ).entities@[i],
            forall|j: int|
                old(state).cursor <= j < k ==> store.entities@[old(store).entities@.len() + j - old(
                    state,
                ).cursor] == spec_asteroid_entity(events.events@[j]),
            count_asteroids(store.entities@) == count_asteroids(old(store).entities@) + k - old(
                state,
            ).cursor,
        decreases events.events@.len() - k,
    {
        let req = events.events[k];
        let e = make_asteroid_entity(&req);
        let ghost pre = store.entities@;
        store.spawn(e);
        proof {
            lemma_count_push(pre, e);
        }
        k = k + 1;
    }
    state.cursor = k;
}

} // verus!
