//! The whole simulation core, one tick at a time.
//!
//! A tick runs the four passes in fixed order — spawn scheduler, spawn
//! consumer, arena wrap, projectile sweep — over one shared entity arena,
//! then compacts the drained request queue. Everything is single-threaded
//! and synchronous.

use vstd::prelude::*;

use crate::arena::{arena_spawn_system, position_system, setup, spec_wrap_entity, Arena};
use crate::config::Config;
use crate::laser::{despawn_laser_system, spec_laser_sweep_entity};
use crate::spawn::{
    spawn_asteroid_system, spec_asteroid_entity, valid_spawn_request, SpawnAsteroidState,
    SpawnQueue, SpawnRequest,
};
use crate::store::{
    count_asteroids, is_asteroid, lasers_wf, lemma_count_eq_pointwise, lemma_count_le_pointwise,
    Entity, EntityStore,
};

verus! {

pub struct World {
    pub arena: Arena,
    pub spawn_state: SpawnAsteroidState,
    pub spawn_events: SpawnQueue,
    pub store: EntityStore,
}

impl World {
    /// Between ticks the arena is well formed, every laser countdown is a
    /// well-formed timer, and the request queue is drained and compacted.
    pub open spec fn wf(self) -> bool {
        &&& self.arena.wf()
        &&& lasers_wf(self.store.entities@)
        &&& self.spawn_events.events@.len() == 0
        &&& self.spawn_state.cursor == 0
    }

    pub fn new(config: &Config) -> (w: World)
        requires
            config.wf(),
        ensures
            w.wf(),
            w.arena.config == *config,
            w.arena.asteroid_spawn_timer.duration == config.initial_interval,
            w.store.entities@.len() == 0,
    {
        World {
            arena: setup(config),
            spawn_state: SpawnAsteroidState::new(),
            spawn_events: SpawnQueue::new(),
            store: EntityStore::new(),
        }
    }
}

/// The per-tick effect on an entity that already existed when the tick
/// began: wrapped at the arena edges, then swept if it is an expiring laser.
pub open spec fn spec_tick_entity(e: Entity, dt: int, c: Config) -> Entity {
    spec_laser_sweep_entity(spec_wrap_entity(e, c.half_width(), c.half_height()), dt)
}

/// One simulation tick. The contract carries the core's two standing laws:
/// the spawn interval never grows and never drops below the floor, and a
/// population within the cap stays within the cap — the scheduler emits only
/// when it observes room, and at most one asteroid joins per tick.
pub fn world_tick(w: &mut World, dt: i64)
    requires
        old(w).wf(),
    ensures
        final(w).wf(),
        final(w).arena.config == old(w).arena.config,
        final(w).arena.asteroid_spawn_timer.duration <= old(
            w,
        ).arena.asteroid_spawn_timer.duration,
        old(w).arena.config.interval_floor <= final(w).arena.asteroid_spawn_timer.duration,
        old(w).store.entities@.len() <= final(w).store.entities@.len() <= old(
            w,
        ).store.entities@.len() + 1,
        forall|i: int|
            0 <= i < old(w).store.entities@.len() ==> final(w).store.entities@[i]
                == spec_tick_entity(old(w).store.entities@[i], dt as int, old(w).arena.config),
        count_asteroids(final(w).store.entities@) <= count_asteroids(old(w).store.entities@) + 1,
        count_asteroids(final(w).store.entities@) > count_asteroids(old(w).store.entities@)
            ==> count_asteroids(old(w).store.entities@) < old(w).arena.config.asteroid_cap,
        // Exactly one asteroid joins when and only when the timer fires on
        // a population below the cap.
        final(w).store.entities@.len() == old(w).store.entities@.len() + 1 <==> (old(
            w,
        ).arena.asteroid_spawn_timer.spec_tick(dt as int).finished && count_asteroids(
            old(w).store.entities@,
        ) < old(w).arena.config.asteroid_cap),
        final(w).store.entities@.len() > old(w).store.entities@.len() ==> {
            &&& count_asteroids(old(w).store.entities@) < old(w).arena.config.asteroid_cap
            &&& is_asteroid(final(w).store.entities@.last())
            &&& exists|req: SpawnRequest|
                #[trigger] valid_spawn_request(req, old(w).arena.config)
                    && final(w).store.entities@.last() == spec_tick_entity(
                    spec_asteroid_entity(req),
                    dt as int,
                    old(w).arena.config,
                )
        },
        count_asteroids(old(w).store.entities@) <= old(w).arena.config.asteroid_cap
            ==> count_asteroids(final(w).store.entities@) <= old(w).arena.config.asteroid_cap,
{
    let ghost s0 = w.store.entities@;
    let ghost c = w.arena.config;
    let count = w.store.asteroid_count();
    arena_spawn_system(&mut w.arena, dt, count, &mut w.spawn_events);
    let ghost q = w.spawn_events.events@;
    spawn_asteroid_system(&mut w.spawn_state, &w.spawn_events, &mut w.store);
    let ghost s1 = w.store.entities@;
    position_system(&mut w.store, &w.arena.config);
    let ghost s2 = w.store.entities@;
    proof {
        assert forall|i: int|
            0 <= i < s2.len() && s2[i].laser is Some implies (#[trigger] s2[i].laser
            ->0).despawn_timer.wf() by {
            assert(s2[i] == spec_wrap_entity(s1[i], c.half_width(), c.half_height()));
            if i < s0.len() {
                assert(s1[i] == s0[i]);
            } else {
                assert(s1[i] == spec_asteroid_entity(q[i - s0.len()]));
            }
        }
    }
    despawn_laser_system(&mut w.store, dt);
    let ghost s3 = w.store.entities@;
    w.spawn_events.clear();
    w.spawn_state = SpawnAsteroidState { cursor: 0 };
    proof {
        // The wrap changes coordinates only, so the count is unchanged.
        assert forall|i: int| 0 <= i < s1.len() implies is_asteroid(s1[i]) == is_asteroid(
            #[trigger] s2[i],
        ) by {
            assert(s2[i] == spec_wrap_entity(s1[i], c.half_width(), c.half_height()));
        }
        lemma_count_eq_pointwise(s1, s2);
        // The sweep only ever destroys, so the count cannot grow.
        assert forall|i: int| 0 <= i < s2.len() implies (is_asteroid(#[trigger] s3[i])
            ==> is_asteroid(s2[i])) by {
            assert(s3[i] == spec_laser_sweep_entity(s2[i], dt as int));
        }
        lemma_count_le_pointwise(s2, s3);
        if s1.len() > s0.len() {
            assert(is_asteroid(s1.last()));
            assert(s2.last() == spec_wrap_entity(s1.last(), c.half_width(), c.half_height()));
            assert(s3.last() == spec_laser_sweep_entity(s2.last(), dt as int));
            assert(valid_spawn_request(q.last(), c) && s3.last() == spec_tick_entity(
                spec_asteroid_entity(q.last()),
                dt as int,
                c,
            ));
        }
    }
}

} // verus!
