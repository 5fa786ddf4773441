//! The arena and its two per-tick passes over it: the spawn scheduler with
//! its decaying interval, and the toroidal edge wrap.

use vstd::arithmetic::div_mod::{
    lemma_div_is_ordered, lemma_div_multiples_vanish, lemma_div_pos_is_pos,
};
use vstd::arithmetic::mul::{lemma_mul_is_commutative, lemma_mul_nonnegative};
use vstd::prelude::*;

use crate::config::{half_of, quarter_of, Config, MAX_ANGULAR_VELOCITY};
use crate::rng::draw_range;
use crate::spawn::{valid_spawn_request, AsteroidSize, SpawnQueue, SpawnRequest};
use crate::store::{Body, Entity, EntityStore};
use crate::timer::Timer;

verus! {

/// The process-wide arena singleton: immutable bounds and tuning, plus the
/// spawn scheduler's timer state.
pub struct Arena {
    pub config: Config,
    pub asteroid_spawn_timer: Timer,
}

impl Arena {
    /// The spawn interval always lies between the floor and the initial
    /// interval, and the timer is a well-formed one-shot cycle.
    pub open spec fn wf(self) -> bool {
        &&& self.config.wf()
        &&& self.asteroid_spawn_timer.wf()
        &&& self.asteroid_spawn_timer.one_shot
        &&& self.config.interval_floor <= self.asteroid_spawn_timer.duration
            <= self.config.initial_interval
    }
}

/// Create the arena with a fresh one-shot spawn timer over the initial
/// interval. (Camera and background plumbing set up alongside the arena is
/// presentation work and stays outside the core.)
pub fn setup(config: &Config) -> (a: Arena)
    requires
        config.wf(),
    ensures
        a.wf(),
        a.config == *config,
        a.asteroid_spawn_timer == (Timer {
            duration: config.initial_interval,
            elapsed: 0,
            finished: false,
            one_shot: true,
        }),
{
    Arena {
        config: *config,
        asteroid_spawn_timer: Timer::new(config.initial_interval, true),
    }
}

/// One decay step of the spawn interval: shrink by the configured factor,
/// but never below the floor.
pub open spec fn spec_decayed(d: int, c: Config) -> int {
    if d * c.decay_num / (c.decay_den as int) < c.interval_floor {
        c.interval_floor as int
    } else {
        d * c.decay_num / (c.decay_den as int)
    }
}

/// The difficulty ramp is monotone and bounded: one decay step never
/// increases the interval and never takes it below the floor, so successive
/// firings yield a non-increasing interval that converges toward the floor.
pub proof fn lemma_decay_bounds(d: int, c: Config)
    requires
        c.wf(),
        c.interval_floor <= d,
    ensures
        c.interval_floor <= spec_decayed(d, c) <= d,
{
    let num = c.decay_num as int;
    let den = c.decay_den as int;
    lemma_mul_nonnegative(d, num);
    lemma_div_pos_is_pos(d * num, den);
    assert(d * num <= d * den) by (nonlinear_arith)
        requires
            0 <= d,
            num <= den,
    ;
    lemma_div_is_ordered(d * num, d * den, den);
    lemma_mul_is_commutative(d, den);
    lemma_div_multiples_vanish(d, den);
}

/// The shrunken spawn interval, floored.
pub fn decayed_duration(d: i64, c: &Config) -> (r: i64)
    requires
        c.wf(),
        c.interval_floor <= d <= c.initial_interval,
    ensures
        r == spec_decayed(d as int, *c),
        c.interval_floor <= r <= d,
{
    proof {
        lemma_decay_bounds(d as int, *c);
        assert((d as int) * (c.decay_num as int) <= 1_000_000_000_000) by (nonlinear_arith)
            requires
                0 <= d <= 1_000_000_000,
                0 <= c.decay_num <= 1000,
        ;
    }
    let prod: u64 = (d as u64) * (c.decay_num as u64);
    let shrunk: i64 = (prod / (c.decay_den as u64)) as i64;
    if shrunk < c.interval_floor {
        c.interval_floor
    } else {
        shrunk
    }
}

/// The spawn scheduler. Advances the spawn timer by `dt`; when the timer
/// fires it is reset, and — only while the observed asteroid population is
/// below the cap — the interval shrinks one decay step and one randomized
/// spawn request for a big asteroid on the top or left edge is emitted.
/// A firing over the cap keeps its cadence but emits nothing and keeps the
/// interval.
pub fn arena_spawn_system(
    arena: &mut Arena,
    dt: i64,
    asteroid_count: usize,
    events: &mut SpawnQueue,
)
    requires
        old(arena).wf(),
    ensures
        final(arena).wf(),
        final(arena).config == old(arena).config,
        // The interval ramp is non-increasing and floored.
        final(arena).asteroid_spawn_timer.duration
            <= old(arena).asteroid_spawn_timer.duration,
        old(arena).config.interval_floor <= final(arena).asteroid_spawn_timer.duration,
        // The timer transition, case by case.
        !old(arena).asteroid_spawn_timer.spec_tick(dt as int).finished ==> {
            &&& final(arena).asteroid_spawn_timer == old(arena).asteroid_spawn_timer.spec_tick(
                dt as int,
            )
            &&& final(events).events@ == old(events).events@
        },
        old(arena).asteroid_spawn_timer.spec_tick(dt as int).finished && asteroid_count >= old(
            arena,
        ).config.asteroid_cap ==> {
            &&& final(arena).asteroid_spawn_timer == old(
                arena,
            ).asteroid_spawn_timer.spec_reset()
            &&& final(events).events@ == old(events).events@
        },
        old(arena).asteroid_spawn_timer.spec_tick(dt as int).finished && asteroid_count < old(
            arena,
        ).config.asteroid_cap ==> {
            &&& final(arena).asteroid_spawn_timer == (Timer {
                duration: spec_decayed(
                    old(arena).asteroid_spawn_timer.duration as int,
                    old(arena).config,
                ) as i64,
                elapsed: 0,
                finished: false,
                one_shot: true,
            })
            &&& final(events).events@.len() == old(events).events@.len() + 1
            &&& forall|i: int|
                0 <= i < old(events).events@.len() ==> final(events).events@[i] == old(
                    events,
                ).events@[i]
            &&& valid_spawn_request(final(events).events@.last(), old(arena).config)
        },
        // A request is emitted only below the cap, and at most one per tick.
        final(events).events@.len() <= old(events).events@.len() + 1,
        final(events).events@.len() > old(events).events@.len() ==> asteroid_count < old(
            arena,
        ).config.asteroid_cap,
{
    arena.asteroid_spawn_timer.tick(dt);
    if arena.asteroid_spawn_timer.finished {
        arena.asteroid_spawn_timer.reset();
        if asteroid_count < arena.config.asteroid_cap {
            let d2: i64 = decayed_duration(arena.asteroid_spawn_timer.duration, &arena.config);
            arena.asteroid_spawn_timer.set_duration(d2);
            let hw: i64 = half_of(arena.config.arena_width);
            let hh: i64 = half_of(arena.config.arena_height);
            let qw: i64 = quarter_of(arena.config.arena_width);
            let qh: i64 = quarter_of(arena.config.arena_height);
            // Edge 0 is the top of the arena, edge 1 the left side.
            let side: i64 = draw_range(0, 2);
            let (x, y): (i64, i64) = if side == 0 {
                (draw_range(-hw, hw), hh)
            } else {
                (-hw, draw_range(-hh, hh))
            };
            let vx: i64 = draw_range(-qw, qw);
            let vy: i64 = draw_range(-qh, qh);
            let angvel: i64 = draw_range(-MAX_ANGULAR_VELOCITY, MAX_ANGULAR_VELOCITY);
            events.send(
                SpawnRequest { size: AsteroidSize::Big, x: x, y: y, vx: vx, vy: vy, angvel: angvel },
            );
        }
    }
}

/// One-sided wrap of one coordinate: relocated to the opposite boundary only
/// when the entity has fully exited and is still moving outward.
pub open spec fn wrap_coord(p: int, v: int, half: int) -> int {
    if p < -half && v < 0 {
        half
    } else if p > half && v > 0 {
        -half
    } else {
        p
    }
}

/// Wrap relocates coordinates only: velocity, spin and rotation are kept, and
/// each axis is treated independently.
pub open spec fn spec_wrap_body(b: Body, hw: int, hh: int) -> Body {
    Body {
        x: wrap_coord(b.x as int, b.vx as int, hw) as i64,
        y: wrap_coord(b.y as int, b.vy as int, hh) as i64,
        vx: b.vx,
        vy: b.vy,
        angvel: b.angvel,
        rotation: b.rotation,
    }
}

pub open spec fn spec_wrap_entity(e: Entity, hw: int, hh: int) -> Entity {
    if e.alive && e.body is Some {
        Entity { body: Some(spec_wrap_body(e.body->0, hw, hh)), ..e }
    } else {
        e
    }
}

/// The arena wrap pass: every live physics body that has fully exited a
/// boundary while moving outward is teleported to the opposite boundary.
/// Nothing else about any entity changes.
pub fn position_system(store: &mut EntityStore, config: &Config)
    requires
        config.wf(),
    ensures
        final(store).entities@.len() == old(store).entities@.len(),
        forall|i: int|
            0 <= i < old(store).entities@.len() ==> final(store).entities@[i] == spec_wrap_entity(
                old(store).entities@[i],
                config.half_width(),
                config.half_height(),
            ),
{
    let hw: i64 = half_of(config.arena_width);
    let hh: i64 = half_of(config.arena_height);
    let n: usize = store.len();
    let mut i: usize = 0;
    while i < n
        invariant
            i <= n,
            n == store.entities@.len(),
            store.entities@.len() == old(store).entities@.len(),
            hw == config.half_width(),
            hh == config.half_height(),
            forall|j: int|
                0 <= j < i ==> store.entities@[j] == spec_wrap_entity(
                    old(store).entities@[j],
                    config.half_width(),
                    config.half_height(),
                ),
            forall|j: int| i <= j < n ==> store.entities@[j] == old(store).entities@[j],
        decreases n - i,
    {
        let e = store.entities[i];
        if e.alive && e.body.is_some() {
            let b = e.body.unwrap();
            let mut x: i64 = b.x;
            let mut y: i64 = b.y;
            let mut updated: bool = false;
            if x < -hw && b.vx < 0 {
                x = hw;
                updated = true;
            } else if x > hw && b.vx > 0 {
                x = -hw;
                updated = true;
            }
            if y < -hh && b.vy < 0 {
                y = hh;
                updated = true;
            } else if y > hh && b.vy > 0 {
                y = -hh;
                updated = true;
            }
            if updated {
                store.set_entity(
                    i,
                    Entity {
                        body: Some(
                            Body {
                                x: x,
                                y: y,
                                vx: b.vx,
                                vy: b.vy,
                                angvel: b.angvel,
                                rotation: b.rotation,
                            },
                        ),
                        ..e
                    },
                );
            }
        }
        i = i + 1;
    }
}

} // verus!
