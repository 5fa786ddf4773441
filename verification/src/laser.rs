//! The projectile lifecycle: lasers are fired along a parent body's heading
//! and culled once their individual countdown expires.

use vstd::prelude::*;

use crate::config::Config;
use crate::store::{
    count_asteroids, lasers_wf, lemma_count_push, Body, Collider, ColliderShape, Entity,
    EntityStore, Laser,
};
use crate::timer::Timer;

verus! {

/// Laser collider half-extent along x, in hundredths of a unit.
pub const LASER_HALF_WIDTH: i64 = 25;

/// Laser collider half-extent along y, in hundredths of a unit.
pub const LASER_HALF_HEIGHT: i64 = 100;

/// A unit forward vector is handed in scaled by this factor.
pub const FORWARD_SCALE: i64 = 1000;

/// `f * speed / FORWARD_SCALE`, truncated toward zero.
pub open spec fn spec_scaled_velocity(f: int, speed: int) -> int {
    if f >= 0 {
        f * speed / (FORWARD_SCALE as int)
    } else {
        -((-f) * speed / (FORWARD_SCALE as int))
    }
}

/// One component of the forward unit vector scaled to the laser's speed.
fn scaled_velocity(f: i64, speed: i64) -> (r: i64)
    requires
        -FORWARD_SCALE <= f <= FORWARD_SCALE,
        1 <= speed <= 1_000_000,
    ensures
        r == spec_scaled_velocity(f as int, speed as int),
{
    let mag: i64 = if f >= 0 {
        f
    } else {
        -f
    };
    proof {
        assert((mag as int) * (speed as int) <= 1_000_000_000) by (nonlinear_arith)
            requires
                0 <= mag <= 1000,
                0 <= speed <= 1_000_000,
        ;
    }
    let sv: i64 = (((mag as u64) * (speed as u64)) / (FORWARD_SCALE as u64)) as i64;
    if f >= 0 {
        sv
    } else {
        -sv
    }
}

/// The entity a fired laser materializes into: the parent's position and
/// rotation, velocity along the parent's forward direction at the configured
/// speed, a small rectangular sensor collider (detection only, so no
/// friction applies), and the countdown tag over the configured lifetime.
pub open spec fn spec_laser_entity(parent: Body, fx: i64, fy: i64, c: Config) -> Entity {
    Entity {
        alive: true,
        body: Some(
            Body {
                x: parent.x,
                y: parent.y,
                vx: spec_scaled_velocity(fx as int, c.laser_speed as int) as i64,
                vy: spec_scaled_velocity(fy as int, c.laser_speed as int) as i64,
                angvel: 0,
                rotation: parent.rotation,
            },
        ),
        collider: Some(
            Collider {
                shape: ColliderShape::Cuboid {
                    half_x: LASER_HALF_WIDTH,
                    half_y: LASER_HALF_HEIGHT,
                },
                sensor: true,
                friction: 0,
            },
        ),
        asteroid: None,
        damage: None,
        laser: Some(
            Laser {
                despawn_timer: Timer {
                    duration: c.laser_lifetime,
                    elapsed: 0,
                    finished: false,
                    one_shot: true,
                },
            },
        ),
    }
}

/// Fire a laser from a parent body. `forward_x`/`forward_y` are the parent's
/// rotation applied to the arena's up unit vector, scaled by `FORWARD_SCALE`;
/// the trigonometry that computes them stays outside the verified core.
pub fn spawn_laser(
    store: &mut EntityStore,
    parent: &Body,
    forward_x: i64,
    forward_y: i64,
    config: &Config,
) -> (h: usize)
    requires
        config.wf(),
        -FORWARD_SCALE <= forward_x <= FORWARD_SCALE,
        -FORWARD_SCALE <= forward_y <= FORWARD_SCALE,
    ensures
        final(store).entities@ == old(store).entities@.push(
            spec_laser_entity(*parent, forward_x, forward_y, *config),
        ),
        h == old(store).entities@.len(),
        count_asteroids(final(store).entities@) == count_asteroids(old(store).entities@),
{
    let vx: i64 = scaled_velocity(forward_x, config.laser_speed);
    let vy: i64 = scaled_velocity(forward_y, config.laser_speed);
    let e = Entity {
        alive: true,
        body: Some(
            Body {
                x: parent.x,
                y: parent.y,
                vx: vx,
                vy: vy,
                angvel: 0,
                rotation: parent.rotation,
            },
        ),
        collider: Some(
            Collider {
                shape: ColliderShape::Cuboid {
                    half_x: LASER_HALF_WIDTH,
                    half_y: LASER_HALF_HEIGHT,
                },
                sensor: true,
                friction: 0,
            },
        ),
        asteroid: None,
        damage: None,
        laser: Some(Laser { despawn_timer: Timer::new(config.laser_lifetime, true) }),
    };
    let ghost pre = store.entities@;
    let h = store.spawn(e);
    proof {
        lemma_count_push(pre, e);
    }
    h
}

/// What the despawn sweep does to one entity: a live laser's countdown is
/// advanced by `dt`, and the entity survives exactly until the countdown
/// finishes — it is destroyed in the same tick, with no grace period.
pub open spec fn spec_laser_sweep_entity(e: Entity, dt: int) -> Entity {
    if e.alive && e.laser is Some {
        Entity {
            alive: !(e.laser->0).despawn_timer.spec_tick(dt).finished,
            laser: Some(Laser { despawn_timer: (e.laser->0).despawn_timer.spec_tick(dt) }),
            ..e
        }
    } else {
        e
    }
}

/// The despawn sweep: advance every live laser's countdown by `dt` and
/// destroy the entity the moment the countdown finishes. No other entity,
/// and nothing else about a laser, changes.
pub fn despawn_laser_system(store: &mut EntityStore, dt: i64)
    requires
        lasers_wf(old(store).entities@),
    ensures
        final(store).entities@.len() == old(store).entities@.len(),
        forall|i: int|
            0 <= i < old(store).entities@.len() ==> final(store).entities@[i]
                == spec_laser_sweep_entity(old(store).entities@[i], dt as int),
        lasers_wf(final(store).entities@),
{
    let n: usize = store.len();
    let mut i: usize = 0;
    while i < n
        invariant
            i <= n,
            n == store.entities@.len(),
            store.entities@.len() == old(store).entities@.len(),
            lasers_wf(old(store).entities@),
            forall|j: int|
                0 <= j < i ==> store.entities@[j] == spec_laser_sweep_entity(
                    old(store).entities@[j],
                    dt as int,
                ),
            forall|j: int| i <= j < n ==> store.entities@[j] == old(store).entities@[j],
        decreases n - i,
    {
        let e = store.entities[i];
        if e.alive && e.laser.is_some() {
            let l = e.laser.unwrap();
            let mut t = l.despawn_timer;
            t.tick(dt);
            store.set_entity(
                i,
                Entity { alive: !t.finished, laser: Some(Laser { despawn_timer: t }), ..e },
            );
        }
        i = i + 1;
    }
    proof {
        assert forall|i: int|
            0 <= i < store.entities@.len() && store.entities@[i].laser is Some implies (
        store.entities@[i].laser->0).despawn_timer.wf() by {
            if old(store).entities@[i].alive && old(store).entities@[i].laser is Some {
                (old(store).entities@[i].laser->0).despawn_timer.lemma_spec_tick_wf(dt as int);
            }
        }
    }
}

} // verus!
