use arena_core::config::Config;
use arena_core::world::{world_tick, World};

#[test]
fn first_tick_after_the_interval_spawns_one_asteroid() {
    let mut w = World::new(&Config::new_default());
    world_tick(&mut w, 4999);
    assert_eq!(w.store.len(), 0);
    world_tick(&mut w, 1);
    assert_eq!(w.store.len(), 1);
    assert_eq!(w.store.asteroid_count(), 1);
    assert!(w.store.entities[0].asteroid.is_some());
}

#[test]
fn the_queue_is_drained_every_tick() {
    let mut w = World::new(&Config::new_default());
    for _ in 0..10 {
        world_tick(&mut w, 10_000);
        assert_eq!(w.spawn_events.len(), 0);
        assert_eq!(w.spawn_state.cursor, 0);
    }
}

#[test]
fn asteroid_population_never_exceeds_the_cap() {
    let mut w = World::new(&Config::new_default());
    let cap = w.arena.config.asteroid_cap;
    for _ in 0..200 {
        world_tick(&mut w, 10_000);
        assert!(w.store.asteroid_count() <= cap);
    }
    // The ramp has long since hit the floor, so the cap is actually reached.
    assert_eq!(w.store.asteroid_count(), cap);
}

#[test]
fn spawn_interval_is_non_increasing_and_floored_across_ticks() {
    let mut w = World::new(&Config::new_default());
    let mut last = w.arena.asteroid_spawn_timer.duration;
    for _ in 0..120 {
        world_tick(&mut w, 10_000);
        let d = w.arena.asteroid_spawn_timer.duration;
        assert!(d <= last);
        assert!(d >= w.arena.config.interval_floor);
        last = d;
    }
    assert_eq!(last, w.arena.config.interval_floor);
}

#[test]
fn a_tick_with_no_time_changes_nothing() {
    let mut w = World::new(&Config::new_default());
    world_tick(&mut w, 5000);
    let entities_before = w.store.len();
    let duration_before = w.arena.asteroid_spawn_timer.duration;
    let elapsed_before = w.arena.asteroid_spawn_timer.elapsed;
    world_tick(&mut w, 0);
    world_tick(&mut w, -100);
    assert_eq!(w.store.len(), entities_before);
    assert_eq!(w.arena.asteroid_spawn_timer.duration, duration_before);
    assert_eq!(w.arena.asteroid_spawn_timer.elapsed, elapsed_before);
}

#[test]
fn destroyed_asteroids_make_room_for_new_ones() {
    let mut w = World::new(&Config::new_default());
    for _ in 0..60 {
        world_tick(&mut w, 10_000);
    }
    let cap = w.arena.config.asteroid_cap;
    assert_eq!(w.store.asteroid_count(), cap);
    // An external collision system destroys one asteroid...
    w.store.despawn(0);
    assert_eq!(w.store.asteroid_count(), cap - 1);
    // ...and the scheduler fills the slot again on a later firing.
    world_tick(&mut w, 10_000);
    assert_eq!(w.store.asteroid_count(), cap);
}
