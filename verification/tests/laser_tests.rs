use arena_core::config::Config;
use arena_core::laser::{
    despawn_laser_system, spawn_laser, FORWARD_SCALE, LASER_HALF_HEIGHT, LASER_HALF_WIDTH,
};
use arena_core::store::{Body, ColliderShape, Entity, EntityStore};
use arena_core::timer::Timer;

fn parent(x: i64, y: i64, rotation: i64) -> Body {
    Body { x, y, vx: 42, vy: -42, angvel: 5, rotation }
}

#[test]
fn laser_inherits_position_and_rotation_and_moves_forward() {
    let mut store = EntityStore::new();
    let c = Config::new_default();
    // Forward is the parent's rotation applied to the up unit vector; here
    // the parent looks straight up.
    let h = spawn_laser(&mut store, &parent(100, 200, 314), 0, FORWARD_SCALE, &c);
    assert_eq!(h, 0);
    let e = store.entities[0];
    assert!(e.alive);
    let b = e.body.unwrap();
    assert_eq!((b.x, b.y), (100, 200));
    assert_eq!((b.vx, b.vy), (0, 5000));
    assert_eq!(b.rotation, 314);
    assert_eq!(b.angvel, 0);
    let col = e.collider.unwrap();
    assert_eq!(
        col.shape,
        ColliderShape::Cuboid { half_x: LASER_HALF_WIDTH, half_y: LASER_HALF_HEIGHT }
    );
    assert!(col.sensor);
    let timer = e.laser.unwrap().despawn_timer;
    assert_eq!(timer, Timer { duration: 2000, elapsed: 0, finished: false, one_shot: true });
    assert!(e.asteroid.is_none());
    assert!(e.damage.is_none());
}

#[test]
fn laser_velocity_follows_a_negative_direction() {
    let mut store = EntityStore::new();
    let c = Config::new_default();
    spawn_laser(&mut store, &parent(0, 0, 0), -FORWARD_SCALE, 0, &c);
    let b = store.entities[0].body.unwrap();
    assert_eq!((b.vx, b.vy), (-5000, 0));
}

#[test]
fn laser_velocity_scales_fractional_directions() {
    let mut store = EntityStore::new();
    let c = Config::new_default();
    // A diagonal direction: cos 45 and sin 45 are about 0.707.
    spawn_laser(&mut store, &parent(0, 0, 0), 707, -707, &c);
    let b = store.entities[0].body.unwrap();
    assert_eq!((b.vx, b.vy), (3535, -3535));
}

#[test]
fn laser_expires_exactly_on_the_fourth_half_second() {
    let mut store = EntityStore::new();
    let c = Config::new_default();
    spawn_laser(&mut store, &parent(0, 0, 0), 0, FORWARD_SCALE, &c);
    for step in 1..=4 {
        despawn_laser_system(&mut store, 500);
        if step < 4 {
            assert!(store.entities[0].alive, "alive through step {step}");
        } else {
            assert!(!store.entities[0].alive, "destroyed on step {step}");
        }
    }
}

#[test]
fn laser_dies_the_same_tick_the_countdown_finishes() {
    let mut store = EntityStore::new();
    let c = Config::new_default();
    spawn_laser(&mut store, &parent(0, 0, 0), 0, FORWARD_SCALE, &c);
    despawn_laser_system(&mut store, 2000);
    assert!(!store.entities[0].alive);
}

#[test]
fn sweep_leaves_non_lasers_alone() {
    let mut store = EntityStore::new();
    store.spawn(Entity {
        alive: true,
        body: None,
        collider: None,
        asteroid: None,
        damage: None,
        laser: None,
    });
    despawn_laser_system(&mut store, 10_000);
    assert!(store.entities[0].alive);
}
