use arena_core::spawn::{
    collision_radius, spawn_asteroid_system, AsteroidSize, SpawnAsteroidState, SpawnQueue,
    SpawnRequest, ASTEROID_DAMAGE, ASTEROID_FRICTION, BIG_RADIUS, MEDIUM_RADIUS, SMALL_RADIUS,
};
use arena_core::store::{ColliderShape, EntityStore};

fn request(size: AsteroidSize, x: i64, y: i64, vx: i64, vy: i64, angvel: i64) -> SpawnRequest {
    SpawnRequest { size, x, y, vx, vy, angvel }
}

#[test]
fn radii_match_the_size() {
    assert_eq!(collision_radius(AsteroidSize::Big), BIG_RADIUS);
    assert_eq!(collision_radius(AsteroidSize::Medium), MEDIUM_RADIUS);
    assert_eq!(collision_radius(AsteroidSize::Small), SMALL_RADIUS);
    assert_eq!(BIG_RADIUS, 505);
    assert_eq!(MEDIUM_RADIUS, 215);
    assert_eq!(SMALL_RADIUS, 140);
}

#[test]
fn consuming_n_requests_produces_n_asteroids() {
    let mut q = SpawnQueue::new();
    q.send(request(AsteroidSize::Big, 10, 20, 1, 2, 3));
    q.send(request(AsteroidSize::Medium, -10, -20, -1, -2, -3));
    q.send(request(AsteroidSize::Small, 0, 0, 0, 0, 0));
    let mut state = SpawnAsteroidState::new();
    let mut store = EntityStore::new();
    spawn_asteroid_system(&mut state, &q, &mut store);
    assert_eq!(store.len(), 3);
    assert_eq!(store.asteroid_count(), 3);
    let radii = [BIG_RADIUS, MEDIUM_RADIUS, SMALL_RADIUS];
    for (i, want) in radii.iter().enumerate() {
        let e = store.entities[i];
        assert!(e.alive);
        let collider = e.collider.unwrap();
        assert_eq!(collider.shape, ColliderShape::Ball { radius: *want });
        assert!(!collider.sensor);
        assert_eq!(collider.friction, ASTEROID_FRICTION);
        assert_eq!(e.damage.unwrap().value, ASTEROID_DAMAGE);
        assert!(e.asteroid.is_some());
        assert!(e.laser.is_none());
    }
    let body = store.entities[0].body.unwrap();
    assert_eq!((body.x, body.y), (10, 20));
    assert_eq!((body.vx, body.vy), (1, 2));
    assert_eq!(body.angvel, 3);
    assert_eq!(body.rotation, 0);
}

#[test]
fn cursor_prevents_reprocessing() {
    let mut q = SpawnQueue::new();
    q.send(request(AsteroidSize::Big, 1, 2, 3, 4, 5));
    let mut state = SpawnAsteroidState::new();
    let mut store = EntityStore::new();
    spawn_asteroid_system(&mut state, &q, &mut store);
    assert_eq!(store.len(), 1);
    spawn_asteroid_system(&mut state, &q, &mut store);
    assert_eq!(store.len(), 1);
    q.send(request(AsteroidSize::Big, 6, 7, 8, 9, 10));
    spawn_asteroid_system(&mut state, &q, &mut store);
    assert_eq!(store.len(), 2);
    assert_eq!(store.entities[1].body.unwrap().x, 6);
}

#[test]
fn consumer_leaves_existing_entities_alone() {
    let mut q = SpawnQueue::new();
    q.send(request(AsteroidSize::Big, 1, 1, 1, 1, 1));
    let mut state = SpawnAsteroidState::new();
    let mut store = EntityStore::new();
    spawn_asteroid_system(&mut state, &q, &mut store);
    q.send(request(AsteroidSize::Small, 2, 2, 2, 2, 2));
    spawn_asteroid_system(&mut state, &q, &mut store);
    assert_eq!(store.len(), 2);
    assert_eq!(store.entities[0].body.unwrap().x, 1);
    assert_eq!(store.entities[1].body.unwrap().x, 2);
}

#[test]
fn empty_queue_is_a_noop() {
    let q = SpawnQueue::new();
    let mut state = SpawnAsteroidState::new();
    let mut store = EntityStore::new();
    spawn_asteroid_system(&mut state, &q, &mut store);
    assert_eq!(store.len(), 0);
    assert_eq!(store.asteroid_count(), 0);
}
