//! The shared entity arena.
//!
//! An entity is a stable integer handle owning optional attached records: a
//! physics body, a collider shape, and gameplay tags. Handles stay valid for
//! the life of the store; destruction clears the `alive` flag, so iteration
//! never invalidates a handle. Every physics-tagged entity holds its body
//! record itself, so a tagged entity without a body cannot arise.

use vstd::prelude::*;

use crate::spawn::AsteroidSize;
use crate::timer::Timer;

verus! {

/// A dynamic physics body. Lengths are hundredths of a unit, velocities
/// hundredths of a unit per second, angles hundredths of a radian.
#[derive(Clone, Copy, PartialEq, Eq, Structural, Debug)]
pub struct Body {
    pub x: i64,
    pub y: i64,
    pub vx: i64,
    pub vy: i64,
    pub angvel: i64,
    pub rotation: i64,
}

/// A collision shape; extents are hundredths of a unit.
#[derive(Clone, Copy, PartialEq, Eq, Structural, Debug)]
pub enum ColliderShape {
    Ball { radius: i64 },
    Cuboid { half_x: i64, half_y: i64 },
}

/// A collider: a shape, a sensor flag (detection without collision response),
/// and a friction coefficient in hundredths.
#[derive(Clone, Copy, PartialEq, Eq, Structural, Debug)]
pub struct Collider {
    pub shape: ColliderShape,
    pub sensor: bool,
    pub friction: i64,
}

#[derive(Clone, Copy, PartialEq, Eq, Structural, Debug)]
pub struct Asteroid {
    pub size: AsteroidSize,
}

#[derive(Clone, Copy, PartialEq, Eq, Structural, Debug)]
pub struct Damage {
    pub value: u32,
}

#[derive(Clone, Copy, PartialEq, Eq, Structural, Debug)]
pub struct Laser {
    pub despawn_timer: Timer,
}

/// One slot of the arena: an identity with its attached records.
#[derive(Clone, Copy, Debug)]
pub struct Entity {
    pub alive: bool,
    pub body: Option<Body>,
    pub collider: Option<Collider>,
    pub asteroid: Option<Asteroid>,
    pub damage: Option<Damage>,
    pub laser: Option<Laser>,
}

/// An entity counts toward the asteroid population while it is alive and
/// tagged as an asteroid.
pub open spec fn is_asteroid(e: Entity) -> bool {
    e.alive && e.asteroid is Some
}

/// Number of live asteroid entities in a slice of the arena.
pub open spec fn count_asteroids(s: Seq<Entity>) -> int
    decreases s.len(),
{
    if s.len() == 0 {
        0
    } else {
        count_asteroids(s.drop_last()) + if is_asteroid(s.last()) {
            1int
        } else {
            0int
        }
    }
}

pub proof fn lemma_count_push(s: Seq<Entity>, e: Entity)
    ensures
        count_asteroids(s.push(e)) == count_asteroids(s) + if is_asteroid(e) {
            1int
        } else {
            0int
        },
{
    assert(s.push(e).drop_last() =~= s);
}

/// A larger count can only come from slots that count in one sequence but
/// not in the other.
pub proof fn lemma_count_le_pointwise(s1: Seq<Entity>, s2: Seq<Entity>)
    requires
        s1.len() == s2.len(),
        forall|i: int| 0 <= i < s1.len() ==> (is_asteroid(s2[i]) ==> is_asteroid(s1[i])),
    ensures
        count_asteroids(s2) <= count_asteroids(s1),
    decreases s1.len(),
{
    if s1.len() > 0 {
        assert forall|i: int|
            0 <= i < s1.drop_last().len() implies (is_asteroid(s2.drop_last()[i]) ==> is_asteroid(
            s1.drop_last()[i],
        )) by {
            assert(s1.drop_last()[i] == s1[i]);
            assert(s2.drop_last()[i] == s2[i]);
        }
        lemma_count_le_pointwise(s1.drop_last(), s2.drop_last());
        assert(is_asteroid(s2.last()) ==> is_asteroid(s1.last()));
    }
}

/// Slot-for-slot equal asteroid membership gives equal counts.
pub proof fn lemma_count_eq_pointwise(s1: Seq<Entity>, s2: Seq<Entity>)
    requires
        s1.len() == s2.len(),
        forall|i: int| 0 <= i < s1.len() ==> is_asteroid(s1[i]) == is_asteroid(s2[i]),
    ensures
        count_asteroids(s2) == count_asteroids(s1),
{
    lemma_count_le_pointwise(s1, s2);
    lemma_count_le_pointwise(s2, s1);
}

/// Every laser countdown in the arena is a well-formed timer.
pub open spec fn lasers_wf(s: Seq<Entity>) -> bool {
    forall|i: int|
        0 <= i < s.len() ==> (s[i].laser is Some ==> (#[trigger] s[i].laser->0).despawn_timer.wf())
}

pub struct EntityStore {
    pub entities: Vec<Entity>,
}

impl EntityStore {
    pub fn new() -> (s: EntityStore)
        ensures
            s.entities@ == Seq::<Entity>::empty(),
    {
        EntityStore { entities: Vec::new() }
    }

    /// Number of live asteroid entities.
    pub fn asteroid_count(&self) -> (n: usize)
        ensures
            n == count_asteroids(self.entities@),
    {
        let mut n: usize = 0;
        let mut i: usize = 0;
        while i < self.entities.len()
            invariant
                i <= self.entities@.len(),
                n <= i,
                n == count_asteroids(self.entities@.take(i as int)),
            decreases self.entities@.len() - i,
        {
            proof {
                assert(self.entities@.take(i as int + 1).drop_last() =~= self.entities@.take(
                    i as int,
                ));
            }
            let e = &self.entities[i];
            if e.alive && e.asteroid.is_some() {
                n = n + 1;
            }
            i = i + 1;
        }
        proof {
            assert(self.entities@.take(self.entities@.len() as int) =~= self.entities@);
        }
        n
    }

    /// Create an entity; the returned handle indexes it forever after.
    pub fn spawn(&mut self, e: Entity) -> (h: usize)
        ensures
            final(self).entities@ == old(self).entities@.push(e),
            h == old(self).entities@.len(),
    {
        let h = self.entities.len();
        self.entities.push(e);
        h
    }

    /// Replace the records of one slot.
    pub fn set_entity(&mut self, i: usize, e: Entity)
        requires
            i < old(self).entities@.len(),
        ensures
            final(self).entities@ == old(self).entities@.update(i as int, e),
    {
        let slot = &mut self.entities[i];
        *slot = e;
    }

    /// Destroy an entity immediately; its handle stays valid but dead.
    pub fn despawn(&mut self, i: usize)
        requires
            i < old(self).entities@.len(),
        ensures
            final(self).entities@ == old(self).entities@.update(
                i as int,
                (Entity { alive: false, ..old(self).entities@[i as int] }),
            ),
    {
        let e = self.entities[i];
        let slot = &mut self.entities[i];
        *slot = Entity { alive: false, ..e };
    }

    pub fn len(&self) -> (n: usize)
        ensures
            n == self.entities@.len(),
    {
        self.entities.len()
    }
}

} // verus!
