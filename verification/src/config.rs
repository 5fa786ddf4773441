//! Named, overridable configuration of the simulation core.
//!
//! Lengths are hundredths of a world unit, times are milliseconds. The
//! defaults describe a 1280 x 800 window seen at one-tenth scale, which gives
//! a 128.00 x 80.00 unit arena.

use vstd::prelude::*;

verus! {

pub const DEFAULT_ARENA_WIDTH: i64 = 12800;

pub const DEFAULT_ARENA_HEIGHT: i64 = 8000;

/// Most asteroids the scheduler tolerates before it skips a spawn cycle.
pub const DEFAULT_ASTEROID_CAP: usize = 20;

/// The spawn interval shrinks by the factor 4/5 after each successful spawn.
pub const DEFAULT_DECAY_NUM: i64 = 4;

pub const DEFAULT_DECAY_DEN: i64 = 5;

/// The spawn interval never drops below 0.1 seconds.
pub const DEFAULT_INTERVAL_FLOOR: i64 = 100;

/// The first spawn cycle lasts 5 seconds.
pub const DEFAULT_INITIAL_INTERVAL: i64 = 5000;

/// Lasers travel at 50.00 units per second.
pub const DEFAULT_LASER_SPEED: i64 = 5000;

/// Lasers are destroyed 2 seconds after they are fired.
pub const DEFAULT_LASER_LIFETIME: i64 = 2000;

/// Angular velocity draws lie in [-10.00, 10.00) radians per second.
pub const MAX_ANGULAR_VELOCITY: i64 = 1000;

#[derive(Clone, Copy, PartialEq, Eq, Structural, Debug)]
pub struct Config {
    /// Arena extent along x, in hundredths of a unit.
    pub arena_width: i64,
    /// Arena extent along y, in hundredths of a unit.
    pub arena_height: i64,
    /// Asteroid population cap observed at each scheduler firing.
    pub asteroid_cap: usize,
    /// Numerator of the spawn-interval decay factor.
    pub decay_num: i64,
    /// Denominator of the spawn-interval decay factor.
    pub decay_den: i64,
    /// Lower bound of the spawn interval, in milliseconds.
    pub interval_floor: i64,
    /// Duration of the first spawn cycle, in milliseconds.
    pub initial_interval: i64,
    /// Laser speed, in hundredths of a unit per second.
    pub laser_speed: i64,
    /// Laser lifetime, in milliseconds.
    pub laser_lifetime: i64,
}

impl Config {
    /// Bounds that keep every arithmetic step of the core inside `i64`.
    pub open spec fn wf(self) -> bool {
        &&& 4 <= self.arena_width <= 100_000_000
        &&& 4 <= self.arena_height <= 100_000_000
        &&& 1 <= self.interval_floor <= self.initial_interval <= 1_000_000_000
        &&& 1 <= self.decay_num <= self.decay_den <= 1000
        &&& 1 <= self.laser_speed <= 1_000_000
        &&& 1 <= self.laser_lifetime <= 1_000_000_000
    }

    pub open spec fn half_width(self) -> int {
        self.arena_width as int / 2
    }

    pub open spec fn half_height(self) -> int {
        self.arena_height as int / 2
    }

    pub open spec fn quarter_width(self) -> int {
        self.arena_width as int / 4
    }

    pub open spec fn quarter_height(self) -> int {
        self.arena_height as int / 4
    }

    pub fn new_default() -> (c: Config)
        ensures
            c == (Config {
                arena_width: DEFAULT_ARENA_WIDTH,
                arena_height: DEFAULT_ARENA_HEIGHT,
                asteroid_cap: DEFAULT_ASTEROID_CAP,
                decay_num: DEFAULT_DECAY_NUM,
                decay_den: DEFAULT_DECAY_DEN,
                interval_floor: DEFAULT_INTERVAL_FLOOR,
                initial_interval: DEFAULT_INITIAL_INTERVAL,
                laser_speed: DEFAULT_LASER_SPEED,
                laser_lifetime: DEFAULT_LASER_LIFETIME,
            }),
            c.wf(),
    {
        Config {
            arena_width: DEFAULT_ARENA_WIDTH,
            arena_height: DEFAULT_ARENA_HEIGHT,
            asteroid_cap: DEFAULT_ASTEROID_CAP,
            decay_num: DEFAULT_DECAY_NUM,
            decay_den: DEFAULT_DECAY_DEN,
            interval_floor: DEFAULT_INTERVAL_FLOOR,
            initial_interval: DEFAULT_INITIAL_INTERVAL,
            laser_speed: DEFAULT_LASER_SPEED,
            laser_lifetime: DEFAULT_LASER_LIFETIME,
        }
    }
}

/// Half of a nonnegative length, rounding down.
pub fn half_of(v: i64) -> (r: i64)
    requires
        0 <= v,
    ensures
        r == v as int / 2,
{
    ((v as u64) / 2) as i64
}

/// A quarter of a nonnegative length, rounding down.
pub fn quarter_of(v: i64) -> (r: i64)
    requires
        0 <= v,
    ensures
        r == v as int / 4,
{
    ((v as u64) / 4) as i64
}

} // verus!
