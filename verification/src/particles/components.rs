//! The data of particles and of the emitters that spawn them.
use crate::timer::{completed_periods, RepeatingTimer, NANOS_PER_SECOND};
use vstd::prelude::*;

verus! {

/// Millionths of a world unit in one world unit: lengths and speeds are
/// counted in this fine unit.
pub const MICROS_PER_UNIT: u64 = 1_000_000;

/// Spawn rates are counted in thousandths of a particle per second.
pub const RATE_SCALE: u64 = 1_000;

/// The emission progress that makes one particle: an emitter's spawn timer
/// advances by its spawn rate for every nanosecond, so a rate of `r`
/// thousandths of a particle per second completes this period `r` times in a
/// thousand seconds.
pub const SPAWN_PERIOD: u64 = NANOS_PER_SECOND * RATE_SCALE;

/// A velocity in millionths of a world unit per second.
#[derive(Clone, Copy, Debug, PartialEq, Eq)]
pub struct Velocity {
    pub x: i64,
    pub y: i64,
    pub z: i64,
}

impl Velocity {
    /// The velocity of a body at rest.
    pub fn zero() -> (v: Self)
        ensures
            v.x == 0 && v.y == 0 && v.z == 0,
    {
        Velocity { x: 0, y: 0, z: 0 }
    }
}

/// What a particle is given when it is spawned.
#[derive(Clone, Copy, Debug, PartialEq, Eq)]
pub struct ParticleConfig {
    /// The age, in nanoseconds, at which the particle dies.
    pub max_lifetime: u64,
    pub velocity: Velocity,
}

impl Default for ParticleConfig {
    /// A one-second lifetime and no motion.
    fn default() -> (config: Self)
        ensures
            config.max_lifetime == NANOS_PER_SECOND,
            config.velocity == (Velocity { x: 0, y: 0, z: 0 }),
    {
        ParticleConfig { max_lifetime: NANOS_PER_SECOND, velocity: Velocity::zero() }
    }
}

/// A live particle: its configuration and its age in nanoseconds.
#[derive(Clone, Copy, Debug, PartialEq, Eq)]
pub struct Particle {
    pub config: ParticleConfig,
    pub age: u64,
}

/// A particle's age as an exact fraction of its lifetime.
#[derive(Clone, Copy, Debug, PartialEq, Eq)]
pub struct AgeRatio {
    pub numerator: u64,
    pub denominator: u64,
}

impl Default for Particle {
    /// A newborn particle with the default configuration.
    fn default() -> (particle: Self)
        ensures
            particle.age == 0,
            particle.config.max_lifetime == NANOS_PER_SECOND,
            particle.config.velocity == (Velocity { x: 0, y: 0, z: 0 }),
    {
        Particle { age: 0, config: ParticleConfig::default() }
    }
}

impl Particle {
    /// A particle lives while it is younger than its lifetime.
    pub open spec fn alive(self) -> bool {
        self.age < self.config.max_lifetime
    }

    /// Whether the particle is still alive.
    pub fn is_alive(&self) -> (alive: bool)
        ensures
            alive == self.alive(),
            alive == (self.age < self.config.max_lifetime),
    {
        self.age < self.config.max_lifetime
    }

    /// The particle's age over its lifetime, as the exact fraction
    /// `age / max_lifetime`.
    pub fn age_ratio(&self) -> (ratio: AgeRatio)
        ensures
            ratio.numerator == self.age,
            ratio.denominator == self.config.max_lifetime,
            self.alive() ==> ratio.numerator < ratio.denominator,
    {
        AgeRatio { numerator: self.age, denominator: self.config.max_lifetime }
    }
}

/// How long the particles of an emitter live, in nanoseconds.
#[derive(Clone, Copy, Debug, PartialEq, Eq)]
pub enum Lifetime {
    /// Every particle lives this long.
    Static(u64),
    /// Each particle draws its lifetime from `min` (included) to `max`
    /// (excluded).
    Random { min: u64, max: u64 },
}

impl Lifetime {
    /// A random lifetime needs a range that is not empty.
    pub open spec fn wf(self) -> bool {
        match self {
            Lifetime::Static(_) => true,
            Lifetime::Random { min, max } => min < max,
        }
    }

    /// Whether `lifetime` is one that this setting can give a particle.
    pub open spec fn admits(self, lifetime: u64) -> bool {
        match self {
            Lifetime::Static(fixed) => lifetime == fixed,
            Lifetime::Random { min, max } => min <= lifetime < max,
        }
    }
}

/// The region that an emitter spawns its particles in, around its own place.
#[derive(Clone, Copy, Debug, PartialEq, Eq)]
pub enum EmissionShape {
    /// At the emitter itself.
    Point,
    /// Anywhere in a flat disc of this radius, in millionths of a world unit.
    Circle { radius: u64 },
    /// In a cone of this opening angle, in microradians.
    Cone { angle: u64 },
}

impl EmissionShape {
    /// A disc to sample from needs a positive radius.
    pub open spec fn wf(self) -> bool {
        match self {
            EmissionShape::Circle { radius } => radius > 0,
            _ => true,
        }
    }
}

impl Default for EmissionShape {
    /// A single point.
    fn default() -> (shape: Self)
        ensures
            shape == EmissionShape::Point,
    {
        EmissionShape::Point
    }
}

/// An emitter: it spawns particles at its rate.
#[derive(Clone, Copy, Debug, PartialEq, Eq)]
pub struct Emitter {
    /// The rate at which particles are spawned, in thousandths of a particle
    /// per second (ten particles per second is `10_000`).
    pub spawn_rate: u64,
    /// Emission progress: it advances by `spawn_rate` for every nanosecond
    /// and finishes once for every particle due.
    pub spawn_timer: RepeatingTimer,
    pub shape: EmissionShape,
    pub particles_lifetime: Lifetime,
}

impl Emitter {
    /// The emitter keeps the spawn period and can sample its shape and its
    /// particles' lifetimes.
    pub open spec fn wf(self) -> bool {
        &&& self.spawn_timer.duration == SPAWN_PERIOD
        &&& self.shape.wf()
        &&& self.particles_lifetime.wf()
    }

    /// The emission progress made in `delta` nanoseconds: the spawn rate
    /// times the time.
    pub open spec fn progress(self, delta: nat) -> nat {
        delta * (self.spawn_rate as nat)
    }

    /// Whether the spawn timer reaches its period when the emitter advances
    /// by `delta` nanoseconds.
    pub open spec fn finishes(self, delta: nat) -> bool {
        self.spawn_timer.elapsed + self.progress(delta) >= self.spawn_timer.duration
    }

    /// How many particles fall due when the emitter advances by `delta`
    /// nanoseconds: the whole periods that its spawn timer completes.
    pub open spec fn due(self, delta: nat) -> nat {
        completed_periods(
            self.spawn_timer.duration as nat,
            self.spawn_timer.elapsed as nat,
            self.progress(delta),
        )
    }

    /// The emission progress made in `delta` nanoseconds.
    pub fn emission_progress(&self, delta: u64) -> (progress: u128)
        ensures
            progress == self.progress(delta as nat),
            progress <= 0xffff_ffff_ffff_ffffnat * 0xffff_ffff_ffff_ffffnat,
    {
        proof {
            vstd::arithmetic::mul::lemma_mul_upper_bound(
                delta as int,
                u64::MAX as int,
                self.spawn_rate as int,
                u64::MAX as int,
            );
        }
        (delta as u128) * (self.spawn_rate as u128)
    }

    /// Whether the spawn timer reaches its period when the emitter advances
    /// by `delta` nanoseconds.
    pub fn finishes_in(&self, delta: u64) -> (finishes: bool)
        ensures
            finishes == self.finishes(delta as nat),
    {
        (self.spawn_timer.elapsed as u128) + self.emission_progress(delta)
            >= (self.spawn_timer.duration as u128)
    }

    /// Whether the emitter keeps the spawn period and can sample its shape
    /// and its particles' lifetimes.
    pub fn is_valid(&self) -> (ok: bool)
        ensures
            ok == self.wf(),
    {
        let shape_ok = match self.shape {
            EmissionShape::Circle { radius } => radius > 0,
            _ => true,
        };
        let lifetime_ok = match self.particles_lifetime {
            Lifetime::Random { min, max } => min < max,
            Lifetime::Static(_) => true,
        };
        self.spawn_timer.duration == SPAWN_PERIOD && shape_ok && lifetime_ok
    }
}

impl Default for Emitter {
    /// Ten particles a second, from a point, each living one second.
    fn default() -> (emitter: Self)
        ensures
            emitter.spawn_rate == 10 * RATE_SCALE,
            emitter.spawn_timer.duration == SPAWN_PERIOD,
            emitter.spawn_timer.elapsed == 0,
            emitter.spawn_timer.times_finished_this_tick == 0,
            emitter.shape == EmissionShape::Point,
            emitter.particles_lifetime == Lifetime::Static(NANOS_PER_SECOND),
            emitter.wf(),
    {
        Emitter {
            spawn_rate: 10 * RATE_SCALE,
            spawn_timer: RepeatingTimer::new(SPAWN_PERIOD),
            shape: EmissionShape::Point,
            particles_lifetime: Lifetime::Static(NANOS_PER_SECOND),
        }
    }
}

/// Marks an entity that draws the outline of an emitter's shape.
#[derive(Clone, Copy, Debug, PartialEq, Eq)]
pub struct EmitterDebugCircle;

} // verus!
