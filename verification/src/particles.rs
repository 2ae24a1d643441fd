//! Emitters that spawn particles on a timer, and particles that age and die.
pub mod components;

use crate::particles::components::{
    AgeRatio, EmissionShape, Emitter, Lifetime, Particle, ParticleConfig, Velocity,
    MICROS_PER_UNIT, RATE_SCALE, SPAWN_PERIOD,
};
use crate::random::{random_range, thread_rng};
use crate::timer::{completed_periods, reported_finishes, wrapped_elapsed, NANOS_PER_SECOND};
use rand::rngs::ThreadRng;
use vstd::prelude::*;

verus! {

/// Microradians in a full turn (2π, rounded down).
pub const FULL_TURN: u64 = 6_283_185;

/// Where a new particle starts, relative to its emitter.
#[derive(Clone, Copy, Debug, PartialEq, Eq)]
pub enum EmissionOffset {
    /// At the emitter itself.
    Origin,
    /// In the emitter's plane, at `distance` (millionths of a world unit)
    /// along the direction `angle` (microradians).
    Polar { angle: u64, distance: u64 },
}

/// A particle that an emitter has just made, and where it starts.
#[derive(Clone, Copy, Debug, PartialEq, Eq)]
pub struct ParticleSpawn {
    pub particle: Particle,
    pub offset: EmissionOffset,
}

/// What becomes of a particle after it has aged.
#[derive(Clone, Copy, Debug, PartialEq, Eq)]
pub enum ParticleUpdate {
    /// It is dead and is to be removed.
    Despawn,
    /// It lives on, drawn at this fraction of its lifetime.
    Shade(AgeRatio),
}

/// Whether `offset` is one that `shape` can give: inside the disc for a
/// circle, the emitter itself for a point or a cone.
pub open spec fn offset_fits(shape: EmissionShape, offset: EmissionOffset) -> bool {
    match shape {
        EmissionShape::Circle { radius } => match offset {
            EmissionOffset::Polar { angle, distance } => angle < FULL_TURN && distance < radius,
            EmissionOffset::Origin => false,
        },
        _ => offset == EmissionOffset::Origin,
    }
}

/// The velocity of a new particle: one world unit per second, upwards.
pub open spec fn rising() -> Velocity {
    Velocity { x: 0, y: MICROS_PER_UNIT as i64, z: 0 }
}

/// Whether `spawn` is a particle that `emitter` can make: newborn, rising,
/// with a lifetime that the emitter admits, at an offset its shape gives.
pub open spec fn spawned_by(emitter: Emitter, spawn: ParticleSpawn) -> bool {
    &&& spawn.particle.age == 0
    &&& spawn.particle.config.velocity == rising()
    &&& emitter.particles_lifetime.admits(spawn.particle.config.max_lifetime)
    &&& offset_fits(emitter.shape, spawn.offset)
}

/// One update of an emitter by `delta` nanoseconds: its spawn timer advances
/// by the emission progress of that time, the rest stays, and it makes one
/// particle for each whole period the timer completed.
pub open spec fn emitter_step(
    before: Emitter,
    delta: nat,
    after: Emitter,
    spawns: Seq<ParticleSpawn>,
) -> bool {
    &&& after.spawn_timer.duration == before.spawn_timer.duration
    &&& after.spawn_timer.elapsed == wrapped_elapsed(
        before.spawn_timer.duration as nat,
        before.spawn_timer.elapsed as nat,
        before.progress(delta),
    )
    &&& after.spawn_timer.times_finished_this_tick == counted_finishes(before.due(delta))
    &&& after.spawn_rate == before.spawn_rate
    &&& after.shape == before.shape
    &&& after.particles_lifetime == before.particles_lifetime
    &&& spawns.len() == before.due(delta)
    &&& forall|i: int| 0 <= i < spawns.len() ==> spawned_by(before, #[trigger] spawns[i])
}

/// An emitter can be advanced by `delta` nanoseconds when, if its spawn
/// timer finishes, it keeps the spawn period and can sample its shape and
/// lifetimes, and the particles that fall due fit in a `Vec`.
pub open spec fn updatable(emitter: Emitter, delta: nat) -> bool {
    &&& emitter.finishes(delta) ==> emitter.wf()
    &&& emitter.due(delta) < usize::MAX
}

/// A count of finishes as the timer keeps it: capped at `u32::MAX`.
pub open spec fn counted_finishes(count: nat) -> u32 {
    if count > u32::MAX {
        u32::MAX
    } else {
        count as u32
    }
}

/// The particle after it has aged by `delta` nanoseconds; its age stops at
/// `u64::MAX`.
pub open spec fn aged(particle: Particle, delta: nat) -> Particle {
    Particle {
        config: particle.config,
        age: if particle.age + delta > u64::MAX {
            u64::MAX
        } else {
            (particle.age + delta) as u64
        },
    }
}

/// What an update reports of a particle that has aged: removal once it is
/// dead, else its age ratio.
pub open spec fn update_of(particle: Particle) -> ParticleUpdate {
    if particle.alive() {
        ParticleUpdate::Shade(
            AgeRatio { numerator: particle.age, denominator: particle.config.max_lifetime },
        )
    } else {
        ParticleUpdate::Despawn
    }
}

/// The starting place that `shape` gives for the draws `angle` and
/// `distance`: the polar offset they name for a circle, the emitter itself
/// otherwise.
pub open spec fn offset_for(shape: EmissionShape, angle: u64, distance: u64) -> EmissionOffset {
    match shape {
        EmissionShape::Circle { .. } => EmissionOffset::Polar { angle, distance },
        _ => EmissionOffset::Origin,
    }
}

/// The lifetime that `lifetime` gives for the draw `draw`: the fixed one, or
/// the draw itself for a range.
pub open spec fn lifetime_for(lifetime: Lifetime, draw: u64) -> u64 {
    match lifetime {
        Lifetime::Static(fixed) => fixed,
        Lifetime::Random { .. } => draw,
    }
}

/// The starting place that `shape` gives for a drawn direction and distance.
pub fn offset_from_draws(shape: &EmissionShape, angle: u64, distance: u64) -> (offset:
    EmissionOffset)
    ensures
        offset == offset_for(*shape, angle, distance),
        (*shape is Circle) ==> offset == (EmissionOffset::Polar { angle, distance }),
        !(*shape is Circle) ==> offset == EmissionOffset::Origin,
{
    match shape {
        EmissionShape::Circle { .. } => EmissionOffset::Polar { angle, distance },
        _ => EmissionOffset::Origin,
    }
}

/// The lifetime that `lifetime` gives for a drawn value.
pub fn lifetime_from_draw(lifetime: &Lifetime, draw: u64) -> (chosen: u64)
    ensures
        chosen == lifetime_for(*lifetime, draw),
        *lifetime matches Lifetime::Static(fixed) ==> chosen == fixed,
        (*lifetime is Random) ==> chosen == draw,
{
    match lifetime {
        Lifetime::Static(fixed) => *fixed,
        Lifetime::Random { .. } => draw,
    }
}

/// Draws where a new particle starts: a random direction and a random
/// distance below the radius for a circle, the emitter itself otherwise.
pub fn sample_offset(shape: &EmissionShape, rng: &mut ThreadRng) -> (offset: EmissionOffset)
    requires
        shape.wf(),
    ensures
        offset_fits(*shape, offset),
        (*shape is Circle) ==> exists|angle: u64, distance: u64|
            offset == offset_for(*shape, angle, distance),
{
    match shape {
        EmissionShape::Circle { radius } => {
            let angle = random_range(rng, 0, FULL_TURN);
            let distance = random_range(rng, 0, *radius);
            offset_from_draws(shape, angle, distance)
        },
        _ => EmissionOffset::Origin,
    }
}

/// Draws the lifetime of a new particle: the fixed one, or one from the
/// range.
pub fn sample_lifetime(lifetime: &Lifetime, rng: &mut ThreadRng) -> (chosen: u64)
    requires
        lifetime.wf(),
    ensures
        lifetime.admits(chosen),
{
    match lifetime {
        Lifetime::Static(_) => lifetime_from_draw(lifetime, 0),
        Lifetime::Random { min, max } => {
            let draw = random_range(rng, *min, *max);
            lifetime_from_draw(lifetime, draw)
        },
    }
}

/// A newborn particle that rises at one world unit per second and dies at
/// `max_lifetime` nanoseconds.
pub fn rising_particle(max_lifetime: u64) -> (particle: Particle)
    ensures
        particle.age == 0,
        particle.config.max_lifetime == max_lifetime,
        particle.config.velocity == rising(),
{
    Particle {
        config: ParticleConfig {
            max_lifetime,
            velocity: Velocity { x: 0, y: MICROS_PER_UNIT as i64, z: 0 },
        },
        ..Particle::default()
    }
}

/// Advances an emitter's spawn timer by the emission progress of `delta`
/// nanoseconds and returns how many whole periods it completed. The progress
/// is handed to the timer in ticks of at most `u64::MAX`.
pub fn advance_spawn_timer(emitter: &mut Emitter, delta: u64) -> (due: u128)
    requires
        old(emitter).finishes(delta as nat) ==> old(emitter).spawn_timer.duration == SPAWN_PERIOD,
    ensures
        due == old(emitter).due(delta as nat),
        final(emitter).spawn_timer.duration == old(emitter).spawn_timer.duration,
        final(emitter).spawn_timer.elapsed == wrapped_elapsed(
            old(emitter).spawn_timer.duration as nat,
            old(emitter).spawn_timer.elapsed as nat,
            old(emitter).progress(delta as nat),
        ),
        final(emitter).spawn_timer.times_finished_this_tick == counted_finishes(due as nat),
        final(emitter).spawn_rate == old(emitter).spawn_rate,
        final(emitter).shape == old(emitter).shape,
        final(emitter).particles_lifetime == old(emitter).particles_lifetime,
{
    let ghost start = *old(emitter);
    let ghost period = start.spawn_timer.duration as nat;
    let ghost e0 = start.spawn_timer.elapsed as nat;
    let total = emitter.emission_progress(delta);
    let ghost finishing = start.finishes(delta as nat);
    proof {
        if finishing {
            crate::timer::lemma_tick_wraps(period, e0, total as nat);
            let q = (e0 + total as nat) / period;
            assert(q < 0xffff_ffff_ffff_ffff_ffff_ffff_ffff_ffffnat) by (nonlinear_arith)
                requires
                    q == (e0 + total as nat) / period,
                    e0 <= 0xffff_ffff_ffff_ffffnat,
                    total <= 0xffff_ffff_ffff_ffff_ffff_ffff_ffff_ffffnat,
                    period == 1_000_000_000_000nat,
            ;
        }
    }
    let mut consumed: u128 = 0;
    let mut due: u128 = 0;
    let mut first = true;
    while first || consumed < total
        invariant
            consumed <= total,
            total == start.progress(delta as nat),
            period == start.spawn_timer.duration as nat,
            e0 == start.spawn_timer.elapsed as nat,
            first ==> consumed == 0 && due == 0 && emitter.spawn_timer.elapsed == e0,
            period > 0,
            finishing == (e0 + total >= period),
            finishing ==> period == SPAWN_PERIOD,
            finishing ==> completed_periods(period, e0, total as nat)
                < 0xffff_ffff_ffff_ffff_ffff_ffff_ffff_ffffnat,
            !first ==> emitter.spawn_timer.elapsed == wrapped_elapsed(period, e0, consumed as nat),
            !first ==> due == completed_periods(period, e0, consumed as nat),
            emitter.spawn_timer.duration == start.spawn_timer.duration,
            emitter.spawn_rate == start.spawn_rate,
            emitter.shape == start.shape,
            emitter.particles_lifetime == start.particles_lifetime,
        decreases (total - consumed) + (if first { 1int } else { 0int }),
    {
        let remaining = total - consumed;
        let step: u64 = if remaining > (u64::MAX as u128) {
            u64::MAX
        } else {
            remaining as u64
        };
        let ghost before = emitter.spawn_timer.elapsed as nat;
        proof {
            if finishing {
                lemma_due_is_exact(before, step as nat);
                crate::timer::lemma_tick_wraps(period, e0, (consumed + step) as nat);
                crate::timer::lemma_tick_wraps(period, e0, total as nat);
                vstd::arithmetic::div_mod::lemma_div_is_ordered(
                    (e0 + consumed + step) as int,
                    (e0 + total) as int,
                    period as int,
                );
            } else if !first {
                assert(before == e0 + consumed);
            }
            if !first {
                crate::timer::lemma_tick_additive(period, e0, consumed as nat, step as nat);
            }
        }
        emitter.spawn_timer.tick(step);
        due = due + (emitter.spawn_timer.times_finished_this_tick as u128);
        consumed = consumed + (step as u128);
        first = false;
    }
    emitter.spawn_timer.times_finished_this_tick = if due > (u32::MAX as u128) {
        u32::MAX
    } else {
        due as u32
    };
    due
}

/// How many particles fall due when `emitter` advances by `delta`
/// nanoseconds; the emitter itself is left as it is.
pub fn spawns_due(emitter: &Emitter, delta: u64) -> (due: u128)
    requires
        emitter.finishes(delta as nat) ==> emitter.spawn_timer.duration == SPAWN_PERIOD,
    ensures
        due == emitter.due(delta as nat),
{
    let mut copy = *emitter;
    advance_spawn_timer(&mut copy, delta)
}

/// Advances an emitter by `delta` nanoseconds and makes one particle for
/// every particle that fell due.
pub fn update_emitter(emitter: &mut Emitter, delta: u64, rng: &mut ThreadRng) -> (spawns: Vec<
    ParticleSpawn,
>)
    requires
        updatable(*old(emitter), delta as nat),
    ensures
        emitter_step(*old(emitter), delta as nat, *final(emitter), spawns@),
{
    let due = advance_spawn_timer(emitter, delta);
    let mut spawns: Vec<ParticleSpawn> = Vec::new();
    let mut made: u128 = 0;
    while made < due
        invariant
            made <= due,
            due < usize::MAX,
            spawns.len() == made,
            due > 0 ==> old(emitter).wf(),
            emitter.shape == old(emitter).shape,
            emitter.particles_lifetime == old(emitter).particles_lifetime,
            forall|i: int| 0 <= i < spawns.len() ==> spawned_by(*old(emitter), #[trigger] spawns[i]),
        decreases due - made,
    {
        let offset = sample_offset(&emitter.shape, rng);
        let max_lifetime = sample_lifetime(&emitter.particles_lifetime, rng);
        spawns.push(ParticleSpawn { particle: rising_particle(max_lifetime), offset });
        made = made + 1;
    }
    spawns
}

/// Advances every emitter by `delta` nanoseconds; the result holds, at each
/// emitter's index, the particles that it made.
pub fn update_emitters(emitters: &mut Vec<Emitter>, delta: u64) -> (spawns: Vec<
    Vec<ParticleSpawn>,
>)
    requires
        forall|i: int|
            0 <= i < old(emitters).len() ==> updatable(#[trigger] old(emitters)[i], delta as nat),
    ensures
        final(emitters).len() == old(emitters).len(),
        spawns.len() == old(emitters).len(),
        forall|i: int|
            0 <= i < spawns.len() ==> emitter_step(
                old(emitters)[i],
                delta as nat,
                #[trigger] final(emitters)[i],
                spawns[i]@,
            ),
{
    let mut rng = thread_rng();
    let mut spawns: Vec<Vec<ParticleSpawn>> = Vec::new();
    let count = emitters.len();
    for i in 0..count
        invariant
            count == emitters.len(),
            count == old(emitters).len(),
            spawns.len() == i,
            forall|j: int|
                0 <= j < old(emitters).len() ==> updatable(#[trigger] old(emitters)[j], delta as nat),
            forall|j: int|
                0 <= j < i ==> emitter_step(
                    old(emitters)[j],
                    delta as nat,
                    #[trigger] emitters[j],
                    spawns[j]@,
                ),
            forall|j: int| i <= j < count ==> #[trigger] emitters[j] == old(emitters)[j],
    {
        let mut emitter = emitters[i];
        let made = update_emitter(&mut emitter, delta, &mut rng);
        emitters.set(i, emitter);
        spawns.push(made);
    }
    spawns
}

/// Ages a particle by `delta` nanoseconds and says whether it is to be
/// removed or how far through its life it is.
pub fn update_particle(particle: &mut Particle, delta: u64) -> (update: ParticleUpdate)
    ensures
        *final(particle) == aged(*old(particle), delta as nat),
        update == update_of(*final(particle)),
        final(particle).config == old(particle).config,
        final(particle).age == (if old(particle).age + delta > u64::MAX {
            u64::MAX as int
        } else {
            old(particle).age + delta
        }),
        (update is Despawn) <==> final(particle).age >= old(particle).config.max_lifetime,
        update matches ParticleUpdate::Shade(ratio) ==> ratio.numerator == final(particle).age
            && ratio.denominator == old(particle).config.max_lifetime,
{
    particle.age = particle.age.saturating_add(delta);
    if !particle.is_alive() {
        ParticleUpdate::Despawn
    } else {
        ParticleUpdate::Shade(particle.age_ratio())
    }
}

/// Ages every particle by `delta` nanoseconds; the result holds, at each
/// particle's index, what becomes of it.
pub fn update_particles(particles: &mut Vec<Particle>, delta: u64) -> (updates: Vec<
    ParticleUpdate,
>)
    ensures
        final(particles).len() == old(particles).len(),
        updates.len() == old(particles).len(),
        forall|i: int|
            0 <= i < updates.len() ==> #[trigger] final(particles)[i] == aged(
                old(particles)[i],
                delta as nat,
            ) && updates[i] == update_of(final(particles)[i]),
        forall|i: int|
            0 <= i < updates.len() ==> (#[trigger] final(particles)[i]).config == old(
                particles,
            )[i].config && final(particles)[i].age == (if old(particles)[i].age + delta
                > u64::MAX {
                u64::MAX as int
            } else {
                old(particles)[i].age + delta
            }),
{
    let mut updates: Vec<ParticleUpdate> = Vec::new();
    let count = particles.len();
    for i in 0..count
        invariant
            count == particles.len(),
            count == old(particles).len(),
            updates.len() == i,
            forall|j: int|
                0 <= j < i ==> #[trigger] particles[j] == aged(old(particles)[j], delta as nat)
                    && updates[j] == update_of(particles[j]),
            forall|j: int| i <= j < count ==> #[trigger] particles[j] == old(particles)[j],
    {
        let mut particle = particles[i];
        let update = update_particle(&mut particle, delta);
        particles.set(i, particle);
        updates.push(update);
    }
    updates
}

/// The emitter of the particles scene: a disc of radius one fifth of a world
/// unit whose particles live from three to five seconds.
pub fn setup_emitter() -> (emitter: Emitter)
    ensures
        emitter.shape == (EmissionShape::Circle { radius: MICROS_PER_UNIT / 5 }),
        emitter.particles_lifetime == (Lifetime::Random {
            min: 3_000_000_000u64,
            max: 5_000_000_000u64,
        }),
        emitter.spawn_rate == 10 * RATE_SCALE,
        emitter.spawn_timer.duration == SPAWN_PERIOD,
        emitter.spawn_timer.elapsed == 0,
        emitter.spawn_timer.times_finished_this_tick == 0,
        emitter.wf(),
{
    Emitter {
        shape: EmissionShape::Circle { radius: MICROS_PER_UNIT / 5 },
        particles_lifetime: Lifetime::Random {
            min: 3 * NANOS_PER_SECOND,
            max: 5 * NANOS_PER_SECOND,
        },
        ..Emitter::default()
    }
}

/// Death is final: a particle that is no longer alive stays dead however much
/// more it ages.
pub proof fn lemma_dead_stays_dead(particle: Particle, delta: nat)
    requires
        !particle.alive(),
    ensures
        !aged(particle, delta).alive(),
        update_of(aged(particle, delta)) == ParticleUpdate::Despawn,
{
}

/// A particle lives exactly while its age is below its lifetime: it is alive
/// one nanosecond before its lifetime and dead at it, whatever the lifetime.
pub proof fn lemma_alive_until_lifetime(particle: Particle)
    ensures
        particle.alive() <==> particle.age < particle.config.max_lifetime,
        particle.config.max_lifetime > 0 ==> (Particle {
            age: (particle.config.max_lifetime - 1) as u64,
            ..particle
        }).alive(),
        !(Particle { age: particle.config.max_lifetime, ..particle }).alive(),
{
}

/// Ageing changes the age only: the lifetime and the velocity stay, and the
/// age grows by the time step (up to `u64::MAX`).
pub proof fn lemma_aging_keeps_config(particle: Particle, delta: nat)
    ensures
        aged(particle, delta).config == particle.config,
        aged(particle, delta).age >= particle.age,
        particle.age + delta <= u64::MAX ==> aged(particle, delta).age == particle.age + delta,
{
}

/// A particle lives on through any time step that leaves it younger than its
/// lifetime, and is drawn at its new age over that same lifetime.
pub proof fn lemma_lives_until_lifetime(particle: Particle, delta: nat)
    requires
        particle.age + delta < particle.config.max_lifetime,
    ensures
        update_of(aged(particle, delta)) == ParticleUpdate::Shade(
            AgeRatio {
                numerator: (particle.age + delta) as u64,
                denominator: particle.config.max_lifetime,
            },
        ),
{
}

/// Distinct draws give distinct lifetimes from a range, and every draw in
/// the range is a lifetime that the range admits: every value of the range
/// can be a particle's lifetime.
pub proof fn lemma_random_lifetime_follows_draw(min: u64, max: u64, d1: u64, d2: u64)
    ensures
        d1 != d2 ==> lifetime_for(Lifetime::Random { min, max }, d1) != lifetime_for(
            Lifetime::Random { min, max },
            d2,
        ),
        min <= d1 < max ==> (Lifetime::Random { min, max }).admits(
            lifetime_for(Lifetime::Random { min, max }, d1),
        ),
        lifetime_for(Lifetime::Random { min, max }, d1) == d1,
{
}

/// Distinct draws give distinct starting places in a disc, and every draw
/// below a full turn and below the radius is a place inside the disc: every
/// direction and distance can be a particle's starting place.
pub proof fn lemma_disc_offset_follows_draws(radius: u64, a1: u64, r1: u64, a2: u64, r2: u64)
    ensures
        (a1 != a2 || r1 != r2) ==> offset_for(EmissionShape::Circle { radius }, a1, r1)
            != offset_for(EmissionShape::Circle { radius }, a2, r2),
        a1 < FULL_TURN && r1 < radius ==> offset_fits(
            EmissionShape::Circle { radius },
            offset_for(EmissionShape::Circle { radius }, a1, r1),
        ),
        offset_for(EmissionShape::Circle { radius }, a1, r1) == (EmissionOffset::Polar {
            angle: a1,
            distance: r1,
        }),
{
}

/// Ageing adds up: ageing by `d1` and then by `d2` is ageing by `d1 + d2`.
pub proof fn lemma_aging_adds_up(particle: Particle, d1: nat, d2: nat)
    ensures
        aged(aged(particle, d1), d2) == aged(particle, d1 + d2),
{
}

/// A living particle is drawn at a fraction of its life below one.
pub proof fn lemma_living_ratio_below_one(particle: Particle)
    requires
        particle.alive(),
    ensures
        update_of(particle) matches ParticleUpdate::Shade(ratio) && ratio.numerator
            < ratio.denominator,
{
}

/// A particle just made by an emitter is alive exactly when its lifetime is
/// not zero, and is then drawn at the start of its life.
pub proof fn lemma_spawned_particle_is_newborn(emitter: Emitter, spawn: ParticleSpawn)
    requires
        spawned_by(emitter, spawn),
    ensures
        spawn.particle.alive() <==> spawn.particle.config.max_lifetime > 0,
        spawn.particle.alive() ==> update_of(spawn.particle) == ParticleUpdate::Shade(
            AgeRatio { numerator: 0, denominator: spawn.particle.config.max_lifetime },
        ),
{
}

/// The number of particles made over a run of updates.
pub open spec fn total_spawned(spawns: Seq<Seq<ParticleSpawn>>) -> nat
    decreases spawns.len(),
{
    if spawns.len() == 0 {
        0
    } else {
        total_spawned(spawns.drop_last()) + spawns.last().len()
    }
}

/// The time, in nanoseconds, that a run of updates covers.
pub open spec fn total_time(deltas: Seq<nat>) -> nat
    decreases deltas.len(),
{
    if deltas.len() == 0 {
        0
    } else {
        total_time(deltas.drop_last()) + deltas.last()
    }
}

/// `emitters[0]` went through updates by `deltas[i]`, becoming `emitters[i + 1]`
/// and making `spawns[i]` at each.
pub open spec fn emitter_run(
    emitters: Seq<Emitter>,
    deltas: Seq<nat>,
    spawns: Seq<Seq<ParticleSpawn>>,
) -> bool {
    &&& emitters.len() == deltas.len() + 1
    &&& spawns.len() == deltas.len()
    &&& forall|i: int|
        #![trigger spawns[i]]
        0 <= i < deltas.len() ==> emitter_step(emitters[i], deltas[i], emitters[i + 1], spawns[i])
}

/// With the spawn period, the count that the timer reports is the whole
/// number of periods completed: it never needs more than 32 bits.
proof fn lemma_due_is_exact(elapsed: nat, progress: nat)
    requires
        elapsed <= u64::MAX,
        progress <= u64::MAX,
    ensures
        reported_finishes(SPAWN_PERIOD as nat, elapsed, progress) as nat == completed_periods(
            SPAWN_PERIOD as nat,
            elapsed,
            progress,
        ),
{
    let p = SPAWN_PERIOD as nat;
    if elapsed + progress >= p {
        let q = (elapsed + progress) / p;
        assert(q < 0x1_0000_0000) by (nonlinear_arith)
            requires
                q == (elapsed + progress) / p,
                elapsed + progress <= 2 * 0xffff_ffff_ffff_ffffnat,
                p == 1_000_000_000_000nat,
        ;
    }
}

/// Over a run of updates that starts at the spawn period with less than one
/// period elapsed, the spawn timer and the particle count follow the total
/// emission progress.
proof fn lemma_run_follows_progress(
    emitters: Seq<Emitter>,
    deltas: Seq<nat>,
    spawns: Seq<Seq<ParticleSpawn>>,
)
    requires
        emitter_run(emitters, deltas, spawns),
        emitters[0].spawn_timer.duration == SPAWN_PERIOD,
        emitters[0].spawn_timer.elapsed < SPAWN_PERIOD,
    ensures
        emitters.last().spawn_rate == emitters[0].spawn_rate,
        emitters.last().spawn_timer.duration == SPAWN_PERIOD,
        emitters.last().spawn_timer.elapsed == wrapped_elapsed(
            SPAWN_PERIOD as nat,
            emitters[0].spawn_timer.elapsed as nat,
            total_time(deltas) * (emitters[0].spawn_rate as nat),
        ),
        total_spawned(spawns) == completed_periods(
            SPAWN_PERIOD as nat,
            emitters[0].spawn_timer.elapsed as nat,
            total_time(deltas) * (emitters[0].spawn_rate as nat),
        ),
    decreases deltas.len(),
{
    let p = SPAWN_PERIOD as nat;
    let e0 = emitters[0].spawn_timer.elapsed as nat;
    let rate = emitters[0].spawn_rate as nat;
    if deltas.len() == 0 {
        crate::timer::lemma_tick_wraps(p, e0, 0);
        assert(total_time(deltas) == 0);
        assert(total_spawned(spawns) == 0);
        assert(emitters.last() == emitters[0]);
    } else {
        let n = deltas.len() - 1;
        let prefix_emitters = emitters.drop_last();
        let prefix_deltas = deltas.drop_last();
        let prefix_spawns = spawns.drop_last();
        assert forall|i: int|
            #![trigger prefix_spawns[i]]
            0 <= i < prefix_deltas.len() implies emitter_step(
            prefix_emitters[i],
            prefix_deltas[i],
            prefix_emitters[i + 1],
            prefix_spawns[i],
        ) by {
            assert(spawns[i] == prefix_spawns[i]);
        }
        assert(prefix_emitters[0] == emitters[0]);
        lemma_run_follows_progress(prefix_emitters, prefix_deltas, prefix_spawns);
        let before = emitters[n];
        let after = emitters[n + 1];
        let d = deltas[n];
        assert(spawns[n] == spawns.last());
        assert(emitter_step(before, d, after, spawns[n]));
        assert(before == prefix_emitters.last());
        let x = total_time(prefix_deltas) * rate;
        assert(before.progress(d) == d * rate);
        crate::timer::lemma_tick_wraps(p, e0, x);
        crate::timer::lemma_tick_additive(p, e0, x, d * rate);
        assert(total_time(deltas) == total_time(prefix_deltas) + d);
        assert(total_time(deltas) * rate == x + d * rate) by (nonlinear_arith)
            requires
                total_time(deltas) == total_time(prefix_deltas) + d,
                x == total_time(prefix_deltas) * rate,
        ;
        assert(before.spawn_timer.elapsed == wrapped_elapsed(p, e0, x));
        assert(after.spawn_timer.elapsed == wrapped_elapsed(p, before.spawn_timer.elapsed as nat, d * rate));
        assert(after == emitters.last());
        assert(total_spawned(spawns) == total_spawned(prefix_spawns) + spawns[n].len());
        assert(total_spawned(prefix_spawns) == completed_periods(p, e0, x));
        assert(spawns[n].len() == completed_periods(p, before.spawn_timer.elapsed as nat, d * rate));
    }
}

/// Emitters spawn at their rate: from a fresh spawn timer, a run of updates
/// covering `T` seconds in all makes exactly `floor(T * r)` particles at a
/// rate of `r` particles per second (in the units here, nanoseconds times
/// thousandths of a particle per second, over `SPAWN_PERIOD`), and leaves the
/// fraction of the next particle in the timer.
pub proof fn lemma_emitter_spawns_at_rate(
    emitters: Seq<Emitter>,
    deltas: Seq<nat>,
    spawns: Seq<Seq<ParticleSpawn>>,
)
    requires
        emitter_run(emitters, deltas, spawns),
        emitters[0].spawn_timer.duration == SPAWN_PERIOD,
        emitters[0].spawn_timer.elapsed == 0,
    ensures
        total_spawned(spawns) == total_time(deltas) * emitters[0].spawn_rate / (NANOS_PER_SECOND
            * RATE_SCALE) as int,
        emitters.last().spawn_timer.elapsed == total_time(deltas) * emitters[0].spawn_rate % (
        NANOS_PER_SECOND * RATE_SCALE) as int,
{
    lemma_run_follows_progress(emitters, deltas, spawns);
    crate::timer::lemma_tick_wraps(
        SPAWN_PERIOD as nat,
        0,
        total_time(deltas) * (emitters[0].spawn_rate as nat),
    );
}

} // verus!
