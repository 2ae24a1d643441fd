use vfx::particles::components::{
    AgeRatio, EmissionShape, Emitter, Lifetime, Particle, ParticleConfig, Velocity,
    MICROS_PER_UNIT, RATE_SCALE, SPAWN_PERIOD,
};
use vfx::particles::{
    advance_spawn_timer, rising_particle, sample_lifetime, sample_offset, setup_emitter,
    spawns_due, update_emitter, update_emitters, update_particle, update_particles,
    EmissionOffset, ParticleUpdate, FULL_TURN,
};
use vfx::timer::{RepeatingTimer, NANOS_PER_SECOND};

#[test]
fn default_particle_is_newborn_with_one_second_to_live() {
    let p = Particle::default();
    assert_eq!(p.age, 0);
    assert_eq!(p.config.max_lifetime, NANOS_PER_SECOND);
    assert_eq!(p.config.velocity, Velocity { x: 0, y: 0, z: 0 });
    assert!(p.is_alive());
    assert_eq!(p.age_ratio(), AgeRatio { numerator: 0, denominator: NANOS_PER_SECOND });
}

#[test]
fn default_config_lives_one_second_at_rest() {
    let c = ParticleConfig::default();
    assert_eq!(c.max_lifetime, 1_000_000_000);
    assert_eq!(c.velocity, Velocity::zero());
}

#[test]
fn particle_dies_when_age_reaches_lifetime() {
    let mut p = Particle::default();
    p.age = NANOS_PER_SECOND - 1;
    assert!(p.is_alive());
    p.age = NANOS_PER_SECOND;
    assert!(!p.is_alive());
    p.age = NANOS_PER_SECOND + 5;
    assert!(!p.is_alive());
}

#[test]
fn zero_lifetime_particle_is_never_alive() {
    let p = rising_particle(0);
    assert!(!p.is_alive());
}

#[test]
fn age_ratio_is_age_over_lifetime() {
    let mut p = rising_particle(4_000);
    p.age = 1_000;
    assert_eq!(p.age_ratio(), AgeRatio { numerator: 1_000, denominator: 4_000 });
}

#[test]
fn update_particle_ages_and_shades_then_despawns() {
    let mut p = Particle::default();
    let u = update_particle(&mut p, 400_000_000);
    assert_eq!(p.age, 400_000_000);
    assert_eq!(
        u,
        ParticleUpdate::Shade(AgeRatio { numerator: 400_000_000, denominator: 1_000_000_000 })
    );
    let u = update_particle(&mut p, 600_000_000);
    assert_eq!(p.age, 1_000_000_000);
    assert_eq!(u, ParticleUpdate::Despawn);
}

#[test]
fn dead_particle_stays_dead() {
    let mut p = Particle::default();
    assert_eq!(update_particle(&mut p, 2 * NANOS_PER_SECOND), ParticleUpdate::Despawn);
    assert_eq!(update_particle(&mut p, 0), ParticleUpdate::Despawn);
    assert_eq!(update_particle(&mut p, 7), ParticleUpdate::Despawn);
}

#[test]
fn aging_saturates_at_the_largest_age() {
    let mut p = Particle::default();
    p.age = u64::MAX - 3;
    assert_eq!(update_particle(&mut p, 10), ParticleUpdate::Despawn);
    assert_eq!(p.age, u64::MAX);
}

#[test]
fn aging_in_two_steps_equals_one_step() {
    let mut a = rising_particle(10_000);
    let mut b = a;
    update_particle(&mut a, 1_234);
    update_particle(&mut a, 4_321);
    update_particle(&mut b, 5_555);
    assert_eq!(a, b);
}

#[test]
fn update_particles_handles_each_particle() {
    let mut ps = vec![rising_particle(100), rising_particle(50), Particle::default()];
    let updates = update_particles(&mut ps, 60);
    assert_eq!(ps[0].age, 60);
    assert_eq!(ps[1].age, 60);
    assert_eq!(ps[2].age, 60);
    assert_eq!(updates.len(), 3);
    assert_eq!(updates[0], ParticleUpdate::Shade(AgeRatio { numerator: 60, denominator: 100 }));
    assert_eq!(updates[1], ParticleUpdate::Despawn);
    assert_eq!(
        updates[2],
        ParticleUpdate::Shade(AgeRatio { numerator: 60, denominator: NANOS_PER_SECOND })
    );
}

#[test]
fn update_particles_on_nothing_gives_nothing() {
    let mut ps: Vec<Particle> = Vec::new();
    assert!(update_particles(&mut ps, 5).is_empty());
}

#[test]
fn timer_wraps_and_counts_finishes() {
    let mut t = RepeatingTimer::new(100);
    t.tick(30);
    assert_eq!((t.elapsed, t.times_finished_this_tick), (30, 0));
    assert!(!t.just_finished());
    t.tick(295);
    assert_eq!((t.elapsed, t.times_finished_this_tick), (25, 3));
    assert!(t.just_finished());
    t.tick(75);
    assert_eq!((t.elapsed, t.times_finished_this_tick), (0, 1));
    assert_eq!(t.duration, 100);
}

#[test]
fn timer_with_zero_period_always_finishes() {
    let mut t = RepeatingTimer::new(0);
    t.tick(0);
    assert_eq!((t.elapsed, t.times_finished_this_tick), (0, u32::MAX));
    t.tick(9);
    assert_eq!((t.elapsed, t.times_finished_this_tick), (0, u32::MAX));
}

#[test]
fn timer_keeps_time_across_ticks() {
    let mut a = RepeatingTimer::new(70);
    let mut b = a;
    a.tick(100);
    let first = a.times_finished_this_tick;
    a.tick(95);
    let second = a.times_finished_this_tick;
    b.tick(195);
    assert_eq!(a.elapsed, b.elapsed);
    assert_eq!(first + second, b.times_finished_this_tick);
}

#[test]
fn timer_count_is_cut_to_u32() {
    let mut t = RepeatingTimer::new(1);
    t.tick((u32::MAX as u64) + 3);
    assert_eq!(t.times_finished_this_tick, 2);
    assert_eq!(t.elapsed, 0);
}

#[test]
fn default_emitter_spawns_ten_per_second_from_a_point() {
    let e = Emitter::default();
    assert_eq!(e.spawn_rate, 10_000);
    assert_eq!(e.spawn_timer, RepeatingTimer::new(SPAWN_PERIOD));
    assert_eq!(SPAWN_PERIOD, 1_000_000_000_000);
    assert_eq!(e.shape, EmissionShape::Point);
    assert_eq!(e.shape, EmissionShape::default());
    assert_eq!(e.particles_lifetime, Lifetime::Static(NANOS_PER_SECOND));
}

#[test]
fn setup_emitter_is_a_disc_with_three_to_five_second_particles() {
    let e = setup_emitter();
    assert_eq!(e.shape, EmissionShape::Circle { radius: 200_000 });
    assert_eq!(
        e.particles_lifetime,
        Lifetime::Random { min: 3_000_000_000, max: 5_000_000_000 }
    );
    assert_eq!(e.spawn_rate, 10 * RATE_SCALE);
    assert_eq!(e.spawn_timer.duration, SPAWN_PERIOD);
}

#[test]
fn emitter_waits_for_its_timer() {
    let mut rng = rand::rng();
    let mut e = Emitter::default();
    assert!(update_emitter(&mut e, 99_999_999, &mut rng).is_empty());
    assert_eq!(e.spawn_timer.elapsed, 999_999_990_000);
    let spawns = update_emitter(&mut e, 1, &mut rng);
    assert_eq!(spawns.len(), 1);
    assert_eq!(e.spawn_timer.elapsed, 0);
    assert_eq!(spawns[0].offset, EmissionOffset::Origin);
    assert_eq!(spawns[0].particle, rising_particle(NANOS_PER_SECOND));
    assert_eq!(spawns[0].particle.config.velocity, Velocity { x: 0, y: 1_000_000, z: 0 });
}

#[test]
fn emitter_spawns_one_particle_per_finished_period() {
    let mut rng = rand::rng();
    let mut e = Emitter::default();
    let spawns = update_emitter(&mut e, 350_000_000, &mut rng);
    assert_eq!(spawns.len(), 3);
    assert_eq!(e.spawn_timer.times_finished_this_tick, 3);
    assert_eq!(e.spawn_timer.elapsed, 500_000_000_000);
}

#[test]
fn emitter_follows_its_spawn_rate() {
    let mut rng = rand::rng();
    let mut e = Emitter { spawn_rate: 2 * RATE_SCALE, ..Emitter::default() };
    let mut total = 0;
    for _ in 0..21 {
        total += update_emitter(&mut e, 50_000_000, &mut rng).len();
    }
    assert_eq!(total, 2);
}

#[test]
fn emitter_holds_fractional_rates() {
    let mut rng = rand::rng();
    let mut e = Emitter { spawn_rate: 2_500, ..Emitter::default() };
    assert_eq!(update_emitter(&mut e, NANOS_PER_SECOND, &mut rng).len(), 2);
    assert_eq!(update_emitter(&mut e, NANOS_PER_SECOND, &mut rng).len(), 3);
    assert_eq!(e.spawn_timer.elapsed, 0);
}

#[test]
fn emitter_with_zero_rate_never_spawns() {
    let mut rng = rand::rng();
    let mut e = Emitter { spawn_rate: 0, ..Emitter::default() };
    assert!(update_emitter(&mut e, 10 * NANOS_PER_SECOND, &mut rng).is_empty());
    assert_eq!(e.spawn_timer.elapsed, 0);
}

#[test]
fn emitter_progress_is_not_capped() {
    let e = Emitter::default();
    assert_eq!(e.emission_progress(3), 30_000);
    assert_eq!(e.emission_progress(u64::MAX), (u64::MAX as u128) * 10_000);
    assert_eq!(spawns_due(&e, u64::MAX), (u64::MAX as u128) * 10_000 / 1_000_000_000_000);
}

#[test]
fn long_update_at_a_high_rate_counts_every_period() {
    let mut e = Emitter { spawn_rate: u64::MAX, ..Emitter::default() };
    let due = advance_spawn_timer(&mut e, 3_000_000);
    let progress = (u64::MAX as u128) * 3_000_000;
    assert_eq!(due, progress / 1_000_000_000_000);
    assert_eq!(e.spawn_timer.elapsed as u128, progress % 1_000_000_000_000);
    assert!(due > u32::MAX as u128);
    assert_eq!(e.spawn_timer.times_finished_this_tick, u32::MAX);
    let mut again = Emitter { spawn_rate: u64::MAX, ..Emitter::default() };
    assert_eq!(advance_spawn_timer(&mut again, 0), 0);
    assert_eq!(again.spawn_timer.elapsed, 0);
    assert_eq!(again.spawn_timer.times_finished_this_tick, 0);
}

#[test]
fn malformed_emitter_is_left_alone_until_a_particle_is_due() {
    let mut rng = rand::rng();
    let mut e = Emitter { shape: EmissionShape::Circle { radius: 0 }, ..Emitter::default() };
    assert!(!e.is_valid());
    assert!(!e.finishes_in(1));
    assert!(update_emitter(&mut e, 1, &mut rng).is_empty());
    assert!(e.finishes_in(100_000_000));
    assert_eq!(spawns_due(&e, 100_000_000), 1);
    let empty = Emitter {
        particles_lifetime: Lifetime::Random { min: 5, max: 5 },
        ..Emitter::default()
    };
    assert!(!empty.is_valid());
    assert!(Emitter::default().is_valid());
    assert!(setup_emitter().is_valid());
}

#[test]
fn emitter_must_keep_the_spawn_period() {
    let zero = Emitter { spawn_timer: RepeatingTimer::new(0), ..Emitter::default() };
    assert!(!zero.is_valid());
    assert!(zero.finishes_in(0));
    let other = Emitter { spawn_timer: RepeatingTimer::new(5), ..Emitter::default() };
    assert!(!other.is_valid());
}

#[test]
fn spawns_due_leaves_the_emitter_as_it_is() {
    let e = Emitter::default();
    assert_eq!(spawns_due(&e, 250_000_000), 2);
    assert_eq!(e, Emitter::default());
}

#[test]
fn circle_emitter_spawns_inside_its_disc() {
    let mut rng = rand::rng();
    let mut e = setup_emitter();
    for _ in 0..20 {
        let spawns = update_emitter(&mut e, NANOS_PER_SECOND, &mut rng);
        assert_eq!(spawns.len(), 10);
        for spawn in spawns {
            match spawn.offset {
                EmissionOffset::Polar { angle, distance } => {
                    assert!(angle < FULL_TURN);
                    assert!(distance < MICROS_PER_UNIT / 5);
                }
                EmissionOffset::Origin => panic!("a disc gives a polar offset"),
            }
            let l = spawn.particle.config.max_lifetime;
            assert!((3_000_000_000..5_000_000_000).contains(&l));
            assert_eq!(spawn.particle.age, 0);
        }
    }
}

#[test]
fn cone_and_point_spawn_at_the_emitter() {
    let mut rng = rand::rng();
    assert_eq!(sample_offset(&EmissionShape::Point, &mut rng), EmissionOffset::Origin);
    assert_eq!(
        sample_offset(&EmissionShape::Cone { angle: 500_000 }, &mut rng),
        EmissionOffset::Origin
    );
}

#[test]
fn tiny_disc_spawns_at_its_centre_distance() {
    let mut rng = rand::rng();
    for _ in 0..50 {
        match sample_offset(&EmissionShape::Circle { radius: 1 }, &mut rng) {
            EmissionOffset::Polar { angle, distance } => {
                assert!(angle < FULL_TURN);
                assert_eq!(distance, 0);
            }
            EmissionOffset::Origin => panic!("a disc gives a polar offset"),
        }
    }
}

#[test]
fn lifetimes_are_fixed_or_in_range() {
    let mut rng = rand::rng();
    assert_eq!(sample_lifetime(&Lifetime::Static(42), &mut rng), 42);
    assert_eq!(sample_lifetime(&Lifetime::Random { min: 7, max: 8 }, &mut rng), 7);
    for _ in 0..200 {
        let l = sample_lifetime(&Lifetime::Random { min: 10, max: 20 }, &mut rng);
        assert!((10..20).contains(&l));
    }
}

#[test]
fn update_emitters_reports_each_emitter() {
    let mut emitters = vec![
        Emitter::default(),
        setup_emitter(),
        Emitter { spawn_rate: RATE_SCALE, ..Emitter::default() },
        Emitter { shape: EmissionShape::Circle { radius: 0 }, spawn_rate: 0, ..Emitter::default() },
    ];
    let spawns = update_emitters(&mut emitters, 250_000_000);
    assert_eq!(spawns.len(), 4);
    assert_eq!(spawns[0].len(), 2);
    assert_eq!(spawns[1].len(), 2);
    assert!(spawns[2].is_empty());
    assert!(spawns[3].is_empty());
    assert_eq!(emitters[0].spawn_timer.elapsed, 500_000_000_000);
    assert_eq!(emitters[2].spawn_timer.elapsed, 250_000_000_000);
    assert_eq!(emitters[1].shape, EmissionShape::Circle { radius: 200_000 });
}
