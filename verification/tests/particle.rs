use moon::fixed::Fixed;
use moon::math::{Color32, Vec2};
use moon::particle::{Particle, ParticleProps, DRAWS_PER_PARTICLE};
use moon::random::Rng;
use moon::transform::Transform2D;

fn fx(raw: i64) -> Fixed {
    Fixed::new(raw)
}

fn vec2(x: i64, y: i64) -> Vec2 {
    Vec2::new(fx(x), fx(y))
}

fn color(r: i64, g: i64, b: i64, a: i64) -> Color32 {
    Color32(fx(r), fx(g), fx(b), fx(a))
}

fn plain_props() -> ParticleProps {
    ParticleProps {
        lifetime: Fixed::from_int(10),
        velocity: vec2(0, -1_000_000),
        velocity_modifier: vec2(0, 0),
        color_start: color(0, 0, 0, 1_000_000),
        color_end: color(1_000_000, 1_000_000, 1_000_000, 1_000_000),
        color_modifier: color(0, 0, 0, 0),
        burst_count: 1,
        prestart: 0,
        size: vec2(1_000_000, 1_000_000),
    }
}

#[test]
fn default_props_preset() {
    let p = ParticleProps::default();
    assert_eq!(p.lifetime, fx(10_000_000));
    assert_eq!(p.velocity, vec2(0, -5_000));
    assert_eq!(p.velocity_modifier, vec2(2_500, 2_000));
    assert_eq!(p.color_start, color(0, 600_000, 1_000_000, 900_000));
    assert_eq!(p.color_end, color(950_000, 200_000, 1_000_000, 1_000_000));
    assert_eq!(p.color_modifier, color(200_000, 400_000, 100_000, 0));
    assert_eq!(p.burst_count, 15);
    assert_eq!(p.prestart, 10);
    assert_eq!(p.size, vec2(50_000, 50_000));
}

#[test]
fn fire_props_preset() {
    let p = ParticleProps::fire();
    assert_eq!(p.lifetime, fx(10_000_000));
    assert_eq!(p.velocity, vec2(0, -6_000));
    assert_eq!(p.velocity_modifier, vec2(2_000, 4_000));
    assert_eq!(p.color_start, color(1_000_000, 1_000_000, 0, 1_000_000));
    assert_eq!(p.color_end, color(1_000_000, 0, 0, 1_000_000));
    assert_eq!(p.color_modifier, color(200_000, 200_000, 300_000, 0));
    assert_eq!(p.burst_count, 5);
    assert_eq!(p.prestart, 50);
    assert_eq!(p.size, vec2(50_000, 50_000));
}

#[test]
fn smoke_props_preset() {
    let p = ParticleProps::smoke();
    assert_eq!(p.lifetime, fx(15_000_000));
    assert_eq!(p.velocity, vec2(0, -4_000));
    assert_eq!(p.velocity_modifier, vec2(3_000, 2_000));
    assert_eq!(p.color_start, color(700_000, 700_000, 700_000, 1_000_000));
    assert_eq!(p.color_end, Color32::black());
    assert_eq!(p.color_modifier, color(400_000, 400_000, 400_000, 0));
    assert_eq!(p.burst_count, 20);
    assert_eq!(p.prestart, 50);
    assert_eq!(p.size, vec2(100_000, 150_000));
}

#[test]
fn default_particle_is_dead() {
    let p = Particle::default();
    assert_eq!(p.transform, Transform2D::new_with_scale(fx(100_000), fx(100_000)));
    assert_eq!(p.lifetime, fx(10_000_000));
    assert_eq!(p.velocity, vec2(0, 0));
    assert_eq!(p.color, Color32::zeroes());
    assert_eq!(p.color_start, Color32::white());
    assert_eq!(p.color_end, Color32::white());
    assert_eq!(p.age, Fixed::zero());
    assert!(!p.alive);
}

#[test]
fn init_brings_to_life_in_the_start_color() {
    let mut p = Particle::default();
    p.color_start = color(1, 2, 3, 4);
    p.age = fx(77);
    let before = p;
    p.init();
    assert!(p.alive);
    assert_eq!(p.age, Fixed::zero());
    assert_eq!(p.color, color(1, 2, 3, 4));
    assert_eq!(p.color, p.color_start);
    assert_eq!(p.transform, before.transform);
    assert_eq!(p.lifetime, before.lifetime);
    assert_eq!(p.velocity, before.velocity);
    assert_eq!(p.color_start, before.color_start);
    assert_eq!(p.color_end, before.color_end);
}

#[test]
fn derived_particle_takes_over_the_props_and_is_not_alive() {
    let props = plain_props();
    let mut rng = Rng::new(1);
    let p = Particle::from(&props, &mut rng);
    assert!(!p.alive);
    assert_eq!(p.age, Fixed::zero());
    assert_eq!(p.color, Color32::zeroes());
    assert_eq!(p.lifetime, props.lifetime);
    assert_eq!(p.velocity, props.velocity);
    assert_eq!(p.color_start, props.color_start);
    assert_eq!(p.color_end, props.color_end);
    assert_eq!(p.transform.position, Vec2::zero());
    assert_eq!(p.transform.scale, props.size);
}

#[test]
fn derived_particle_draws_ten_words() {
    assert_eq!(DRAWS_PER_PARTICLE, 10);
    let props = ParticleProps::smoke();
    let mut rng = Rng::new(1234);
    let mut expected = Rng::new(1234);
    Particle::from(&props, &mut rng);
    for _ in 0..10 {
        expected.next_u64();
    }
    assert_eq!(rng.state(), expected.state());
}

#[test]
fn derived_velocity_is_jittered_within_the_modifier() {
    let props = ParticleProps::default();
    let mut rng = Rng::new(42);
    let mut distinct = false;
    let mut first = None;
    for _ in 0..500 {
        let p = Particle::from(&props, &mut rng);
        assert!(fx(-2_500) <= p.velocity.x && p.velocity.x <= fx(2_500));
        assert!(fx(-7_000) <= p.velocity.y && p.velocity.y <= fx(-3_000));
        match first {
            None => first = Some(p.velocity),
            Some(v) => distinct = distinct || v != p.velocity,
        }
    }
    assert!(distinct);
}

#[test]
fn derived_velocity_follows_the_first_two_words() {
    // With seed 0 the two words select 883 and 431 of 1000 points; the
    // jitter ranges are -500..=499 and -1..=1 (three points, 431/1000 of
    // which is the middle one).
    let mut props = plain_props();
    props.velocity = vec2(10_000, 20_000);
    props.velocity_modifier = vec2(500, 1);
    let mut ranged = props;
    ranged.velocity_modifier = vec2(500, 1);
    let mut rng = Rng::new(0);
    let p = Particle::from(&ranged, &mut rng);
    let mut again = Rng::new(0);
    let jitter = Vec2::random_range(vec2(-500, -1), vec2(500, 1), &mut again);
    assert_eq!(p.velocity, props.velocity + jitter);
    assert_eq!(jitter.x, fx(-500 + 884));
    assert_eq!(jitter.y, fx(0));
}

#[test]
fn color_modifier_is_a_constant_offset() {
    let props = ParticleProps::fire();
    for seed in [0u64, 1, 2, 0xFFFF_FFFF_FFFF_FFFF] {
        let mut rng = Rng::new(seed);
        let p = Particle::from(&props, &mut rng);
        assert_eq!(p.color_start, color(1_200_000, 1_200_000, 300_000, 1_000_000));
        assert_eq!(p.color_end, color(1_200_000, 200_000, 300_000, 1_000_000));
        assert_eq!(p.color_start, props.color_start + props.color_modifier);
        assert_eq!(p.color_end, props.color_end + props.color_modifier);
    }
}

#[test]
fn update_ages_moves_and_recolors() {
    let mut rng = Rng::new(0);
    let mut p = Particle::from(&plain_props(), &mut rng);
    p.init();
    p.update(Fixed::from_int(5));
    assert!(p.alive);
    assert_eq!(p.age, Fixed::from_int(5));
    assert_eq!(p.transform.position, vec2(0, -1_000_000));
    assert_eq!(p.color, color(500_000, 500_000, 500_000, 1_000_000));
    p.update(fx(2_500_000));
    assert_eq!(p.age, fx(7_500_000));
    assert_eq!(p.transform.position, vec2(0, -2_000_000));
    assert_eq!(p.color, color(750_000, 750_000, 750_000, 1_000_000));
}

#[test]
fn update_moves_by_the_velocity_whatever_the_step() {
    let mut rng = Rng::new(0);
    let mut p = Particle::from(&plain_props(), &mut rng);
    p.init();
    p.update(fx(1));
    assert_eq!(p.transform.position, vec2(0, -1_000_000));
    p.update(Fixed::from_int(3));
    assert_eq!(p.transform.position, vec2(0, -2_000_000));
}

#[test]
fn age_strictly_grows_with_positive_steps_until_death_and_after() {
    let mut rng = Rng::new(0);
    let mut p = Particle::from(&plain_props(), &mut rng);
    p.init();
    let mut last = p.age;
    let mut died = false;
    for _ in 0..30 {
        p.update(fx(700_000));
        assert!(p.age > last);
        last = p.age;
        if p.age > p.lifetime {
            died = true;
        }
        assert_eq!(p.alive, !died);
    }
    assert!(died);
    assert_eq!(p.age, fx(21_000_000));
}

#[test]
fn dead_particle_is_frozen_and_only_init_revives_it() {
    let mut rng = Rng::new(0);
    let mut p = Particle::from(&plain_props(), &mut rng);
    p.init();
    p.update(Fixed::from_int(4));
    p.update(Fixed::from_int(7));
    assert!(!p.alive);
    let position = p.transform.position;
    let shade = p.color;
    assert_eq!(position, vec2(0, -1_000_000));
    assert_eq!(shade, color(400_000, 400_000, 400_000, 1_000_000));
    for _ in 0..5 {
        p.update(Fixed::from_int(1));
        assert!(!p.alive);
        assert_eq!(p.transform.position, position);
        assert_eq!(p.color, shade);
    }
    p.init();
    assert!(p.alive);
    assert_eq!(p.age, Fixed::zero());
    assert_eq!(p.color, p.color_start);
}

#[test]
fn color_reaches_the_end_color_exactly_at_the_lifetime() {
    let mut props = plain_props();
    props.color_start = color(900_000, 100_000, 0, 1_000_000);
    props.color_end = color(100_000, 900_000, 333_333, 0);
    let mut rng = Rng::new(0);
    let mut p = Particle::from(&props, &mut rng);
    p.init();
    assert_eq!(p.color, p.color_start);
    p.update(Fixed::from_int(4));
    p.update(Fixed::from_int(6));
    assert_eq!(p.age, p.lifetime);
    assert!(p.alive);
    assert_eq!(p.color, p.color_end);
    p.update(fx(1));
    assert!(!p.alive);
    assert_eq!(p.color, p.color_end);
}

#[test]
fn color_stays_between_start_and_end_while_alive() {
    let mut props = plain_props();
    props.color_start = color(900_000, 100_000, 0, 1_000_000);
    props.color_end = color(100_000, 900_000, 333_333, 0);
    let mut rng = Rng::new(0);
    let mut p = Particle::from(&props, &mut rng);
    p.init();
    for _ in 0..40 {
        p.update(fx(333_333));
        if p.alive {
            for (s, c, e) in [
                (p.color_start.0, p.color.0, p.color_end.0),
                (p.color_start.1, p.color.1, p.color_end.1),
                (p.color_start.2, p.color.2, p.color_end.2),
                (p.color_start.3, p.color.3, p.color_end.3),
            ] {
                assert!(s.min(e) <= c && c <= s.max(e));
            }
        }
    }
    assert!(!p.alive);
}

#[test]
fn particle_without_lifetime_dies_on_its_first_update() {
    for lifetime in [0, -1, -10_000_000] {
        let mut props = plain_props();
        props.lifetime = fx(lifetime);
        let mut rng = Rng::new(0);
        let mut p = Particle::from(&props, &mut rng);
        p.init();
        assert!(p.alive);
        p.update(fx(1));
        assert!(!p.alive);
        assert_eq!(p.transform.position, Vec2::zero());
        assert_eq!(p.color, p.color_start);
    }
}

#[test]
fn zero_step_on_zero_lifetime_keeps_the_start_color() {
    let mut props = plain_props();
    props.lifetime = Fixed::zero();
    let mut rng = Rng::new(0);
    let mut p = Particle::from(&props, &mut rng);
    p.init();
    p.update(Fixed::zero());
    assert!(p.alive);
    assert_eq!(p.age, Fixed::zero());
    assert_eq!(p.color, p.color_start);
    assert_eq!(p.transform.position, vec2(0, -1_000_000));
}

#[test]
fn age_saturates_instead_of_wrapping() {
    let mut props = plain_props();
    props.lifetime = fx(i64::MAX);
    let mut rng = Rng::new(0);
    let mut p = Particle::from(&props, &mut rng);
    p.init();
    p.update(fx(i64::MAX));
    p.update(fx(i64::MAX));
    assert_eq!(p.age, fx(i64::MAX));
    assert!(p.alive);
}
