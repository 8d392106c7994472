//! The [`Particle`] and [`ParticleSystem`] structs.

use vstd::prelude::*;
use core::ops::Neg;
use crate::fixed::{
    lemma_lerp_at_one, lemma_lerp_between, lemma_quotient_of_multiple, quotient, Fixed, SCALE,
};
use crate::math::{Color32, Vec2};
use crate::random::{
    advanced, draw, lemma_advanced_add, lemma_advanced_zero, lemma_sample_between, Rng,
};
use crate::renderer::Quad;
use crate::transform::Transform2D;

verus! {

/// Maximum [`Particles`](Particle) in a [`ParticleSystem`].
pub const MAX_PARTICLES: usize = 100000;

/// The time step of each warm-up update, in millionths: five units.
pub const PARTICLE_PRESTART_TIME: i64 = 5_000_000;

/// The seed of a system's random source unless another is given.
pub const DEFAULT_SEED: u64 = 0;

/// The words that deriving one [`Particle`] draws from the random source:
/// two for the velocity and four for each of the two colors.
pub const DRAWS_PER_PARTICLE: u64 = 10;

/// A [`ParticleProps`] defines how [`Particles`](Particle) are created.
///
/// Reusing a [`ParticleProps`] allows for similar [`Particles`](Particle) to be emitted.
#[derive(Clone, Copy, Debug, PartialEq, Eq, Structural)]
pub struct ParticleProps {
    /// How long the [`Particle`] will last.
    pub lifetime: Fixed,
    /// The base velocity of the [`Particle`].
    pub velocity: Vec2,
    /// A modifier field for the velocity of the [`Particle`].
    pub velocity_modifier: Vec2,
    /// The start color of the [`Particle`].
    pub color_start: Color32,
    /// The end color of the [`Particle`].
    pub color_end: Color32,
    /// A modifier field for the color of the [`Particle`].
    pub color_modifier: Color32,
    /// How many [`Particles`](Particle) to emit on each update.
    pub burst_count: u32,
    /// The number of warm-up updates to run before the first frame.
    pub prestart: u32,
    /// The size of the [`Particle`].
    pub size: Vec2,
}

/// The number with `raw` millionths.
pub open spec fn millionths(raw: i64) -> Fixed {
    Fixed { raw }
}

/// The vector with the given components in millionths.
pub open spec fn vec2_of(x: i64, y: i64) -> Vec2 {
    Vec2 { x: millionths(x), y: millionths(y) }
}

/// The color with the given channels in millionths.
pub open spec fn color_of(r: i64, g: i64, b: i64, a: i64) -> Color32 {
    Color32(millionths(r), millionths(g), millionths(b), millionths(a))
}

impl ParticleProps {
    /// The default preset.
    pub open spec fn spec_default() -> ParticleProps {
        ParticleProps {
            lifetime: millionths(10_000_000),
            velocity: vec2_of(0, -5_000i64),
            velocity_modifier: vec2_of(2_500, 2_000),
            color_start: color_of(0, 600_000, 1_000_000, 900_000),
            color_end: color_of(950_000, 200_000, 1_000_000, 1_000_000),
            color_modifier: color_of(200_000, 400_000, 100_000, 0),
            burst_count: 15,
            prestart: 10,
            size: vec2_of(50_000, 50_000),
        }
    }

    /// The fire preset.
    pub open spec fn spec_fire() -> ParticleProps {
        ParticleProps {
            lifetime: millionths(10_000_000),
            velocity: vec2_of(0, -6_000i64),
            velocity_modifier: vec2_of(2_000, 4_000),
            color_start: color_of(1_000_000, 1_000_000, 0, 1_000_000),
            color_end: color_of(1_000_000, 0, 0, 1_000_000),
            color_modifier: color_of(200_000, 200_000, 300_000, 0),
            burst_count: 5,
            prestart: 50,
            size: vec2_of(50_000, 50_000),
        }
    }

    /// The smoke preset.
    pub open spec fn spec_smoke() -> ParticleProps {
        ParticleProps {
            lifetime: millionths(15_000_000),
            velocity: vec2_of(0, -4_000i64),
            velocity_modifier: vec2_of(3_000, 2_000),
            color_start: color_of(700_000, 700_000, 700_000, 1_000_000),
            color_end: color_of(0, 0, 0, 1_000_000),
            color_modifier: color_of(400_000, 400_000, 400_000, 0),
            burst_count: 20,
            prestart: 50,
            size: vec2_of(100_000, 150_000),
        }
    }

    /// A Fire [`ParticleProps`] preset.
    pub fn fire() -> (r: ParticleProps)
        ensures
            r == ParticleProps::spec_fire(),
    {
        ParticleProps {
            lifetime: Fixed::from_int(10),
            velocity: Vec2::new(Fixed::zero(), Fixed::new(-6_000)),
            velocity_modifier: Vec2::new(Fixed::new(2_000), Fixed::new(4_000)),
            color_start: Color32(Fixed::one(), Fixed::one(), Fixed::zero(), Fixed::one()),
            color_end: Color32(Fixed::one(), Fixed::zero(), Fixed::zero(), Fixed::one()),
            color_modifier: Color32(
                Fixed::new(200_000),
                Fixed::new(200_000),
                Fixed::new(300_000),
                Fixed::zero(),
            ),
            burst_count: 5,
            prestart: 50,
            size: Vec2::new(Fixed::new(50_000), Fixed::new(50_000)),
        }
    }

    /// A Smoke [`ParticleProps`] preset.
    pub fn smoke() -> (r: ParticleProps)
        ensures
            r == ParticleProps::spec_smoke(),
    {
        ParticleProps {
            lifetime: Fixed::from_int(15),
            velocity: Vec2::new(Fixed::zero(), Fixed::new(-4_000)),
            velocity_modifier: Vec2::new(Fixed::new(3_000), Fixed::new(2_000)),
            color_start: Color32(
                Fixed::new(700_000),
                Fixed::new(700_000),
                Fixed::new(700_000),
                Fixed::one(),
            ),
            color_end: Color32::black(),
            color_modifier: Color32(
                Fixed::new(400_000),
                Fixed::new(400_000),
                Fixed::new(400_000),
                Fixed::zero(),
            ),
            burst_count: 20,
            prestart: 50,
            size: Vec2::new(Fixed::new(100_000), Fixed::new(150_000)),
        }
    }
}

impl Default for ParticleProps {
    fn default() -> (r: ParticleProps)
        ensures
            r == ParticleProps::spec_default(),
    {
        ParticleProps {
            lifetime: Fixed::from_int(10),
            velocity: Vec2::new(Fixed::zero(), Fixed::new(-5_000)),
            velocity_modifier: Vec2::new(Fixed::new(2_500), Fixed::new(2_000)),
            color_start: Color32(
                Fixed::zero(),
                Fixed::new(600_000),
                Fixed::one(),
                Fixed::new(900_000),
            ),
            color_end: Color32(
                Fixed::new(950_000),
                Fixed::new(200_000),
                Fixed::one(),
                Fixed::one(),
            ),
            color_modifier: Color32(
                Fixed::new(200_000),
                Fixed::new(400_000),
                Fixed::new(100_000),
                Fixed::zero(),
            ),
            burst_count: 15,
            prestart: 10,
            size: Vec2::new(Fixed::new(50_000), Fixed::new(50_000)),
        }
    }
}

/// A [`Particle`] describes a single emission from a [`ParticleSystem`].
#[derive(Clone, Copy, Debug, PartialEq, Eq, Structural)]
pub struct Particle {
    pub transform: Transform2D,
    pub lifetime: Fixed,
    pub velocity: Vec2,
    /// The current color, interpolated between the two below.
    pub color: Color32,
    pub color_start: Color32,
    pub color_end: Color32,
    pub age: Fixed,
    pub alive: bool,
}

impl Particle {
    /// The particle that fills a slot nobody has emitted into: dead.
    pub open spec fn spec_default() -> Particle {
        Particle {
            transform: Transform2D::spec_new_with_scale(millionths(100_000), millionths(100_000)),
            lifetime: millionths(10_000_000),
            velocity: vec2_of(0, 0),
            color: color_of(0, 0, 0, 0),
            color_start: color_of(1_000_000, 1_000_000, 1_000_000, 1_000_000),
            color_end: color_of(1_000_000, 1_000_000, 1_000_000, 1_000_000),
            age: millionths(0),
            alive: false,
        }
    }

    /// The particle derived from `properties` with the words that a random
    /// source in `state` hands out: the first two sample the velocity
    /// jitter, the next four the offset of the start color, the last four
    /// that of the end color.
    pub open spec fn spec_from(properties: ParticleProps, state: u64) -> Particle {
        Particle {
            transform: Transform2D::spec_new_with_scale(properties.size.x, properties.size.y),
            lifetime: properties.lifetime,
            velocity: properties.velocity.spec_add(
                Vec2::spec_random_range(
                    properties.velocity_modifier.spec_neg(),
                    properties.velocity_modifier,
                    state,
                ),
            ),
            color_start: properties.color_start.spec_add(
                Color32::spec_random_range(
                    properties.color_modifier,
                    properties.color_modifier,
                    advanced(state, 2),
                ),
            ),
            color_end: properties.color_end.spec_add(
                Color32::spec_random_range(
                    properties.color_modifier,
                    properties.color_modifier,
                    advanced(state, 6),
                ),
            ),
            ..Particle::spec_default()
        }
    }

    /// The particle brought to life: at age zero, in its start color.
    pub open spec fn spec_init(self) -> Particle {
        Particle { color: self.color_start, alive: true, age: millionths(0), ..self }
    }

    /// The particle one step of `delta_time` later. Past its lifetime it
    /// is dead and otherwise as before; up to its lifetime it has moved by
    /// its velocity and taken the color for its age.
    pub open spec fn spec_update(self, delta_time: Fixed) -> Particle {
        let age = self.age.spec_add(delta_time);
        if age@ > self.lifetime@ {
            Particle { age, alive: false, ..self }
        } else {
            Particle {
                age,
                transform: Transform2D {
                    position: self.transform.position.spec_add(self.velocity),
                    scale: self.transform.scale,
                },
                color: Color32::spec_lerp(
                    self.color_start,
                    self.color_end,
                    age.spec_div(self.lifetime),
                ),
                ..self
            }
        }
    }

    /// The particle after `count` updates by the same `delta_time`.
    pub open spec fn spec_updates(self, delta_time: Fixed, count: nat) -> Particle
        decreases count,
    {
        if count == 0 {
            self
        } else {
            self.spec_updates(delta_time, (count - 1) as nat).spec_update(delta_time)
        }
    }

    /// Derives a freshly randomized particle from `properties`, drawing
    /// [`DRAWS_PER_PARTICLE`] words from `rng`. The particle is not yet
    /// alive: that is for [`Particle::init`].
    pub fn from(properties: &ParticleProps, rng: &mut Rng) -> (r: Particle)
        ensures
            r == Particle::spec_from(*properties, old(rng)@),
            final(rng)@ == advanced(old(rng)@, DRAWS_PER_PARTICLE as nat),
    {
        let jitter = Vec2::random_range(
            properties.velocity_modifier.neg(),
            properties.velocity_modifier,
            rng,
        );
        let start_offset = Color32::random_range(
            properties.color_modifier,
            properties.color_modifier,
            rng,
        );
        let end_offset = Color32::random_range(
            properties.color_modifier,
            properties.color_modifier,
            rng,
        );
        proof {
            lemma_advanced_add(old(rng)@, 2, 4);
            lemma_advanced_add(old(rng)@, 6, 4);
        }
        let base = Particle::default();
        Particle {
            transform: Transform2D::new_with_scale(properties.size.x, properties.size.y),
            lifetime: properties.lifetime,
            velocity: properties.velocity + jitter,
            color_start: properties.color_start + start_offset,
            color_end: properties.color_end + end_offset,
            color: base.color,
            age: base.age,
            alive: base.alive,
        }
    }

    /// Brings the particle to life: age zero, start color.
    pub fn init(&mut self)
        ensures
            *final(self) == old(self).spec_init(),
    {
        self.color = self.color_start;
        self.alive = true;
        self.age = Fixed::zero();
    }

    /// Ages the particle by `delta_time`. Once its age exceeds its
    /// lifetime it dies, keeping its position and color; until then it
    /// moves by its velocity and is recolored for its age.
    pub fn update(&mut self, delta_time: Fixed)
        ensures
            *final(self) == old(self).spec_update(delta_time),
    {
        self.age = self.age + delta_time;
        if self.age.raw > self.lifetime.raw {
            self.alive = false;
        } else {
            self.transform.position = self.transform.position + self.velocity;
            self.color = Color32::lerp(self.color_start, self.color_end, self.age / self.lifetime);
        }
    }
}

/// A step of positive length strictly ages a particle, as long as its age
/// is below the largest number there is.
pub proof fn lemma_update_ages(particle: Particle, delta_time: Fixed)
    requires
        delta_time@ > 0,
        particle.age@ < i64::MAX,
    ensures
        particle.spec_update(delta_time).age@ > particle.age@,
{
}

/// A particle is dead after every update that leaves its age past its
/// lifetime, and no update brings a dead particle back to life: only
/// [`Particle::init`] does.
pub proof fn lemma_update_never_revives(particle: Particle, delta_time: Fixed)
    ensures
        particle.spec_update(delta_time).age@ > particle.lifetime@ ==> !particle.spec_update(
            delta_time,
        ).alive,
        !particle.alive ==> !particle.spec_update(delta_time).alive,
        particle.spec_init().alive,
{
}

/// Over `count` updates by the same positive step the age grows by the
/// step each time, as long as it stays representable; the particle is
/// dead once its age is past its lifetime, and stays dead from the first
/// update at which it is.
pub proof fn lemma_repeated_updates(particle: Particle, delta_time: Fixed, count: nat)
    requires
        delta_time@ > 0,
        particle.age@ + count * delta_time@ <= i64::MAX,
    ensures
        particle.spec_updates(delta_time, count).age@ == particle.age@ + count * delta_time@,
        particle.spec_updates(delta_time, count).lifetime == particle.lifetime,
        count > 0 && particle.spec_updates(delta_time, count).age@ > particle.lifetime@
            ==> !particle.spec_updates(delta_time, count).alive,
        forall|earlier: nat|
            earlier <= count && !particle.spec_updates(delta_time, earlier).alive
                ==> !particle.spec_updates(delta_time, count).alive,
    decreases count,
{
    if count > 0 {
        let before = (count - 1) as nat;
        assert(count * delta_time@ == before * delta_time@ + delta_time@) by (nonlinear_arith)
            requires
                before == count - 1,
        ;
        assert(before * delta_time@ >= 0) by (nonlinear_arith)
            requires
                delta_time@ > 0,
        ;
        lemma_repeated_updates(particle, delta_time, before);
    } else {
        assert(count * delta_time@ == 0) by (nonlinear_arith)
            requires
                count == 0,
        ;
    }
}

/// The update that brings a particle's age exactly to its lifetime leaves
/// it in its end color, provided the lifetime is not zero and each
/// channel's way from start to end is representable.
pub proof fn lemma_color_at_end_of_life(particle: Particle, delta_time: Fixed)
    requires
        particle.age@ + delta_time@ == particle.lifetime@,
        particle.lifetime@ != 0,
        i64::MIN <= particle.color_end.0@ - particle.color_start.0@ <= i64::MAX,
        i64::MIN <= particle.color_end.1@ - particle.color_start.1@ <= i64::MAX,
        i64::MIN <= particle.color_end.2@ - particle.color_start.2@ <= i64::MAX,
        i64::MIN <= particle.color_end.3@ - particle.color_start.3@ <= i64::MAX,
    ensures
        particle.spec_update(delta_time).color == particle.color_end,
        particle.spec_update(delta_time).alive == particle.alive,
{
    let age = particle.age.spec_add(delta_time);
    assert(age == particle.lifetime);
    assert(quotient(age@ * SCALE, particle.lifetime@) == SCALE) by {
        lemma_quotient_of_multiple(SCALE as int, particle.lifetime@);
        assert(age@ * SCALE == SCALE * particle.lifetime@) by (nonlinear_arith)
            requires
                age@ == particle.lifetime@,
        ;
    }
    assert(age.spec_div(particle.lifetime) == millionths(SCALE));
    lemma_lerp_at_one(particle.color_start.0, particle.color_end.0);
    lemma_lerp_at_one(particle.color_start.1, particle.color_end.1);
    lemma_lerp_at_one(particle.color_start.2, particle.color_end.2);
    lemma_lerp_at_one(particle.color_start.3, particle.color_end.3);
}

/// While a particle of positive lifetime lives, each channel of its color
/// lies between the start color's and the end color's.
pub proof fn lemma_color_between(particle: Particle, delta_time: Fixed)
    requires
        particle.lifetime@ > 0,
        0 <= particle.age@ + delta_time@ <= particle.lifetime@,
    ensures
        channel_between(
            particle.color_start.0,
            particle.spec_update(delta_time).color.0,
            particle.color_end.0,
        ),
        channel_between(
            particle.color_start.1,
            particle.spec_update(delta_time).color.1,
            particle.color_end.1,
        ),
        channel_between(
            particle.color_start.2,
            particle.spec_update(delta_time).color.2,
            particle.color_end.2,
        ),
        channel_between(
            particle.color_start.3,
            particle.spec_update(delta_time).color.3,
            particle.color_end.3,
        ),
{
    let age = particle.age.spec_add(delta_time);
    let t = age.spec_div(particle.lifetime);
    assert(0 <= (age@ * SCALE) / particle.lifetime@ <= SCALE && age@ * SCALE >= 0)
        by (nonlinear_arith)
        requires
            0 <= age@ <= particle.lifetime@,
            particle.lifetime@ > 0,
            SCALE == 1_000_000,
    ;
    lemma_lerp_between(particle.color_start.0, particle.color_end.0, t);
    lemma_lerp_between(particle.color_start.1, particle.color_end.1, t);
    lemma_lerp_between(particle.color_start.2, particle.color_end.2, t);
    lemma_lerp_between(particle.color_start.3, particle.color_end.3, t);
}

/// The offset that the color modifier adds is the modifier itself: both
/// bounds of the sampled range are the modifier, so no draw can move it.
pub proof fn lemma_color_offset_is_constant(properties: ParticleProps, state: u64)
    ensures
        Particle::spec_from(properties, state).color_start == properties.color_start.spec_add(
            properties.color_modifier,
        ),
        Particle::spec_from(properties, state).color_end == properties.color_end.spec_add(
            properties.color_modifier,
        ),
{
    let modifier = properties.color_modifier;
    let first = advanced(state, 2);
    let second = advanced(state, 6);
    lemma_sample_between(modifier.0@, modifier.0@, draw(first, 0));
    lemma_sample_between(modifier.1@, modifier.1@, draw(first, 1));
    lemma_sample_between(modifier.2@, modifier.2@, draw(first, 2));
    lemma_sample_between(modifier.3@, modifier.3@, draw(first, 3));
    lemma_sample_between(modifier.0@, modifier.0@, draw(second, 0));
    lemma_sample_between(modifier.1@, modifier.1@, draw(second, 1));
    lemma_sample_between(modifier.2@, modifier.2@, draw(second, 2));
    lemma_sample_between(modifier.3@, modifier.3@, draw(second, 3));
}

/// `middle` is not outside the span from `start` to `end`.
pub open spec fn channel_between(start: Fixed, middle: Fixed, end: Fixed) -> bool {
    start@ <= middle@ <= end@ || end@ <= middle@ <= start@
}

impl Default for Particle {
    fn default() -> (r: Particle)
        ensures
            r == Particle::spec_default(),
    {
        Particle {
            transform: Transform2D::new_with_scale(Fixed::new(100_000), Fixed::new(100_000)),
            lifetime: Fixed::from_int(10),
            velocity: Vec2::zero(),
            color: Color32::zeroes(),
            color_start: Color32::white(),
            color_end: Color32::white(),
            age: Fixed::zero(),
            alive: false,
        }
    }
}

/// What a [`ParticleSystem`] is, as contracts see it.
pub struct ParticleSystemView {
    /// The emitter's place in the world.
    pub transform: Transform2D,
    /// How new particles are derived.
    pub emission: ParticleProps,
    /// The pool, slot by slot.
    pub particles: Seq<Particle>,
    /// The slot that the next emission writes.
    pub index: nat,
    /// The state of the random source.
    pub rng: u64,
}

/// The renderable rectangle of one particle.
pub open spec fn quad_of(particle: Particle) -> Quad {
    Quad {
        x: particle.transform.position.x,
        y: particle.transform.position.y,
        width: particle.transform.scale.x,
        height: particle.transform.scale.y,
        color: particle.color,
    }
}

/// The rectangles of the live particles of a pool, in slot order.
pub open spec fn quads_of(particles: Seq<Particle>) -> Seq<Quad> {
    particles.filter(|p: Particle| p.alive).map_values(|p: Particle| quad_of(p))
}

/// A pool one frame later: each live particle updated, each dead one untouched.
pub open spec fn advanced_pool(particles: Seq<Particle>, delta_time: Fixed) -> Seq<Particle> {
    particles.map_values(
        |p: Particle|
            if p.alive {
                p.spec_update(delta_time)
            } else {
                p
            },
    )
}

impl ParticleSystemView {
    /// The pool is within capacity and the cursor names a slot of the pool
    /// or, while the pool still grows, the slot just past its end.
    pub open spec fn wf(self) -> bool {
        &&& self.particles.len() <= MAX_PARTICLES
        &&& self.index < MAX_PARTICLES
        &&& self.index <= self.particles.len()
    }

    /// The particle that the next emission places: derived from the
    /// emission properties, moved into the emitter's frame, and alive.
    pub open spec fn spawned(self) -> Particle {
        let derived = Particle::spec_from(self.emission, self.rng);
        Particle { transform: self.transform.spec_add(derived.transform), ..derived }.spec_init()
    }

    /// The slot that the next emission writes: the cursor, or slot zero
    /// for a cursor at or past the capacity.
    pub open spec fn slot(self) -> nat {
        if self.index >= MAX_PARTICLES {
            0
        } else {
            self.index
        }
    }

    /// The system after one emission. The spawned particle takes the slot
    /// to write, whatever was there; where the pool has not grown to that
    /// slot yet, the particle is appended. The cursor moves on and wraps
    /// at capacity.
    pub open spec fn after_emit(self) -> ParticleSystemView {
        ParticleSystemView {
            particles: if self.slot() < self.particles.len() {
                self.particles.update(self.slot() as int, self.spawned())
            } else {
                self.particles.push(self.spawned())
            },
            index: if self.slot() + 1 >= MAX_PARTICLES {
                0
            } else {
                self.slot() + 1
            },
            rng: advanced(self.rng, DRAWS_PER_PARTICLE as nat),
            ..self
        }
    }

    /// The system after `count` emissions in a row.
    pub open spec fn after_emit_many(self, count: nat) -> ParticleSystemView
        decreases count,
    {
        if count == 0 {
            self
        } else {
            self.after_emit_many((count - 1) as nat).after_emit()
        }
    }

    /// The system one frame later: first the burst is emitted, then every
    /// live particle, the new ones included, is updated by `delta_time`.
    pub open spec fn after_update(self, delta_time: Fixed) -> ParticleSystemView {
        let emitted = self.after_emit_many(self.emission.burst_count as nat);
        ParticleSystemView { particles: advanced_pool(emitted.particles, delta_time), ..emitted }
    }

    /// The system `frames` frames later, each of the same `delta_time`.
    pub open spec fn after_updates(self, delta_time: Fixed, frames: nat) -> ParticleSystemView
        decreases frames,
    {
        if frames == 0 {
            self
        } else {
            self.after_updates(delta_time, (frames - 1) as nat).after_update(delta_time)
        }
    }

    /// The system with a full pool of default, dead particles.
    pub open spec fn filled(self) -> ParticleSystemView {
        ParticleSystemView {
            particles: Seq::new(MAX_PARTICLES as nat, |i: int| Particle::spec_default()),
            ..self
        }
    }

    /// The system after warm-up: filled, then run for as many frames of
    /// [`PARTICLE_PRESTART_TIME`] as the emission properties ask for.
    pub open spec fn after_init(self) -> ParticleSystemView {
        self.filled().after_updates(
            millionths(PARTICLE_PRESTART_TIME),
            self.emission.prestart as nat,
        )
    }
}

/// A [`ParticleSystem`] deals with the emission, and creation of [`Particles`](Particle).
#[derive(Debug)]
pub struct ParticleSystem {
    transform: Transform2D,
    emission: ParticleProps,
    particles: Vec<Particle>,
    index: usize,
    rng: Rng,
}

impl View for ParticleSystem {
    type V = ParticleSystemView;

    closed spec fn view(&self) -> ParticleSystemView {
        ParticleSystemView {
            transform: self.transform,
            emission: self.emission,
            particles: self.particles@,
            index: self.index as nat,
            rng: self.rng@,
        }
    }
}

impl ParticleSystem {
    /// The invariant of every system that this module hands out.
    pub open spec fn wf(&self) -> bool {
        self@.wf()
    }

    /// Create a new [`ParticleSystem`] using a [`ParticleProps`] for the emission.
    pub fn new_from_emission(emission: ParticleProps) -> (r: ParticleSystem)
        ensures
            r@ == (ParticleSystemView {
                transform: Transform2D::spec_new_with_scale(millionths(SCALE), millionths(SCALE)),
                emission,
                particles: Seq::<Particle>::empty(),
                index: 0,
                rng: DEFAULT_SEED,
            }),
            r.wf(),
    {
        ParticleSystem::new_with_seed(emission, DEFAULT_SEED)
    }

    /// Create a new [`ParticleSystem`] whose random source starts from `seed`.
    pub fn new_with_seed(emission: ParticleProps, seed: u64) -> (r: ParticleSystem)
        ensures
            r@ == (ParticleSystemView {
                transform: Transform2D::spec_new_with_scale(millionths(SCALE), millionths(SCALE)),
                emission,
                particles: Seq::<Particle>::empty(),
                index: 0,
                rng: seed,
            }),
            r.wf(),
    {
        ParticleSystem {
            emission,
            particles: Vec::with_capacity(MAX_PARTICLES),
            index: 0,
            transform: Transform2D::default(),
            rng: Rng::new(seed),
        }
    }

    /// The [`Transform2D`] of the [`ParticleSystem`].
    pub fn transform(&self) -> (r: Transform2D)
        ensures
            r == self@.transform,
    {
        self.transform
    }

    /// Moves the emitter. Particles already emitted stay where they are.
    pub fn set_transform(&mut self, transform: Transform2D)
        ensures
            final(self)@ == (ParticleSystemView { transform, ..old(self)@ }),
    {
        self.transform = transform;
    }

    /// The [`ParticleProps`] that new particles are derived from.
    pub fn emission(&self) -> (r: ParticleProps)
        ensures
            r == self@.emission,
    {
        self.emission
    }

    /// Swaps the emission properties wholesale. Particles already emitted
    /// keep what they were derived with.
    pub fn set_emission(&mut self, emission: ParticleProps)
        ensures
            final(self)@ == (ParticleSystemView { emission, ..old(self)@ }),
    {
        self.emission = emission;
    }

    /// The pool, slot by slot.
    pub fn particles(&self) -> (r: &Vec<Particle>)
        ensures
            r@ == self@.particles,
    {
        &self.particles
    }

    /// The slot that the next emission writes.
    pub fn index(&self) -> (r: usize)
        ensures
            r == self@.index,
    {
        self.index
    }

    /// Emit a single [`Particle`], according to the defined [`ParticleProps`] for emission.
    pub fn emit(&mut self)
        ensures
            final(self)@ == old(self)@.after_emit(),
            old(self).wf() ==> final(self).wf(),
    {
        if self.index >= MAX_PARTICLES {
            self.index = 0;
        }

        let mut new_particle = Particle::from(&self.emission, &mut self.rng);
        new_particle.transform = self.transform + new_particle.transform;

        if self.index < self.particles.len() {
            let particle = &mut self.particles[self.index];
            particle.transform = new_particle.transform;
            particle.lifetime = new_particle.lifetime;
            particle.velocity = new_particle.velocity;
            particle.color_start = new_particle.color_start;
            particle.color_end = new_particle.color_end;

            particle.init();
        } else {
            new_particle.init();
            self.particles.push(new_particle);
        }
        self.index = if self.index + 1 >= MAX_PARTICLES {
            0
        } else {
            self.index + 1
        };
    }

    /// Emit multiple [`Particles`](Particle), according to the defined [`ParticleProps`] for emission.
    pub fn emit_many(&mut self, count: u32)
        ensures
            final(self)@ == old(self)@.after_emit_many(count as nat),
            old(self).wf() ==> final(self).wf(),
    {
        for i in 0..count
            invariant
                old(self).wf() ==> self.wf(),
                self@ == old(self)@.after_emit_many(i as nat),
        {
            self.emit()
        }
    }

    /// Advances the system by one frame: emits the burst, then updates
    /// every live particle, the ones just emitted included.
    pub fn update(&mut self, delta_time: Fixed)
        ensures
            final(self)@ == old(self)@.after_update(delta_time),
            old(self).wf() ==> final(self).wf(),
    {
        self.emit_many(self.emission.burst_count);
        let ghost emitted = self@;
        let count: usize = self.particles.len();
        for i in 0..count
            invariant
                count == emitted.particles.len(),
                self@.particles.len() == count,
                self@.transform == emitted.transform,
                self@.emission == emitted.emission,
                self@.index == emitted.index,
                self@.rng == emitted.rng,
                forall|j: int|
                    0 <= j < i ==> self@.particles[j] == advanced_pool(
                        emitted.particles,
                        delta_time,
                    )[j],
                forall|j: int| i <= j < count ==> self@.particles[j] == emitted.particles[j],
        {
            if self.particles[i].alive {
                self.particles[i].update(delta_time);
            }
        }
        assert(self@.particles =~= advanced_pool(emitted.particles, delta_time));
    }

    /// Warms the system up: fills the pool to capacity with default, dead
    /// particles, then runs as many updates of [`PARTICLE_PRESTART_TIME`]
    /// as the emission properties ask for.
    pub fn init(&mut self)
        ensures
            final(self)@ == old(self)@.after_init(),
            final(self)@.particles.len() == MAX_PARTICLES,
            old(self).wf() ==> final(self).wf(),
    {
        self.particles.truncate(MAX_PARTICLES);
        let existing: usize = self.particles.len();
        for i in 0..existing
            invariant
                existing <= MAX_PARTICLES,
                self@.particles.len() == existing,
                self@.transform == old(self)@.transform,
                self@.emission == old(self)@.emission,
                self@.index == old(self)@.index,
                self@.rng == old(self)@.rng,
                forall|j: int| 0 <= j < i ==> self@.particles[j] == Particle::spec_default(),
        {
            self.particles[i] = Particle::default();
        }
        while self.particles.len() < MAX_PARTICLES
            invariant
                self@.particles.len() <= MAX_PARTICLES,
                self@.transform == old(self)@.transform,
                self@.emission == old(self)@.emission,
                self@.index == old(self)@.index,
                self@.rng == old(self)@.rng,
                forall|j: int|
                    0 <= j < self@.particles.len() ==> self@.particles[j]
                        == Particle::spec_default(),
            decreases MAX_PARTICLES - self@.particles.len(),
        {
            self.particles.push(Particle::default());
        }
        assert(self@.particles =~= old(self)@.filled().particles);
        let ghost filled = self@;
        let step = Fixed::new(PARTICLE_PRESTART_TIME);
        let frames: u32 = self.emission.prestart;
        for i in 0..frames
            invariant
                self@ == filled.after_updates(step, i as nat),
        {
            self.update(step);
        }
        proof {
            lemma_full_pool_stays_full(filled, step, frames as nat);
            if old(self).wf() {
                lemma_updates_keep_wf(filled, step, frames as nat);
            }
        }
    }

    /// Get a [`Vec`] of [`Quad`] from all the [`Particles`](Particle):
    /// one for each live particle, in slot order. The list is always
    /// there, and empty when no particle is alive.
    pub fn get_quads(&self) -> (r: Option<Vec<Quad>>)
        ensures
            r matches Some(quads) && quads@ == quads_of(self@.particles),
    {
        let mut quads: Vec<Quad> = Vec::new();
        let count: usize = self.particles.len();
        for i in 0..count
            invariant
                count == self@.particles.len(),
                quads@ == quads_of(self@.particles.take(i as int)),
        {
            proof {
                lemma_quads_of_take(self@.particles, i as int);
            }
            let particle = &self.particles[i];
            if particle.alive {
                quads.push(
                    Quad::new_from_position_and_size_and_color(
                        particle.transform.position.x,
                        particle.transform.position.y,
                        particle.transform.scale.x,
                        particle.transform.scale.y,
                        particle.color,
                    ),
                );
            }
        }
        assert(self@.particles.take(count as int) =~= self@.particles);
        Some(quads)
    }
}

impl Clone for ParticleSystem {
    /// A system of its own in the same state, the random source included:
    /// from here on the two emit the same particles.
    fn clone(&self) -> (r: ParticleSystem)
        ensures
            r@ == self@,
    {
        let particles = self.particles.clone();
        assert(particles@ =~= self.particles@);
        ParticleSystem {
            transform: self.transform,
            emission: self.emission,
            particles,
            index: self.index,
            rng: self.rng,
        }
    }
}

impl Default for ParticleSystem {
    /// An empty system at the origin with the default emission properties.
    fn default() -> (r: ParticleSystem)
        ensures
            r@ == (ParticleSystemView {
                transform: Transform2D::spec_new_with_scale(millionths(SCALE), millionths(SCALE)),
                emission: ParticleProps::spec_default(),
                particles: Seq::<Particle>::empty(),
                index: 0,
                rng: DEFAULT_SEED,
            }),
            r.wf(),
    {
        ParticleSystem::new_from_emission(ParticleProps::default())
    }
}

/// The rectangles of the first `i + 1` slots are those of the first `i`,
/// followed by that of slot `i` where its particle is alive.
pub proof fn lemma_quads_of_take(particles: Seq<Particle>, i: int)
    requires
        0 <= i < particles.len(),
    ensures
        quads_of(particles.take(i + 1)) == if particles[i].alive {
            quads_of(particles.take(i)).push(quad_of(particles[i]))
        } else {
            quads_of(particles.take(i))
        },
{
    let alive = |p: Particle| p.alive;
    let prefix = particles.take(i);
    assert(particles.take(i + 1) =~= prefix.push(particles[i]));
    prefix.lemma_filter_push(particles[i], alive);
    if particles[i].alive {
        assert(prefix.filter(alive).push(particles[i]).map_values(|p: Particle| quad_of(p))
            =~= prefix.filter(alive).map_values(|p: Particle| quad_of(p)).push(
            quad_of(particles[i]),
        ));
    }
}

/// However many emissions follow one another, the system stays well
/// formed: the pool never outgrows [`MAX_PARTICLES`] and the cursor always
/// names a slot below it. A pool never shrinks. Emitting touches neither
/// the emitter's transform nor the emission properties, and draws
/// [`DRAWS_PER_PARTICLE`] words each time.
pub proof fn lemma_emit_many_keeps_wf(system: ParticleSystemView, count: nat)
    requires
        system.wf(),
    ensures
        system.after_emit_many(count).wf(),
        system.after_emit_many(count).particles.len() >= system.particles.len(),
        system.after_emit_many(count).emission == system.emission,
        system.after_emit_many(count).transform == system.transform,
        system.after_emit_many(count).rng == advanced(
            system.rng,
            count * DRAWS_PER_PARTICLE as nat,
        ),
    decreases count,
{
    if count > 0 {
        let before = (count - 1) as nat;
        lemma_emit_many_keeps_wf(system, before);
        lemma_advanced_add(
            system.rng,
            before * DRAWS_PER_PARTICLE as nat,
            DRAWS_PER_PARTICLE as nat,
        );
    } else {
        lemma_advanced_zero(system.rng);
    }
}

/// A frame keeps the system well formed and never shrinks the pool.
pub proof fn lemma_update_keeps_wf(system: ParticleSystemView, delta_time: Fixed)
    requires
        system.wf(),
    ensures
        system.after_update(delta_time).wf(),
        system.after_update(delta_time).particles.len() >= system.particles.len(),
        system.after_update(delta_time).emission == system.emission,
        system.after_update(delta_time).transform == system.transform,
{
    lemma_emit_many_keeps_wf(system, system.emission.burst_count as nat);
}

/// What [`lemma_update_keeps_wf`] says of one frame holds of any number.
pub proof fn lemma_updates_keep_wf(system: ParticleSystemView, delta_time: Fixed, frames: nat)
    requires
        system.wf(),
    ensures
        system.after_updates(delta_time, frames).wf(),
        system.after_updates(delta_time, frames).particles.len() >= system.particles.len(),
        system.after_updates(delta_time, frames).emission == system.emission,
        system.after_updates(delta_time, frames).transform == system.transform,
    decreases frames,
{
    if frames > 0 {
        let before = (frames - 1) as nat;
        lemma_updates_keep_wf(system, delta_time, before);
        lemma_update_keeps_wf(system.after_updates(delta_time, before), delta_time);
    }
}

/// Emitting into a pool at capacity overwrites and never appends: the
/// pool stays at capacity.
pub proof fn lemma_emit_many_into_full_pool(system: ParticleSystemView, count: nat)
    requires
        system.particles.len() == MAX_PARTICLES,
    ensures
        system.after_emit_many(count).particles.len() == MAX_PARTICLES,
    decreases count,
{
    if count > 0 {
        lemma_emit_many_into_full_pool(system, (count - 1) as nat);
    }
}

/// A pool at capacity stays at capacity through any number of frames.
pub proof fn lemma_full_pool_stays_full(
    system: ParticleSystemView,
    delta_time: Fixed,
    frames: nat,
)
    requires
        system.particles.len() == MAX_PARTICLES,
    ensures
        system.after_updates(delta_time, frames).particles.len() == MAX_PARTICLES,
    decreases frames,
{
    if frames > 0 {
        let before = system.after_updates(delta_time, (frames - 1) as nat);
        lemma_full_pool_stays_full(system, delta_time, (frames - 1) as nat);
        lemma_emit_many_into_full_pool(before, before.emission.burst_count as nat);
    }
}

/// Warm-up always leaves a pool of exactly [`MAX_PARTICLES`] slots,
/// whatever the number of warm-up frames: that number shapes the ages in
/// the pool, not its size. A well-formed system stays well formed.
pub proof fn lemma_init_fills_pool(system: ParticleSystemView)
    ensures
        system.after_init().particles.len() == MAX_PARTICLES,
        system.wf() ==> system.after_init().wf(),
{
    let step = millionths(PARTICLE_PRESTART_TIME);
    lemma_full_pool_stays_full(system.filled(), step, system.emission.prestart as nat);
    if system.wf() {
        lemma_updates_keep_wf(system.filled(), step, system.emission.prestart as nat);
    }
}

/// An emission puts the spawned particle into the slot at the cursor and
/// leaves every other slot as it was. What the slot held before, alive or
/// dead, has no part in what it holds after.
pub proof fn lemma_emit_recycles_slot(system: ParticleSystemView)
    requires
        system.wf(),
    ensures
        system.after_emit().particles[system.index as int] == system.spawned(),
        system.spawned().alive,
        system.spawned().age@ == 0,
        forall|slot: int|
            0 <= slot < system.particles.len() && slot != system.index
                ==> system.after_emit().particles[slot] == system.particles[slot],
        forall|occupant: Particle|
            system.index < system.particles.len() ==> (ParticleSystemView {
                particles: system.particles.update(system.index as int, occupant),
                ..system
            }).after_emit() == system.after_emit(),
{
    assert forall|occupant: Particle| system.index < system.particles.len() implies (
    ParticleSystemView {
        particles: system.particles.update(system.index as int, occupant),
        ..system
    }).after_emit() == system.after_emit() by {
        let other = ParticleSystemView {
            particles: system.particles.update(system.index as int, occupant),
            ..system
        };
        assert(other.after_emit().particles =~= system.after_emit().particles);
    }
}

/// Emitting into an empty pool fills it slot by slot: after `count`
/// emissions, `count` no more than the capacity, the pool holds `count`
/// particles and the cursor stands behind them, or at slot zero again
/// once the pool is full.
pub proof fn lemma_emit_many_into_empty(system: ParticleSystemView, count: nat)
    requires
        system.particles.len() == 0,
        system.index == 0,
        count <= MAX_PARTICLES,
    ensures
        system.after_emit_many(count).particles.len() == count,
        system.after_emit_many(count).index == if count == MAX_PARTICLES {
            0
        } else {
            count
        },
    decreases count,
{
    if count > 0 {
        lemma_emit_many_into_empty(system, (count - 1) as nat);
    }
}

/// One emission more than the capacity, into an empty pool, overwrites
/// slot zero with that last emission: the particle spawned from the
/// random source as the emissions before it left it. The pool stays at
/// capacity and the cursor moves to slot one.
pub proof fn lemma_overflow_recycles_first_slot(system: ParticleSystemView)
    requires
        system.particles.len() == 0,
        system.index == 0,
    ensures
        system.after_emit_many((MAX_PARTICLES + 1) as nat).particles.len() == MAX_PARTICLES,
        system.after_emit_many((MAX_PARTICLES + 1) as nat).index == 1,
        system.after_emit_many((MAX_PARTICLES + 1) as nat).particles[0] == (ParticleSystemView {
            rng: advanced(system.rng, MAX_PARTICLES as nat * DRAWS_PER_PARTICLE as nat),
            ..system
        }).spawned(),
{
    let full = system.after_emit_many(MAX_PARTICLES as nat);
    lemma_emit_many_into_empty(system, MAX_PARTICLES as nat);
    lemma_emit_many_keeps_wf(system, MAX_PARTICLES as nat);
    assert(system.after_emit_many((MAX_PARTICLES + 1) as nat) == full.after_emit());
}

} // verus!
