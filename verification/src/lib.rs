//! A frame-stepped particle system for short-lived visual effects such as
//! sparks, smoke and fire.
//!
//! A [`particle::ParticleSystem`] owns a pool of at most
//! [`particle::MAX_PARTICLES`] particles. Each frame it emits a burst of
//! new particles into the pool, recycling slots in a circle once the pool
//! is full, advances every live particle, and hands out one
//! [`renderer::Quad`] per live particle.
//!
//! All quantities are decimal fixed-point numbers ([`fixed::Fixed`]) with
//! saturating arithmetic, and all randomness comes from a seedable
//! generator ([`random::Rng`]), so a system's whole history is a function
//! of its seed and the calls made on it. No function panics or
//! overflows.

pub mod component;
pub mod fixed;
pub mod math;
pub mod particle;
pub mod random;
pub mod renderer;
pub mod transform;
