//! The per-frame interface that a scene drives its objects through.

use vstd::prelude::*;
use crate::fixed::Fixed;
use crate::particle::{quads_of, Particle, ParticleSystem, ParticleSystemView};
use crate::renderer::Quad;

verus! {

/// An object of the scene: one of a closed set of kinds, each of which can
/// be set up, advanced by a frame and asked for what it draws.
#[derive(Debug)]
pub enum Component {
    /// A lone particle.
    Particle(Particle),
    /// A particle system with its pool.
    ParticleSystem(ParticleSystem),
}

/// What a [`Component`] is, as contracts see it.
pub enum ComponentView {
    Particle(Particle),
    ParticleSystem(ParticleSystemView),
}

impl View for Component {
    type V = ComponentView;

    open spec fn view(&self) -> ComponentView {
        match self {
            Component::Particle(particle) => ComponentView::Particle(*particle),
            Component::ParticleSystem(system) => ComponentView::ParticleSystem(system@),
        }
    }
}

impl Clone for Component {
    /// An object of its own in the same state.
    fn clone(&self) -> (r: Component)
        ensures
            r@ == self@,
    {
        match self {
            Component::Particle(particle) => Component::Particle(*particle),
            Component::ParticleSystem(system) => Component::ParticleSystem(system.clone()),
        }
    }
}

impl ComponentView {
    /// A particle is always well formed; a system is when its pool and cursor are.
    pub open spec fn wf(self) -> bool {
        match self {
            ComponentView::Particle(_) => true,
            ComponentView::ParticleSystem(system) => system.wf(),
        }
    }

    /// The object after its one-time setup.
    pub open spec fn after_init(self) -> ComponentView {
        match self {
            ComponentView::Particle(particle) => ComponentView::Particle(particle.spec_init()),
            ComponentView::ParticleSystem(system) => ComponentView::ParticleSystem(
                system.after_init(),
            ),
        }
    }

    /// The object one frame later.
    pub open spec fn after_update(self, delta_time: Fixed) -> ComponentView {
        match self {
            ComponentView::Particle(particle) => ComponentView::Particle(
                particle.spec_update(delta_time),
            ),
            ComponentView::ParticleSystem(system) => ComponentView::ParticleSystem(
                system.after_update(delta_time),
            ),
        }
    }

    /// What the object draws: the rectangles of its live particles.
    pub open spec fn quads(self) -> Seq<Quad> {
        match self {
            ComponentView::Particle(particle) => quads_of(seq![particle]),
            ComponentView::ParticleSystem(system) => quads_of(system.particles),
        }
    }
}

impl Component {
    /// The invariant of every object that this module hands out.
    pub open spec fn wf(&self) -> bool {
        self@.wf()
    }

    /// One-time setup, before the first frame.
    pub fn init(&mut self)
        ensures
            final(self)@ == old(self)@.after_init(),
            old(self).wf() ==> final(self).wf(),
    {
        match self {
            Component::Particle(particle) => particle.init(),
            Component::ParticleSystem(system) => system.init(),
        }
    }

    /// Advances the object by one frame.
    pub fn update(&mut self, delta_time: Fixed)
        ensures
            final(self)@ == old(self)@.after_update(delta_time),
            old(self).wf() ==> final(self).wf(),
    {
        match self {
            Component::Particle(particle) => particle.update(delta_time),
            Component::ParticleSystem(system) => system.update(delta_time),
        }
    }

    /// The rectangles to draw. The list is always there, and empty when
    /// nothing is alive.
    pub fn get_quads(&self) -> (r: Option<Vec<Quad>>)
        ensures
            r matches Some(quads) && quads@ == self@.quads(),
    {
        match self {
            Component::Particle(particle) => {
                let mut quads: Vec<Quad> = Vec::new();
                proof {
                    let one = seq![*particle];
                    crate::particle::lemma_quads_of_take(one, 0);
                    assert(one.take(1) =~= one);
                    assert(one.take(0) =~= Seq::<Particle>::empty());
                    assert(quads_of(Seq::<Particle>::empty()) =~= Seq::<Quad>::empty());
                }
                if particle.alive {
                    quads.push(
                        Quad::new_from_position_and_size_and_color(
                            particle.transform.position.x,
                            particle.transform.position.y,
                            particle.transform.scale.x,
                            particle.transform.scale.y,
                            particle.color,
                        ),
                    );
                }
                Some(quads)
            },
            Component::ParticleSystem(system) => system.get_quads(),
        }
    }

    /// The particle, where the object is a lone particle.
    pub fn as_particle(&self) -> (r: Option<&Particle>)
        ensures
            r == (match self@ {
                ComponentView::Particle(particle) => Some(&particle),
                ComponentView::ParticleSystem(_) => None,
            }),
    {
        match self {
            Component::Particle(particle) => Some(particle),
            Component::ParticleSystem(_) => None,
        }
    }

    /// The particle system, where the object is one.
    pub fn as_particle_system(&self) -> (r: Option<&ParticleSystem>)
        ensures
            match r {
                Some(system) => self@ == ComponentView::ParticleSystem(system@),
                None => self@ is Particle,
            },
    {
        match self {
            Component::Particle(_) => None,
            Component::ParticleSystem(system) => Some(system),
        }
    }
}

} // verus!
