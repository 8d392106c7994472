use moon::component::Component;
use moon::fixed::Fixed;
use moon::math::{Color32, Vec2};
use moon::particle::{Particle, ParticleProps, ParticleSystem, MAX_PARTICLES};
use moon::renderer::Quad;

fn fx(raw: i64) -> Fixed {
    Fixed::new(raw)
}

fn live_particle() -> Particle {
    let mut p = Particle::default();
    p.velocity = Vec2::new(fx(1_000), fx(-2_000));
    p.color_start = Color32::black();
    p.color_end = Color32::white();
    p
}

#[test]
fn component_particle_follows_the_particle() {
    let mut component = Component::Particle(live_particle());
    let mut particle = live_particle();
    assert_eq!(component.get_quads(), Some(Vec::new()));
    component.init();
    particle.init();
    assert_eq!(component.as_particle(), Some(&particle));
    component.update(Fixed::from_int(5));
    particle.update(Fixed::from_int(5));
    assert_eq!(component.as_particle(), Some(&particle));
    assert_eq!(
        component.get_quads(),
        Some(vec![Quad {
            x: fx(1_000),
            y: fx(-2_000),
            width: fx(100_000),
            height: fx(100_000),
            color: Color32(fx(500_000), fx(500_000), fx(500_000), fx(1_000_000)),
        }])
    );
    component.update(Fixed::from_int(6));
    assert_eq!(component.get_quads(), Some(Vec::new()));
    assert!(component.as_particle_system().is_none());
}

#[test]
fn component_system_follows_the_system() {
    let mut component =
        Component::ParticleSystem(ParticleSystem::new_with_seed(ParticleProps::fire(), 3));
    let mut system = ParticleSystem::new_with_seed(ParticleProps::fire(), 3);
    assert!(component.as_particle().is_none());
    component.update(fx(16_000));
    system.update(fx(16_000));
    assert_eq!(component.as_particle_system().unwrap().particles(), system.particles());
    assert_eq!(component.get_quads(), system.get_quads());
    assert_eq!(component.get_quads().unwrap().len(), 5);
    component.init();
    system.init();
    assert_eq!(component.as_particle_system().unwrap().particles().len(), MAX_PARTICLES);
    assert_eq!(component.as_particle_system().unwrap().particles(), system.particles());
    assert_eq!(component.get_quads(), system.get_quads());
}
