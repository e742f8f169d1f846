use unwrap_rs::particles::{
    extra_particle_kind, initialize_connections, particle_classes, particle_color, short_lived,
    ColorScheme, ConnectionSeed, ParticleType,
};
use unwrap_rs::particles::connections_active;
use unwrap_rs::phase::{
    AnimationPhase, ConvergeSubPhase, DissolveSubPhase, ScatterSubPhase, StableSubPhase,
};

#[test]
fn extra_kinds_repeat_every_five() {
    let kinds: Vec<ParticleType> = (0..10).map(extra_particle_kind).collect();
    assert_eq!(
        kinds,
        vec![
            ParticleType::Orbiter,
            ParticleType::Swarm,
            ParticleType::Fragment,
            ParticleType::Connector,
            ParticleType::Swarm,
            ParticleType::Orbiter,
            ParticleType::Swarm,
            ParticleType::Fragment,
            ParticleType::Connector,
            ParticleType::Swarm,
        ]
    );
}

#[test]
fn fragments_and_connectors_are_short_lived() {
    assert!(short_lived(ParticleType::Fragment));
    assert!(short_lived(ParticleType::Connector));
    assert!(!short_lived(ParticleType::Orbiter));
    assert!(!short_lived(ParticleType::Swarm));
    assert!(!short_lived(ParticleType::Core));
}

fn seed(a: usize, b: usize, s: u8) -> ConnectionSeed {
    ConnectionSeed { particle1_idx: a, particle2_idx: b, strength_tenths: s }
}

#[test]
fn connections_for_the_target_text() {
    let mut flags = vec![true; 9];
    flags.extend(vec![false; 80]);
    let cs = initialize_connections(&flags);
    assert_eq!(cs.len(), 2 * 9 - 3);
    for k in 0..8 {
        assert_eq!(cs[k], seed(k, k + 1, 8));
    }
    for k in 0..7 {
        assert_eq!(cs[8 + k], seed(k, k + 2, 4));
    }
}

#[test]
fn connections_skip_decorative_particles() {
    let flags = vec![false, true, false, true, true, false];
    let cs = initialize_connections(&flags);
    assert_eq!(cs, vec![seed(1, 3, 8), seed(3, 4, 8), seed(1, 4, 4)]);
}

#[test]
fn few_text_particles_give_few_connections() {
    assert!(initialize_connections(&vec![]).is_empty());
    assert!(initialize_connections(&vec![false, true, false]).is_empty());
    assert_eq!(initialize_connections(&vec![true, true]), vec![seed(0, 1, 8)]);
}

#[test]
fn default_scheme_colours() {
    let s = ColorScheme::default();
    assert_eq!(s.primary, "#00ff88");
    assert_eq!(s.secondary, "#0088ff");
    assert_eq!(s.accent, "#ff00ff");
    assert_eq!(s.background, "transparent");
}

#[test]
fn particle_colours() {
    let s = ColorScheme::default();
    let ripple = AnimationPhase::Stable(StableSubPhase::Ripple);
    let shimmer = AnimationPhase::Stable(StableSubPhase::Shimmer);
    let pulse = AnimationPhase::Stable(StableSubPhase::Pulse);
    let align = AnimationPhase::Converge(ConvergeSubPhase::Alignment);
    assert_eq!(particle_color(&s, true, ParticleType::Core, ripple), "#ff00ff");
    assert_eq!(particle_color(&s, true, ParticleType::Core, shimmer), "#ff00ff");
    assert_eq!(particle_color(&s, true, ParticleType::Core, pulse), "#00ff88");
    assert_eq!(particle_color(&s, false, ParticleType::Orbiter, align), "#ff00ff");
    assert_eq!(particle_color(&s, false, ParticleType::Swarm, ripple), "#0088ff");
    assert_eq!(particle_color(&s, false, ParticleType::Fragment, align), "#0088ff");
}

#[test]
fn particle_class_glow() {
    let glow = "particle metallic-glow";
    assert_eq!(particle_classes(true, AnimationPhase::Stable(StableSubPhase::Pulse)), glow);
    assert_eq!(particle_classes(true, AnimationPhase::Stable(StableSubPhase::Orbit)), glow);
    assert_eq!(particle_classes(true, AnimationPhase::Stable(StableSubPhase::Ripple)), glow);
    assert_eq!(particle_classes(true, AnimationPhase::Stable(StableSubPhase::Shimmer)), "particle");
    assert_eq!(
        particle_classes(true, AnimationPhase::Stable(StableSubPhase::PreDissolve)),
        "particle"
    );
    assert_eq!(particle_classes(true, AnimationPhase::initial()), "particle");
    assert_eq!(particle_classes(false, AnimationPhase::Stable(StableSubPhase::Pulse)), "particle");
}

#[test]
fn connections_are_active_while_converging_and_stable() {
    assert!(!connections_active(AnimationPhase::Scatter(ScatterSubPhase::PreConverge)));
    assert!(connections_active(AnimationPhase::Converge(ConvergeSubPhase::Formation)));
    assert!(connections_active(AnimationPhase::Stable(StableSubPhase::Shimmer)));
    assert!(!connections_active(AnimationPhase::Dissolve(DissolveSubPhase::Fade)));
}
