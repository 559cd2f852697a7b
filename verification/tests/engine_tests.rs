use sam_shader_engine::effects::cyber_grid::CyberGridEffect;
use sam_shader_engine::effects::gravitational_nebula::GravitationalNebulaEffect;
use sam_shader_engine::effects::mobile_filaments::IonFilamentsMobileEffect;
use sam_shader_engine::effects::mobile_nebula::NebulaDriftMobileEffect;
use sam_shader_engine::effects::mobile_pulsar::QuantumPulsarMobileEffect;
use sam_shader_engine::effects::quantum_core::QuantumCoreEffect;
use sam_shader_engine::effects::{EffectRegistry, ShaderEffect, COMMON_VERTEX_SHADER};

#[test]
fn test_effect_registry_polymorphic_dispatch() {
    let mut registry: EffectRegistry<Box<dyn ShaderEffect>> = EffectRegistry::new();
    assert_eq!(registry.effects_count(), 0);

    registry.register(Box::new(QuantumCoreEffect::new()));
    registry.register(Box::new(CyberGridEffect::new()));
    registry.register(Box::new(GravitationalNebulaEffect::new()));

    assert_eq!(registry.effects_count(), 3);
    assert_eq!(registry.active_effect().name(), "Quantum Core");

    // Switch effect
    let switch_result = registry.switch_effect(1);
    assert!(switch_result.is_ok());
    assert_eq!(registry.active_effect().name(), "Cyber Grid");

    let switch_result2 = registry.switch_effect(2);
    assert!(switch_result2.is_ok());
    assert_eq!(registry.active_effect().name(), "Gravitational Nebula");

    // Out of bounds check
    let invalid_switch = registry.switch_effect(99);
    assert!(invalid_switch.is_err());
    // Should remain on current
    assert_eq!(registry.active_effect().name(), "Gravitational Nebula");
}

#[test]
fn test_effects_have_valid_shaders() {
    let effects: Vec<Box<dyn ShaderEffect>> = vec![
        Box::new(QuantumCoreEffect::new()),
        Box::new(CyberGridEffect::new()),
        Box::new(GravitationalNebulaEffect::new()),
    ];

    for effect in effects {
        let vs = effect.vertex_source();
        let fs = effect.fragment_source();

        assert!(vs.contains("#version 300 es"), "Vertex shader must be GLSL 300 es");
        assert!(fs.contains("#version 300 es"), "Fragment shader must be GLSL 300 es");
        assert!(fs.contains("out vec4 fragColor"), "Fragment shader must declare output");
        assert!(fs.contains("u_time"), "Fragment shader must accept u_time uniform");
        assert!(fs.contains("u_resolution"), "Fragment shader must accept u_resolution uniform");
    }
}

#[test]
fn test_mobile_effects_and_mode_switching() {
    let mut registry: EffectRegistry<Box<dyn ShaderEffect>> = EffectRegistry::new();

    // Register desktop effects
    registry.register(Box::new(QuantumCoreEffect::new()));
    registry.register(Box::new(CyberGridEffect::new()));
    registry.register(Box::new(GravitationalNebulaEffect::new()));

    // Register mobile effects
    registry.register_mobile(Box::new(NebulaDriftMobileEffect::new()));
    registry.register_mobile(Box::new(IonFilamentsMobileEffect::new()));
    registry.register_mobile(Box::new(QuantumPulsarMobileEffect::new()));

    assert!(!registry.is_mobile(), "Default should be desktop mode");
    assert_eq!(registry.effects_count(), 3);
    assert_eq!(registry.active_effect().name(), "Quantum Core");

    // Switch to mobile mode
    registry.set_mobile_mode(true);
    assert!(registry.is_mobile());
    assert_eq!(registry.effects_count(), 3);
    assert_eq!(registry.active_effect().name(), "Nebula Drift (Mobile)");

    let names = registry.effect_names();
    assert_eq!(names, vec!["Nebula Drift (Mobile)", "Ion Filaments (Mobile)", "Quantum Pulsar (Mobile)"]);

    // Test mobile effect preset switching
    assert!(registry.switch_effect(1).is_ok());
    assert_eq!(registry.active_effect().name(), "Ion Filaments (Mobile)");

    assert!(registry.switch_effect(2).is_ok());
    assert_eq!(registry.active_effect().name(), "Quantum Pulsar (Mobile)");

    // Switch back to desktop mode
    registry.set_mobile_mode(false);
    assert!(!registry.is_mobile());
    assert_eq!(registry.active_effect().name(), "Quantum Core");
}

#[test]
fn test_mobile_shaders_are_valid_and_non_raymarched() {
    let mobile_effects: Vec<Box<dyn ShaderEffect>> = vec![
        Box::new(NebulaDriftMobileEffect::new()),
        Box::new(IonFilamentsMobileEffect::new()),
        Box::new(QuantumPulsarMobileEffect::new()),
    ];

    for effect in mobile_effects {
        let vs = effect.vertex_source();
        let fs = effect.fragment_source();

        assert!(vs.contains("#version 300 es"));
        assert!(fs.contains("#version 300 es"));
        assert!(fs.contains("out vec4 fragColor"));
        assert!(fs.contains("u_time"));
        assert!(fs.contains("u_resolution"));
        assert!(fs.contains("u_mouse"));
        // Mobile shaders should NOT contain heavy raymarch loops (for < 64 etc.)
        assert!(!fs.contains("for (int i = 0; i < 64; i++)"), "Mobile shaders must not use heavy 64-step raymarching loops");
    }
}

#[test]
fn test_mobile_shaders_keep_content_on_screen_when_scrolled() {
    // The single-column phone layout scrolls ~8500px; a linear scroll offset on uv or the
    // horizon slides the whole effect off-canvas. Scroll must drive phase, not position.
    let mobile_effects: Vec<Box<dyn ShaderEffect>> = vec![
        Box::new(NebulaDriftMobileEffect::new()),
        Box::new(IonFilamentsMobileEffect::new()),
        Box::new(QuantumPulsarMobileEffect::new()),
    ];

    for effect in mobile_effects {
        let fs = effect.fragment_source();
        assert!(fs.contains("u_scroll"), "{} should still react to scroll", effect.name());
        assert!(!fs.contains("uv.y += u_scroll"), "{} offsets uv by scroll", effect.name());
        assert!(!fs.contains("- u_scroll *"), "{} offsets the horizon by scroll", effect.name());
    }
}

#[test]
fn effect_names_and_descriptions_are_fixed() {
    assert_eq!(QuantumCoreEffect::new().name(), "Quantum Core");
    assert_eq!(CyberGridEffect::new().name(), "Cyber Grid");
    assert_eq!(GravitationalNebulaEffect::new().name(), "Gravitational Nebula");
    assert_eq!(NebulaDriftMobileEffect::new().name(), "Nebula Drift (Mobile)");
    assert_eq!(IonFilamentsMobileEffect::new().name(), "Ion Filaments (Mobile)");
    assert_eq!(QuantumPulsarMobileEffect::new().name(), "Quantum Pulsar (Mobile)");
    assert_eq!(
        CyberGridEffect::default().description(),
        "Infinite perspective synthwave cyber-grid with terrain elevation, horizon glow, and shockwave propagation"
    );
    assert_eq!(
        QuantumPulsarMobileEffect::default().description(),
        "Analytical 2D quantum pulsar with harmonic ripples and gyroscopic touch reaction"
    );
}

#[test]
fn every_effect_shares_the_quad_vertex_shader() {
    let effects: Vec<Box<dyn ShaderEffect>> = vec![
        Box::new(QuantumCoreEffect::default()),
        Box::new(CyberGridEffect::default()),
        Box::new(GravitationalNebulaEffect::default()),
        Box::new(NebulaDriftMobileEffect::default()),
        Box::new(IonFilamentsMobileEffect::default()),
        Box::new(QuantumPulsarMobileEffect::default()),
    ];
    for effect in effects {
        assert_eq!(effect.vertex_source(), COMMON_VERTEX_SHADER);
        assert!(effect.fragment_source().starts_with("#version 300 es"));
        assert!(effect.fragment_source().contains("u_ripples"));
    }
}
