use sam_shader_engine::effects::cyber_grid::CyberGridEffect;
use sam_shader_engine::effects::gravitational_nebula::GravitationalNebulaEffect;
use sam_shader_engine::effects::mobile_filaments::IonFilamentsMobileEffect;
use sam_shader_engine::effects::mobile_nebula::NebulaDriftMobileEffect;
use sam_shader_engine::effects::quantum_core::QuantumCoreEffect;
use sam_shader_engine::effects::registry::OUT_OF_BOUNDS_MESSAGE;
use sam_shader_engine::effects::{EffectRegistry, ShaderEffect};

fn desktop_registry() -> EffectRegistry<Box<dyn ShaderEffect>> {
    let mut registry: EffectRegistry<Box<dyn ShaderEffect>> = EffectRegistry::new();
    registry.register(Box::new(QuantumCoreEffect::new()));
    registry.register(Box::new(CyberGridEffect::new()));
    registry.register(Box::new(GravitationalNebulaEffect::new()));
    registry
}

#[test]
fn new_registry_is_empty_desktop() {
    let registry: EffectRegistry<u32> = EffectRegistry::default();
    assert_eq!(registry.effects_count(), 0);
    assert_eq!(registry.active_index(), 0);
    assert!(!registry.is_mobile());
}

#[test]
fn switch_out_of_range_reports_the_message_and_keeps_the_selection() {
    let mut registry = desktop_registry();
    assert!(registry.switch_effect(1).is_ok());
    assert_eq!(registry.switch_effect(3), Err(OUT_OF_BOUNDS_MESSAGE));
    assert_eq!(OUT_OF_BOUNDS_MESSAGE, "Shader effect index out of bounds");
    assert_eq!(registry.active_index(), 1);
    assert_eq!(registry.active_effect().name(), "Cyber Grid");
}

#[test]
fn switch_on_empty_registry_fails() {
    let mut registry: EffectRegistry<u32> = EffectRegistry::new();
    assert!(registry.switch_effect(0).is_err());
    assert_eq!(registry.active_index(), 0);
}

#[test]
fn mobile_mode_without_mobile_presets_falls_back_to_desktop() {
    let mut registry = desktop_registry();
    assert!(registry.switch_effect(2).is_ok());
    registry.set_mobile_mode(true);
    assert!(registry.is_mobile());
    assert_eq!(registry.effects_count(), 3);
    assert_eq!(registry.active_index(), 2);
    assert_eq!(registry.active_effect().name(), "Gravitational Nebula");
    assert_eq!(registry.effect_names(), vec!["Quantum Core", "Cyber Grid", "Gravitational Nebula"]);
}

#[test]
fn first_mobile_preset_takes_over_in_mobile_mode() {
    let mut registry = desktop_registry();
    registry.set_mobile_mode(true);
    registry.register_mobile(Box::new(NebulaDriftMobileEffect::new()));
    assert_eq!(registry.effects_count(), 1);
    assert_eq!(registry.active_effect().name(), "Nebula Drift (Mobile)");
}

#[test]
fn registering_keeps_the_active_preset() {
    let mut registry = desktop_registry();
    assert!(registry.switch_effect(1).is_ok());
    registry.register(Box::new(QuantumCoreEffect::new()));
    registry.register_mobile(Box::new(IonFilamentsMobileEffect::new()));
    assert_eq!(registry.effects_count(), 4);
    assert_eq!(registry.active_index(), 1);
    assert_eq!(registry.active_effect().name(), "Cyber Grid");
}

#[test]
fn each_mode_keeps_its_own_selection() {
    let mut registry = desktop_registry();
    registry.register_mobile(Box::new(NebulaDriftMobileEffect::new()));
    registry.register_mobile(Box::new(IonFilamentsMobileEffect::new()));
    assert!(registry.switch_effect(2).is_ok());
    registry.set_mobile_mode(true);
    assert_eq!(registry.active_index(), 0);
    assert!(registry.switch_effect(1).is_ok());
    registry.set_mobile_mode(false);
    assert_eq!(registry.active_index(), 2);
    assert_eq!(registry.active_effect().name(), "Gravitational Nebula");
    registry.set_mobile_mode(true);
    assert_eq!(registry.active_index(), 1);
    assert_eq!(registry.active_effect().name(), "Ion Filaments (Mobile)");
}

#[test]
fn active_effect_mut_changes_the_active_preset_in_place() {
    let mut registry: EffectRegistry<u32> = EffectRegistry::new();
    registry.register(10);
    registry.register(20);
    registry.register_mobile(30);
    assert!(registry.switch_effect(1).is_ok());
    *registry.active_effect_mut() = 25;
    assert_eq!(*registry.active_effect(), 25);
    registry.set_mobile_mode(true);
    *registry.active_effect_mut() += 1;
    assert_eq!(*registry.active_effect(), 31);
    registry.set_mobile_mode(false);
    assert!(registry.switch_effect(0).is_ok());
    assert_eq!(*registry.active_effect(), 10);
}
