use water_caustics::compose::{
    compose, ConfigError, LogicalResource, MaterialContract, ResourceKind, ShaderStageRef,
};

fn uniform(name: u64) -> LogicalResource {
    LogicalResource { kind: ResourceKind::Uniform, name }
}

fn texture(name: u64) -> LogicalResource {
    LogicalResource { kind: ResourceKind::Texture, name }
}

fn layer(resources: Vec<LogicalResource>, vertex: ShaderStageRef, fragment: ShaderStageRef)
    -> MaterialContract {
    MaterialContract { resources, vertex, fragment }
}

fn bind_only(resources: Vec<LogicalResource>) -> MaterialContract {
    layer(resources, ShaderStageRef::Inherit, ShaderStageRef::Inherit)
}

#[test]
fn two_disjoint_extensions_get_disjoint_blocks() {
    let base = layer(vec![uniform(1), texture(2)], ShaderStageRef::Water, ShaderStageRef::Water);
    let e1 = bind_only(vec![uniform(10)]);
    let e2 = layer(vec![uniform(20), texture(21)], ShaderStageRef::Inherit, ShaderStageRef::Underwater);
    let c = compose(&base, &vec![e1, e2]).unwrap();
    let slots: Vec<u64> = c.bindings.iter().map(|b| b.slot).collect();
    assert_eq!(slots, vec![0, 1, 100, 200, 201]);
    assert_eq!(c.bindings[0].resource, uniform(1));
    assert_eq!(c.bindings[2].resource, uniform(10));
    assert_eq!(c.bindings[3].resource, uniform(20));
    assert_eq!(c.fragment, ShaderStageRef::Underwater);
    assert_eq!(c.vertex, ShaderStageRef::Water);
}

#[test]
fn shared_resource_name_is_rejected_at_composition_time() {
    let base = layer(vec![uniform(1)], ShaderStageRef::Water, ShaderStageRef::Water);
    let e1 = bind_only(vec![uniform(42)]);
    let e2 = bind_only(vec![uniform(42)]);
    assert_eq!(compose(&base, &vec![e1, e2]), Err(ConfigError::ResourceCollision));
}

#[test]
fn same_name_different_kind_does_not_collide() {
    let base = layer(vec![uniform(1)], ShaderStageRef::Water, ShaderStageRef::Water);
    let e1 = bind_only(vec![uniform(42)]);
    let e2 = bind_only(vec![texture(42)]);
    assert!(compose(&base, &vec![e1, e2]).is_ok());
}

#[test]
fn oversized_layer_is_rejected() {
    let mut resources = Vec::new();
    for name in 0..101u64 {
        resources.push(uniform(name));
    }
    let base = layer(resources, ShaderStageRef::Water, ShaderStageRef::Water);
    assert_eq!(compose(&base, &vec![]), Err(ConfigError::LayerTooLarge));
}

#[test]
fn too_many_layers_are_rejected() {
    let base = layer(vec![uniform(1)], ShaderStageRef::Water, ShaderStageRef::Water);
    let mut extensions = Vec::new();
    for name in 0..101u64 {
        extensions.push(bind_only(vec![uniform(1000 + name)]));
    }
    assert_eq!(compose(&base, &extensions), Err(ConfigError::TooManyLayers));
}

#[test]
fn composition_is_deterministic() {
    let base = layer(vec![uniform(1)], ShaderStageRef::Water, ShaderStageRef::Water);
    let exts = vec![bind_only(vec![uniform(10)]), bind_only(vec![uniform(20)])];
    let a = compose(&base, &exts).unwrap();
    let b = compose(&base, &exts).unwrap();
    assert_eq!(a, b);
}

#[test]
fn bind_only_extension_leaves_stages_untouched() {
    let base = layer(vec![uniform(1)], ShaderStageRef::Caustics, ShaderStageRef::Caustics);
    let alone = compose(&base, &vec![]).unwrap();
    let extended = compose(&base, &vec![bind_only(vec![uniform(10)])]).unwrap();
    assert_eq!(extended.vertex, alone.vertex);
    assert_eq!(extended.fragment, alone.fragment);
}

#[test]
fn last_stage_override_wins() {
    let base = layer(vec![], ShaderStageRef::Water, ShaderStageRef::Water);
    let e1 = layer(vec![], ShaderStageRef::Inherit, ShaderStageRef::Underwater);
    let e2 = layer(vec![], ShaderStageRef::Inherit, ShaderStageRef::CausticsFragment);
    let e3 = bind_only(vec![]);
    let c = compose(&base, &vec![e1, e2, e3]).unwrap();
    assert_eq!(c.fragment, ShaderStageRef::CausticsFragment);
    assert_eq!(c.vertex, ShaderStageRef::Water);
}
