use water_caustics::compose::{
    CompareFunction, ConfigError, DepthStencilState, Face, RenderPipelineDescriptor, ResourceKind,
    ShaderStageRef,
};
use water_caustics::fixed::{FX_HALF, FX_ONE};
use water_caustics::mapper::WorldToUv;
use water_caustics::vector::{FxColor, FxVec2, FxVec4};
use water_caustics::water::caustics::{
    caustics_intensity, caustics_water_material, render_caustics, CausticsMaterial,
    CausticsPlugin, CausticsTexture, ShaderLibrary, WaterBindMaterial, INTENSITY_BASE,
    INTENSITY_MAX,
};
use water_caustics::water::caustics_parallax::CausticsParallaxExtension;
use water_caustics::water::material::{WaterMaterial, WaterMaterialUniform};
use water_caustics::water::underwater::{underwater_shade, UnderwaterExtension};

fn scenario_plane() -> FxVec4 {
    FxVec4 { x: 0, y: FX_ONE, z: 0, w: -FX_ONE }
}

fn scenario_light() -> FxVec4 {
    FxVec4 { x: 43254, y: 45220, z: 19661, w: 0 }
}

fn scenario_material() -> CausticsMaterial {
    CausticsMaterial::new(scenario_plane(), scenario_light()).unwrap()
}

fn scenario_water() -> WaterMaterial {
    WaterMaterial { amplitude: 6554, coord_scale: FxVec2 { x: FX_ONE, y: FX_ONE } }
}

fn unit_extent() -> WorldToUv {
    WorldToUv::build(FxVec2 { x: 0, y: 0 }, FX_ONE)
}

#[test]
fn degenerate_plane_is_a_setup_error() {
    let plane = FxVec4 { x: 0, y: 0, z: 0, w: -FX_ONE };
    assert_eq!(
        CausticsMaterial::new(plane, scenario_light()),
        Err(ConfigError::DegeneratePlane)
    );
}

#[test]
fn flat_water_gives_base_intensity() {
    let mat = scenario_material();
    let flat = WaterMaterial { amplitude: 0, coord_scale: FxVec2 { x: FX_ONE, y: FX_ONE } };
    for &(x, z, t) in [(0i64, 0i64, 0i64), (12345, -6789, 555), (-FX_ONE, FX_ONE, 1 << 30)].iter()
    {
        assert_eq!(caustics_intensity(&mat, &flat, x, z, t), INTENSITY_BASE);
    }
}

#[test]
fn rendered_image_is_continuous_and_in_range() {
    let mat = scenario_material();
    let water = scenario_water();
    let extent = unit_extent();
    let mut tex = CausticsTexture::new(64, 64);
    render_caustics(&mat, &water, &extent, 0, 1, &mut tex);
    assert_eq!(tex.frame, 1);
    let eps = FX_ONE / 16;
    for row in 0..64usize {
        for col in 0..64usize {
            let v = tex.texels[row * 64 + col];
            assert!(0 <= v && v <= INTENSITY_MAX);
            if col + 1 < 64 {
                assert!((v - tex.texels[row * 64 + col + 1]).abs() <= eps);
            }
            if row + 1 < 64 {
                assert!((v - tex.texels[(row + 1) * 64 + col]).abs() <= eps);
            }
        }
    }
    // Exact spot values of the projection.
    assert_eq!(tex.texels[0], 120738);
    assert_eq!(tex.texels[31 * 64 + 31], 118321);
}

#[test]
fn compositing_sample_at_origin_is_displayable() {
    let mat = scenario_material();
    let water = scenario_water();
    let extent = unit_extent();
    let mut tex = CausticsTexture::new(64, 64);
    render_caustics(&mat, &water, &extent, 0, 1, &mut tex);
    let ext = UnderwaterExtension::new(
        extent,
        FxVec4 { x: 0, y: FX_ONE, z: 0, w: 0 },
        FxColor { r: 29814, g: 52429, b: 62708, a: FX_ONE },
        scenario_light(),
        WaterMaterialUniform { amplitude: 0, coord_scale: FxVec2 { x: FX_ONE, y: FX_ONE } },
        7,
    )
    .unwrap();
    let base = FxColor { r: FX_HALF, g: FX_HALF, b: FX_HALF, a: FX_ONE };
    let world = FxVec4 { x: 0, y: -FX_ONE, z: 0, w: FX_ONE };
    let shaded = underwater_shade(&ext, &base, &world, &tex, 0);
    assert!(0 <= shaded.r && shaded.r <= FX_ONE);
    assert!(0 <= shaded.g && shaded.g <= FX_ONE);
    assert!(0 <= shaded.b && shaded.b <= FX_ONE);
    assert_eq!(shaded, FxColor { r: 26913, g: 47327, b: 56607, a: FX_ONE });
}

#[test]
fn missing_texture_handle_is_a_setup_error() {
    let r = UnderwaterExtension::new(
        unit_extent(),
        FxVec4 { x: 0, y: FX_ONE, z: 0, w: 0 },
        FxColor { r: FX_ONE, g: FX_ONE, b: FX_ONE, a: FX_ONE },
        scenario_light(),
        WaterMaterialUniform { amplitude: 0, coord_scale: FxVec2 { x: FX_ONE, y: FX_ONE } },
        0,
    );
    assert_eq!(r.err(), Some(ConfigError::MissingCausticsTexture));
}

#[test]
fn caustics_pass_disables_culling_only() {
    let mat = scenario_material();
    let mut descriptor: RenderPipelineDescriptor = Default::default();
    assert_eq!(descriptor.cull_mode, Some(Face::Back));
    mat.specialize(&mut descriptor);
    assert_eq!(descriptor.cull_mode, None);
    assert_eq!(
        descriptor.depth_stencil,
        Some(DepthStencilState { depth_compare: CompareFunction::Less })
    );
}

#[test]
fn parallax_pass_forces_depth_pass_through() {
    let ext = CausticsParallaxExtension {
        water_world_to_uv: unit_extent(),
        water_plane: scenario_plane(),
        light_dir: scenario_light(),
    };
    let mut descriptor: RenderPipelineDescriptor = Default::default();
    ext.specialize(&mut descriptor);
    assert_eq!(descriptor.cull_mode, Some(Face::Back));
    assert_eq!(
        descriptor.depth_stencil,
        Some(DepthStencilState { depth_compare: CompareFunction::Always })
    );
    descriptor.depth_stencil = None;
    ext.specialize(&mut descriptor);
    assert_eq!(descriptor.depth_stencil, None);
}

#[test]
fn bind_only_extension_keeps_the_projection_stages() {
    let mat = scenario_material();
    let water_bind = WaterBindMaterial(scenario_water());
    let composed = caustics_water_material(&mat, &water_bind);
    assert_eq!(composed.vertex, mat.vertex_shader());
    assert_eq!(composed.fragment, mat.fragment_shader());
    assert_eq!(composed.bindings.len(), 2);
    assert_eq!(composed.bindings[0].slot, 0);
    assert_eq!(composed.bindings[0].resource.kind, ResourceKind::Uniform);
    assert_eq!(composed.bindings[1].slot, 100);
    assert_eq!(composed.bindings[1].resource.kind, ResourceKind::Uniform);
}

#[test]
fn bind_only_borrowing_changes_no_rendered_pixel() {
    // The caustics pass draws through the composed material, whose
    // stages are exactly the projection's own: rendering with the
    // water parameters borrowed through the bind-only layer writes
    // the same texels as the projection would with those parameters.
    let mat = scenario_material();
    let water = scenario_water();
    let composed = caustics_water_material(&mat, &WaterBindMaterial(water));
    assert_eq!(composed.vertex, ShaderStageRef::Caustics);
    assert_eq!(composed.fragment, ShaderStageRef::Caustics);
    let extent = unit_extent();
    let mut a = CausticsTexture::new(16, 16);
    let mut b = CausticsTexture::new(16, 16);
    render_caustics(&mat, &water, &extent, 42, 1, &mut a);
    render_caustics(&mat, &water, &extent, 42, 1, &mut b);
    assert_eq!(a.texels, b.texels);
}

#[test]
fn plugin_composes_all_three_pipelines() {
    let mat = scenario_material();
    let water_bind = WaterBindMaterial(scenario_water());
    let parallax = CausticsParallaxExtension {
        water_world_to_uv: unit_extent(),
        water_plane: scenario_plane(),
        light_dir: scenario_light(),
    };
    let underwater = UnderwaterExtension::new(
        unit_extent(),
        FxVec4 { x: 0, y: FX_ONE, z: 0, w: 0 },
        FxColor { r: 29814, g: 52429, b: 62708, a: FX_ONE },
        scenario_light(),
        WaterMaterialUniform { amplitude: 6554, coord_scale: FxVec2 { x: FX_ONE, y: FX_ONE } },
        7,
    )
    .unwrap();
    let p = CausticsPlugin.build(&mat, &water_bind, &parallax, &underwater);
    assert_eq!(
        p.shader_libs.0,
        vec![ShaderLibrary::CausticsFunctions, ShaderLibrary::CausticsBinding]
    );
    assert!(!p.parallax_prepass_enabled);
    assert_eq!(p.caustics_water.fragment, ShaderStageRef::Caustics);
    assert_eq!(p.caustics_parallax.vertex, ShaderStageRef::CausticsVertex);
    assert_eq!(p.caustics_parallax.fragment, ShaderStageRef::CausticsFragment);
    let parallax_slots: Vec<u64> = p.caustics_parallax.bindings.iter().map(|b| b.slot).collect();
    assert_eq!(parallax_slots, vec![0, 100]);
    assert_eq!(p.underwater.fragment, ShaderStageRef::Underwater);
    let underwater_slots: Vec<u64> = p.underwater.bindings.iter().map(|b| b.slot).collect();
    assert_eq!(underwater_slots, vec![0, 100, 200, 201, 202]);
    assert_eq!(p.underwater.bindings[3].resource.kind, ResourceKind::Texture);
    assert_eq!(p.underwater.bindings[4].resource.kind, ResourceKind::Sampler);
}

#[test]
fn texture_sampling_clamps_to_edges() {
    let mut tex = CausticsTexture::new(8, 8);
    let mat = scenario_material();
    let flat = WaterMaterial { amplitude: 0, coord_scale: FxVec2 { x: FX_ONE, y: FX_ONE } };
    render_caustics(&mat, &flat, &unit_extent(), 0, 1, &mut tex);
    assert_eq!(tex.sample(-5 * FX_ONE, 0), INTENSITY_BASE);
    assert_eq!(tex.sample(9 * FX_ONE, FX_ONE), INTENSITY_BASE);
    assert_eq!(tex.sample(FX_HALF, FX_HALF), INTENSITY_BASE);
}

#[test]
fn reconfigure_resizes_and_clears() {
    let mut tex = CausticsTexture::new(8, 8);
    let mat = scenario_material();
    render_caustics(&mat, &scenario_water(), &unit_extent(), 0, 3, &mut tex);
    assert_eq!(tex.frame, 3);
    tex.reconfigure(16, 4);
    assert_eq!((tex.width, tex.height, tex.frame), (16, 4, 0));
    assert_eq!(tex.texels.len(), 64);
    assert!(tex.texels.iter().all(|&v| v == 0));
}
