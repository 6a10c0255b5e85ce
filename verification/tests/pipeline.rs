use water_caustics::compose::ConfigError;
use water_caustics::fixed::{FX_HALF, FX_ONE};
use water_caustics::mapper::WorldToUv;
use water_caustics::pipeline::{
    FrameOutcome, PipelineScheduler, CAUSTICS_PASS_ORDER, MAIN_PASS_ORDER,
};
use water_caustics::vector::{FxColor, FxVec2, FxVec4};
use water_caustics::water::caustics::{
    caustics_intensity, CausticsMaterial, CausticsTexture, INTENSITY_BASE,
};
use water_caustics::water::material::{WaterMaterial, WaterMaterialUniform};
use water_caustics::water::underwater::UnderwaterExtension;

const TEXTURE_HANDLE: u64 = 7;

fn water(amplitude: i64) -> WaterMaterial {
    WaterMaterial { amplitude, coord_scale: FxVec2 { x: FX_ONE, y: FX_ONE } }
}

fn scheduler() -> PipelineScheduler {
    let caustics = CausticsMaterial::new(
        FxVec4 { x: 0, y: FX_ONE, z: 0, w: -FX_ONE },
        FxVec4 { x: 43254, y: 45220, z: 19661, w: 0 },
    )
    .unwrap();
    let extent = WorldToUv::build(FxVec2 { x: 0, y: 0 }, FX_ONE);
    let underwater = UnderwaterExtension::new(
        extent,
        FxVec4 { x: 0, y: FX_ONE, z: 0, w: 0 },
        FxColor { r: 29814, g: 52429, b: 62708, a: FX_ONE },
        FxVec4 { x: 43254, y: 45220, z: 19661, w: 0 },
        WaterMaterialUniform { amplitude: 0, coord_scale: FxVec2 { x: FX_ONE, y: FX_ONE } },
        TEXTURE_HANDLE,
    )
    .unwrap();
    PipelineScheduler::new(
        caustics,
        water(0),
        extent,
        underwater,
        CausticsTexture::new(16, 16),
        TEXTURE_HANDLE,
    )
    .unwrap()
}

#[test]
fn caustics_pass_is_ordered_before_the_main_pass() {
    let s = scheduler();
    assert_eq!(s.passes.len(), 2);
    assert!(s.passes[0].writes_caustics && !s.passes[0].reads_caustics);
    assert!(s.passes[1].reads_caustics && !s.passes[1].writes_caustics);
    assert!(s.passes[0].priority < s.passes[1].priority);
    assert_eq!(s.passes[0].priority, CAUSTICS_PASS_ORDER);
    assert_eq!(s.passes[1].priority, MAIN_PASS_ORDER);
}

#[test]
fn foreign_or_missing_texture_handle_fails_setup() {
    let good = scheduler();
    let r = PipelineScheduler::new(
        good.caustics,
        water(0),
        good.extent,
        good.underwater,
        CausticsTexture::new(16, 16),
        9,
    );
    assert_eq!(r.err(), Some(ConfigError::MissingCausticsTexture));
    let mut orphan = good.underwater;
    orphan.caustics_texture = 5;
    let r0 = PipelineScheduler::new(
        good.caustics,
        water(0),
        good.extent,
        orphan,
        CausticsTexture::new(16, 16),
        5,
    );
    assert!(r0.is_ok());
}

#[test]
fn unresolved_shaders_skip_the_frame_and_keep_the_image() {
    let mut s = scheduler();
    let before = s.texture.texels.clone();
    let out = s.run_frame(&water(6554), 0);
    assert_eq!(out, FrameOutcome::SkippedResourceUnavailable);
    assert_eq!(s.frame, 1);
    assert_eq!(s.texture.frame, 0);
    assert_eq!(s.texture.texels, before);
    // The retry succeeds once the assets resolve.
    s.shaders_loaded();
    let out = s.run_frame(&water(6554), 0);
    assert_eq!(out, FrameOutcome::Rendered);
    assert_eq!(s.frame, 2);
    assert_eq!(s.texture.frame, 2);
}

#[test]
fn each_frame_observes_its_own_amplitude() {
    let mut s = scheduler();
    s.shaders_loaded();

    // Frame 1: flat water. Every texel is the base intensity.
    assert_eq!(s.run_frame(&water(0), 0), FrameOutcome::Rendered);
    assert_eq!(s.texture.frame, s.frame);
    assert!(s.texture.texels.iter().all(|&v| v == INTENSITY_BASE));
    let frame1 = s.texture.texels.clone();

    // Frame 2: waves on. The image is recomputed from frame 2's
    // amplitude alone and fully overwrites frame 1's content.
    assert_eq!(s.run_frame(&water(6554), 0), FrameOutcome::Rendered);
    assert_eq!(s.texture.frame, s.frame);
    assert_ne!(s.texture.texels, frame1);
    let expected = expected_image(&s, &water(6554), 0);
    assert_eq!(s.texture.texels, expected);

    // Frame 3: flat again. No texel of frame 2 survives.
    assert_eq!(s.run_frame(&water(0), 0), FrameOutcome::Rendered);
    assert!(s.texture.texels.iter().all(|&v| v == INTENSITY_BASE));
    assert_eq!(s.texture.frame, 3);
}

fn expected_image(s: &PipelineScheduler, m: &WaterMaterial, time: i64) -> Vec<i64> {
    let w = s.texture.width as i64;
    let h = s.texture.height as i64;
    let size = s.extent.size;
    let mut out = Vec::new();
    for i in 0..(w * h) {
        let col = i % w;
        let row = i / w;
        let wx = s.extent.center.x - size / 2 + col * size / (w - 1);
        let wz = s.extent.center.y - size / 2 + row * size / (h - 1);
        out.push(caustics_intensity(&s.caustics, m, wx, wz, time));
    }
    out
}

#[test]
fn compositing_reads_the_current_frame_image() {
    let mut s = scheduler();
    s.shaders_loaded();
    s.run_frame(&water(0), 0);
    let base = FxColor { r: FX_HALF, g: FX_HALF, b: FX_HALF, a: FX_ONE };
    let world = FxVec4 { x: 0, y: -FX_ONE, z: 0, w: FX_ONE };
    let c = s.shade_at(&base, &world, 0);
    // Flat water: the sampled intensity is exactly the base level, so
    // the shade is the fully submerged tint of the base color.
    assert_eq!(c, FxColor { r: 14907, g: 26214, b: 31354, a: FX_ONE });
    assert!(c.r <= FX_ONE && c.g <= FX_ONE && c.b <= FX_ONE);
}
