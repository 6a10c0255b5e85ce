use water_caustics::fixed::{FX_HALF, FX_ONE, FX_QUARTER};
use water_caustics::vector::{FxVec2, FxVec3};
use water_caustics::water::material::WaterMaterial;

fn material(amplitude: i64) -> WaterMaterial {
    WaterMaterial { amplitude, coord_scale: FxVec2 { x: FX_ONE, y: FX_ONE } }
}

#[test]
fn zero_amplitude_means_flat_water_everywhere() {
    let m = material(0);
    let probes = [
        (0i64, 0i64, 0i64),
        (12345, -54321, 0),
        (-1 << 30, 1 << 30, 1 << 40),
        (FX_QUARTER, FX_HALF, -12345678),
    ];
    for &(x, z, t) in probes.iter() {
        let (h, n) = m.height_and_normal(x, z, t);
        assert_eq!(h, 0);
        assert_eq!(n, FxVec3 { x: 0, y: FX_ONE, z: 0 });
    }
}

#[test]
fn crest_and_trough_heights_are_exact() {
    let m = material(FX_ONE);
    // A quarter period along x puts that axis's waveform at its crest.
    assert_eq!(m.height(FX_QUARTER, 0, 0), FX_HALF);
    // Three quarters along puts it at its trough.
    assert_eq!(m.height(3 * FX_QUARTER, 0, 0), -FX_HALF);
    // Both axes at the crest add up to the full amplitude.
    assert_eq!(m.height(FX_QUARTER, FX_QUARTER, 0), FX_ONE);
    // The waveform starts at zero.
    assert_eq!(m.height(0, 0, 0), 0);
}

#[test]
fn normal_at_origin_is_exact() {
    let m = material(FX_ONE);
    let (_, n) = m.height_and_normal(0, 0, 0);
    assert_eq!(n, FxVec3 { x: -45633, y: 11408, z: -45633 });
}

#[test]
fn normal_is_flat_at_the_crest() {
    let m = material(FX_ONE);
    let (_, n) = m.height_and_normal(FX_QUARTER, FX_QUARTER, 0);
    assert_eq!(n, FxVec3 { x: 0, y: FX_ONE, z: 0 });
}

#[test]
fn evaluation_is_deterministic() {
    let m = material(12345);
    let a = m.height_and_normal(777, -888, 999);
    let b = m.height_and_normal(777, -888, 999);
    assert_eq!(a, b);
}

#[test]
fn height_stays_within_amplitude() {
    let m = material(6554);
    let mut x = -FX_ONE;
    while x <= FX_ONE {
        let h = m.height(x, x / 2, 4321);
        assert!(-m.amplitude <= h && h <= m.amplitude);
        x += 777;
    }
}

#[test]
fn height_is_continuous_in_position() {
    // One waveform period sampled at a fine step: the height moves by
    // at most the waveform's slope bound per step, truncation slack
    // included, across both half-period seams and the wrap.
    let m = material(FX_ONE);
    let step = 64i64;
    let mut x = 0i64;
    while x < 2 * FX_ONE {
        let d = (m.height(x + step, 0, 0) - m.height(x, 0, 0)).abs();
        assert!(d <= 4 * step + 2);
        x += step;
    }
}

#[test]
fn time_moves_the_phase() {
    let m = material(FX_ONE);
    // Advancing time by a quarter period shifts the crest to the origin.
    assert_eq!(m.height(0, 0, FX_QUARTER), FX_ONE);
}

#[test]
fn default_material_is_unit_wave() {
    let m: WaterMaterial = Default::default();
    assert_eq!(m.amplitude, FX_ONE);
    assert_eq!(m.coord_scale, FxVec2 { x: FX_ONE, y: FX_ONE });
}

#[test]
fn uniform_carries_the_parameters() {
    let m = material(4242);
    let u = m.to_uniform();
    assert_eq!(u.amplitude, 4242);
    assert_eq!(u.coord_scale, m.coord_scale);
}
