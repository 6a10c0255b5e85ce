use water_caustics::fixed::FX_ONE;
use water_caustics::vector::{FxVec2, FxVec3};
use water_caustics::water::material::WaterMaterial;
use water_caustics::water::{
    setup_water, update_materials, WaterBundle, WaterPlugin, WaterSettings, WaterTileBundle,
    WATER_GRID_SIZE, WATER_SIZE, WATER_TILE_COUNT,
};

#[test]
fn default_water_bundle_sits_at_the_origin() {
    let b: WaterBundle = Default::default();
    assert_eq!(b.transform, FxVec3 { x: 0, y: 0, z: 0 });
}

#[test]
fn default_settings() {
    let s: WaterSettings = Default::default();
    assert_eq!(s.height, FX_ONE);
    assert_eq!(s.wave_height, FX_ONE);
    assert_eq!(s.version, 0);
}

#[test]
fn mutating_settings_bumps_the_version() {
    let mut s: WaterSettings = Default::default();
    s.set_wave_height(4242);
    assert_eq!(s.wave_height, 4242);
    assert_eq!(s.height, FX_ONE);
    assert_eq!(s.version, 1);
}

#[test]
fn tile_bundle_lifts_the_offset_to_the_water_height() {
    let t = WaterTileBundle::new(3, 4, 777, FxVec2 { x: -10, y: 20 });
    assert_eq!(t.mesh, 3);
    assert_eq!(t.material, 4);
    assert_eq!(t.transform, FxVec3 { x: -10, y: 777, z: 20 });
}

#[test]
fn water_grid_is_centered_and_fully_populated() {
    let settings: WaterSettings = Default::default();
    let (tiles, materials) = setup_water(&settings, 1, 100);
    assert_eq!(tiles.len(), WATER_TILE_COUNT);
    assert_eq!(materials.len(), WATER_TILE_COUNT);
    assert_eq!(WATER_TILE_COUNT, (WATER_GRID_SIZE as usize) * (WATER_GRID_SIZE as usize));
    // First tile: the grid's low corner; last tile: the high corner.
    assert_eq!(tiles[0].transform, FxVec3 { x: -50331648, y: FX_ONE, z: -50331648 });
    assert_eq!(tiles[35].transform, FxVec3 { x: 33554432, y: FX_ONE, z: 33554432 });
    // Tiles step by one tile edge.
    let step = (WATER_SIZE as i64) * FX_ONE;
    assert_eq!(tiles[1].transform.z - tiles[0].transform.z, step);
    assert_eq!(tiles[6].transform.x - tiles[0].transform.x, step);
    // Every tile has its own material, all starting at the settings'
    // amplitude.
    for (i, tile) in tiles.iter().enumerate() {
        assert_eq!(tile.mesh, 1);
        assert_eq!(tile.material, 100 + i as u64);
    }
    assert!(materials.iter().all(|m| m.amplitude == settings.wave_height));
}

#[test]
fn update_materials_propagates_amplitude_only() {
    let mut settings: WaterSettings = Default::default();
    settings.set_wave_height(555);
    let mut materials = vec![
        WaterMaterial { amplitude: 1, coord_scale: FxVec2 { x: FX_ONE, y: FX_ONE } },
        WaterMaterial { amplitude: 2, coord_scale: FxVec2 { x: 7, y: 9 } },
    ];
    update_materials(&settings, &mut materials);
    assert_eq!(materials[0].amplitude, 555);
    assert_eq!(materials[1].amplitude, 555);
    assert_eq!(materials[1].coord_scale, FxVec2 { x: 7, y: 9 });
}

#[test]
fn settings_changes_reach_materials_at_the_frame_boundary() {
    let settings: WaterSettings = Default::default();
    let mut world = WaterPlugin.build(settings, 1, 100);
    assert!(world.materials.iter().all(|m| m.amplitude == FX_ONE));

    world.set_wave_height(4242);
    // Not yet propagated: the change waits for the frame boundary.
    assert!(world.materials.iter().all(|m| m.amplitude == FX_ONE));

    world.frame_update();
    assert!(world.materials.iter().all(|m| m.amplitude == 4242));
    assert_eq!(world.seen_version, world.settings.version);

    // With no further change the next boundary touches nothing.
    let before = world.materials.clone();
    world.frame_update();
    assert_eq!(world.materials, before);
}
