use water_caustics::fixed::{FX_HALF, FX_ONE};
use water_caustics::mapper::WorldToUv;
use water_caustics::vector::{FxVec2, FxVec4};

fn unit_footprint() -> WorldToUv {
    WorldToUv::build(FxVec2 { x: 0, y: 0 }, FX_ONE)
}

#[test]
fn test_world_to_uv() {
    let mat = unit_footprint();
    let max_point = FxVec4 { x: FX_HALF, y: 0, z: FX_HALF, w: FX_ONE };
    let max_point_x = FxVec4 { x: FX_HALF, y: 0, z: -FX_HALF, w: FX_ONE };
    let min_point = FxVec4 { x: -FX_HALF, y: 0, z: -FX_HALF, w: FX_ONE };
    assert_eq!(mat.apply(&max_point), FxVec4 { x: FX_ONE, y: 0, z: FX_ONE, w: FX_ONE });
    assert_eq!(mat.apply(&max_point_x), FxVec4 { x: FX_ONE, y: 0, z: 0, w: FX_ONE });
    assert_eq!(mat.apply(&min_point), FxVec4 { x: 0, y: 0, z: 0, w: FX_ONE });
}

#[test]
fn test_world_to_uv_diffw() {
    let mat = unit_footprint();
    let max_point = FxVec4 { x: FX_HALF, y: 0, z: FX_HALF, w: 5 * FX_ONE };
    let max_point_x = FxVec4 { x: FX_HALF, y: 0, z: -FX_HALF, w: 4 * FX_ONE };
    let min_point = FxVec4 { x: -FX_HALF, y: 0, z: -FX_HALF, w: -FX_ONE };
    assert_eq!(mat.apply(&max_point), FxVec4 { x: FX_ONE, y: 0, z: FX_ONE, w: 5 * FX_ONE });
    assert_eq!(mat.apply(&max_point_x), FxVec4 { x: FX_ONE, y: 0, z: 0, w: 4 * FX_ONE });
    assert_eq!(mat.apply(&min_point), FxVec4 { x: 0, y: 0, z: 0, w: -FX_ONE });
}

#[test]
fn test_world_to_uv2() {
    let mat = unit_footprint();
    let max_point = FxVec4 { x: FX_HALF, y: FX_ONE, z: FX_HALF, w: FX_ONE };
    let min_point = FxVec4 { x: -FX_HALF, y: 2 * FX_ONE, z: -FX_HALF, w: FX_ONE };
    assert_eq!(mat.apply(&max_point), FxVec4 { x: FX_ONE, y: FX_ONE, z: FX_ONE, w: FX_ONE });
    assert_eq!(mat.apply(&min_point), FxVec4 { x: 0, y: 2 * FX_ONE, z: 0, w: FX_ONE });
}

#[test]
fn homogeneous_component_is_ignored_and_kept() {
    let mat = unit_footprint();
    let ws = [-FX_ONE, FX_ONE, 4 * FX_ONE, 5 * FX_ONE];
    let reference = mat.apply(&FxVec4 { x: 12345, y: 7, z: -23456, w: FX_ONE });
    for &w in ws.iter() {
        let out = mat.apply(&FxVec4 { x: 12345, y: 7, z: -23456, w });
        assert_eq!(out.x, reference.x);
        assert_eq!(out.z, reference.z);
        assert_eq!(out.w, w);
    }
}

#[test]
fn offset_footprint_corners_map_to_unit_square() {
    let center = FxVec2 { x: 10 * FX_ONE, y: -3 * FX_ONE };
    let size = 4 * FX_ONE;
    let hs = 2 * FX_ONE;
    let mat = WorldToUv::build(center, size);
    let lo = mat.apply(&FxVec4 { x: center.x - hs, y: 0, z: center.y - hs, w: FX_ONE });
    let hi = mat.apply(&FxVec4 { x: center.x + hs, y: 0, z: center.y + hs, w: FX_ONE });
    assert_eq!((lo.x, lo.z), (0, 0));
    assert_eq!((hi.x, hi.z), (FX_ONE, FX_ONE));
}

#[test]
fn footprint_center_maps_to_half() {
    let mat = unit_footprint();
    let mid = mat.apply(&FxVec4 { x: 0, y: 0, z: 0, w: FX_ONE });
    assert_eq!((mid.x, mid.z), (FX_HALF, FX_HALF));
}
