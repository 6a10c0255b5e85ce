//! The water surface: shared settings, the tile grid, and propagation
//! of live settings changes into every material instance.

pub mod caustics;
pub mod caustics_parallax;
pub mod material;
pub mod underwater;

use vstd::prelude::*;
use crate::fixed::FX_ONE;
use crate::vector::{FxVec2, FxVec3};
use material::{WaterMaterial, AMPLITUDE_MAX};

verus! {

/// Edge length of one water tile, in world units.
pub const WATER_SIZE: u16 = 256;

/// Edge length of one quad of the tile mesh, in world units.
pub const WATER_QUAD_SIZE: u16 = 16;

/// Number of tiles along each side of the water grid.
pub const WATER_GRID_SIZE: u16 = 6;

/// Live-updatable water settings, shared by every material instance.
/// The version counter is bumped by every mutation; the per-frame
/// update propagates the settings exactly when it lags behind.
#[derive(Clone, Copy, PartialEq, Eq, Structural, Debug)]
pub struct WaterSettings {
    /// World-space height of the resting water surface.
    pub height: i64,
    /// Wave amplitude handed to every water material.
    pub wave_height: i64,
    /// Bumped once per mutation; consumers compare and re-sync.
    pub version: u64,
}

impl WaterSettings {
    /// The amplitude is admissible for a water material.
    pub open spec fn well_formed(self) -> bool {
        0 <= self.wave_height <= AMPLITUDE_MAX
    }

    /// Changes the wave amplitude and marks the settings dirty.  The
    /// new amplitude must be admissible, so every material the change
    /// reaches stays admissible too.
    pub fn set_wave_height(&mut self, wave_height: i64)
        requires
            old(self).version < u64::MAX,
            0 <= wave_height <= AMPLITUDE_MAX,
        ensures
            final(self).wave_height == wave_height,
            final(self).height == old(self).height,
            final(self).version == old(self).version + 1,
            final(self).well_formed(),
    {
        self.wave_height = wave_height;
        self.version = self.version + 1;
    }
}

impl Default for WaterSettings {
    /// Resting height and amplitude of one unit, nothing seen yet.
    fn default() -> (r: WaterSettings)
        ensures
            r.height == FX_ONE,
            r.wave_height == FX_ONE,
            r.version == 0,
            r.well_formed(),
    {
        WaterSettings { height: FX_ONE, wave_height: FX_ONE, version: 0 }
    }
}

/// The grouping node the tiles hang under.
#[derive(Clone, Copy, PartialEq, Eq, Structural, Debug)]
pub struct WaterBundle {
    pub transform: FxVec3,
}

impl Default for WaterBundle {
    fn default() -> (r: WaterBundle)
        ensures
            r.transform == (FxVec3 { x: 0, y: 0, z: 0 }),
    {
        WaterBundle { transform: FxVec3 { x: 0, y: 0, z: 0 } }
    }
}

/// One tile of the water grid: its mesh and material handles and its
/// world transform.
#[derive(Clone, Copy, PartialEq, Eq, Structural, Debug)]
pub struct WaterTileBundle {
    pub mesh: u64,
    pub material: u64,
    pub transform: FxVec3,
}

impl WaterTileBundle {
    /// A tile at planar offset `offset`, lifted to the water height.
    pub fn new(mesh: u64, material: u64, height: i64, offset: FxVec2) -> (r: WaterTileBundle)
        ensures
            r.mesh == mesh,
            r.material == material,
            r.transform == (FxVec3 { x: offset.x, y: height, z: offset.y }),
    {
        WaterTileBundle { mesh, material, transform: FxVec3 { x: offset.x, y: height, z: offset.y } }
    }
}

/// Number of tiles in the water grid.
pub const WATER_TILE_COUNT: usize = 36;

/// World x (or z) of the tile in grid column (or row) `g`: the grid is
/// centered on the origin.
pub open spec fn spec_tile_offset(g: int) -> int {
    (g * (WATER_SIZE as int) - (WATER_SIZE as int) * (WATER_GRID_SIZE as int) / 2) * (FX_ONE as int)
}

/// The tile the grid setup produces at flat index `i`.
pub open spec fn spec_tile(
    settings: WaterSettings,
    mesh: u64,
    first_material: u64,
    i: int,
) -> WaterTileBundle {
    WaterTileBundle {
        mesh,
        material: (first_material + i) as u64,
        transform: FxVec3 {
            x: spec_tile_offset(i / (WATER_GRID_SIZE as int)) as i64,
            y: settings.height,
            z: spec_tile_offset(i % (WATER_GRID_SIZE as int)) as i64,
        },
    }
}

/// The material every tile starts with: the settings' amplitude at the
/// default coordinate scale.
pub open spec fn spec_initial_material(settings: WaterSettings) -> WaterMaterial {
    WaterMaterial {
        amplitude: settings.wave_height,
        coord_scale: FxVec2 { x: FX_ONE, y: FX_ONE },
    }
}

/// Lays out the water tile grid: one tile per grid cell, centered on
/// the origin at the settings' height, each with its own material
/// instance carrying the settings' amplitude.
pub fn setup_water(settings: &WaterSettings, mesh: u64, first_material: u64) -> (r: (
    Vec<WaterTileBundle>,
    Vec<WaterMaterial>,
))
    requires
        settings.well_formed(),
        first_material <= u64::MAX - WATER_TILE_COUNT as u64,
    ensures
        r.0@.len() == WATER_TILE_COUNT,
        r.1@.len() == WATER_TILE_COUNT,
        forall|i: int|
            0 <= i < WATER_TILE_COUNT ==> r.0@[i] == spec_tile(*settings, mesh, first_material, i),
        forall|i: int|
            0 <= i < WATER_TILE_COUNT ==> r.1@[i] == spec_initial_material(*settings),
{
    let mut tiles: Vec<WaterTileBundle> = Vec::new();
    let mut materials: Vec<WaterMaterial> = Vec::new();
    let half_extent = WATER_SIZE as i64 * WATER_GRID_SIZE as i64 / 2;
    for i in 0..WATER_TILE_COUNT
        invariant
            settings.well_formed(),
            first_material <= u64::MAX - WATER_TILE_COUNT as u64,
            half_extent == (WATER_SIZE as int) * (WATER_GRID_SIZE as int) / 2,
            tiles@.len() == i,
            materials@.len() == i,
            forall|j: int|
                0 <= j < i ==> tiles@[j] == spec_tile(*settings, mesh, first_material, j),
            forall|j: int| 0 <= j < i ==> materials@[j] == spec_initial_material(*settings),
    {
        let gx = (i / WATER_GRID_SIZE as usize) as i64;
        let gz = (i % WATER_GRID_SIZE as usize) as i64;
        let offset = FxVec2 {
            x: (gx * WATER_SIZE as i64 - half_extent) * FX_ONE,
            y: (gz * WATER_SIZE as i64 - half_extent) * FX_ONE,
        };
        let material_handle = first_material + i as u64;
        tiles.push(WaterTileBundle::new(mesh, material_handle, settings.height, offset));
        materials.push(
            WaterMaterial {
                amplitude: settings.wave_height,
                coord_scale: FxVec2 { x: FX_ONE, y: FX_ONE },
            },
        );
    }
    (tiles, materials)
}

/// Writes the settings' amplitude into every live material instance,
/// leaving each instance's coordinate scale alone.
pub fn update_materials(settings: &WaterSettings, materials: &mut Vec<WaterMaterial>)
    ensures
        final(materials)@.len() == old(materials)@.len(),
        forall|i: int|
            0 <= i < old(materials)@.len() ==> #[trigger] final(materials)@[i] == (WaterMaterial {
                amplitude: settings.wave_height,
                coord_scale: old(materials)@[i].coord_scale,
            }),
{
    let n = materials.len();
    for i in 0..n
        invariant
            n == materials@.len() == old(materials)@.len(),
            forall|j: int|
                0 <= j < i ==> #[trigger] materials@[j] == (WaterMaterial {
                    amplitude: settings.wave_height,
                    coord_scale: old(materials)@[j].coord_scale,
                }),
            forall|j: int| i <= j < n ==> materials@[j] == old(materials)@[j],
    {
        let cs = materials[i].coord_scale;
        materials.set(i, WaterMaterial { amplitude: settings.wave_height, coord_scale: cs });
    }
}

/// Everything the water surface owns at run time: the shared settings,
/// the tile grid, the live material instances, and the settings
/// version those instances were last synchronized with.
#[derive(Clone, PartialEq, Eq, Debug)]
pub struct WaterWorld {
    pub settings: WaterSettings,
    pub tiles: Vec<WaterTileBundle>,
    pub materials: Vec<WaterMaterial>,
    pub seen_version: u64,
}

impl WaterWorld {
    /// Every material instance carries the settings' amplitude.
    pub open spec fn synced(self) -> bool {
        forall|i: int|
            0 <= i < self.materials@.len() ==> #[trigger] self.materials@[i].amplitude
                == self.settings.wave_height
    }

    /// The version marker never runs ahead, and when it is current the
    /// materials really are in sync.
    pub open spec fn consistent(self) -> bool {
        &&& self.seen_version <= self.settings.version
        &&& self.seen_version == self.settings.version ==> self.synced()
    }

    /// Changes the wave amplitude; the materials pick it up at the
    /// next frame boundary.
    pub fn set_wave_height(&mut self, wave_height: i64)
        requires
            old(self).consistent(),
            old(self).settings.version < u64::MAX,
            0 <= wave_height <= AMPLITUDE_MAX,
        ensures
            final(self).settings.wave_height == wave_height,
            final(self).settings.height == old(self).settings.height,
            final(self).settings.version == old(self).settings.version + 1,
            final(self).settings.well_formed(),
            final(self).tiles@ == old(self).tiles@,
            final(self).materials@ == old(self).materials@,
            final(self).seen_version == old(self).seen_version,
            final(self).consistent(),
    {
        self.settings.set_wave_height(wave_height);
    }

    /// Applied once per frame boundary, before any pass runs: if the
    /// settings changed since the last frame, propagates them to every
    /// material instance; otherwise touches nothing.  Afterwards the
    /// materials always match the settings.
    pub fn frame_update(&mut self)
        requires
            old(self).consistent(),
        ensures
            final(self).settings == old(self).settings,
            final(self).tiles@ == old(self).tiles@,
            final(self).seen_version == old(self).settings.version,
            final(self).materials@.len() == old(self).materials@.len(),
            forall|i: int|
                0 <= i < old(self).materials@.len() ==> #[trigger] final(self).materials@[i].coord_scale
                    == old(self).materials@[i].coord_scale,
            final(self).synced(),
            final(self).consistent(),
            old(self).seen_version == old(self).settings.version ==> final(self).materials@ == old(
                self,
            ).materials@,
    {
        if self.settings.version != self.seen_version {
            update_materials(&self.settings, &mut self.materials);
            self.seen_version = self.settings.version;
        }
    }
}

/// Explicit construction of the water surface: the grid, the material
/// instances, and the settings subscription, all in one object.
#[derive(Clone, Copy, PartialEq, Eq, Structural, Debug, Default)]
pub struct WaterPlugin;

impl WaterPlugin {
    /// Builds the water world from its settings and the handles the
    /// host's asset store allocated for the mesh and the materials.
    pub fn build(&self, settings: WaterSettings, mesh: u64, first_material: u64) -> (w: WaterWorld)
        requires
            settings.well_formed(),
            first_material <= u64::MAX - WATER_TILE_COUNT as u64,
        ensures
            w.settings == settings,
            w.seen_version == settings.version,
            w.tiles@.len() == WATER_TILE_COUNT,
            w.materials@.len() == WATER_TILE_COUNT,
            forall|i: int|
                0 <= i < WATER_TILE_COUNT ==> w.tiles@[i] == spec_tile(
                    settings,
                    mesh,
                    first_material,
                    i,
                ),
            forall|i: int|
                0 <= i < WATER_TILE_COUNT ==> w.materials@[i] == spec_initial_material(settings),
            w.synced(),
            w.consistent(),
    {
        let (tiles, materials) = setup_water(&settings, mesh, first_material);
        WaterWorld { settings, tiles, materials, seen_version: settings.version }
    }
}

} // verus!
