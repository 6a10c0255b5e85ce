//! World-to-texture coordinate mapping.
//!
//! A [`WorldToUv`] transform locates a point of an axis-aligned square
//! footprint inside the unit texture square: the footprint's corners map
//! exactly onto the unit square's corners.  It is the factored form of
//! the affine matrix `translate(1/2) * scale(1/size)` and is applied to
//! homogeneous points *without* perspective division: the fourth
//! component passes through untouched and never influences x or z.  Any
//! top-down-projected texture (the caustics image, or the water surface
//! itself) is sampled through the same transform.

use vstd::prelude::*;
use crate::fixed::{fx_div, tdiv, FX_COORD_MAX, FX_ONE};
use crate::vector::{FxVec2, FxVec4};

verus! {

/// Mapped coordinate along one footprint axis:
/// `((x - center) + size/2) / size` in fixed point, written over the
/// doubled numerator so that half-extents need no rounding.
pub open spec fn spec_map_axis(center: int, size: int, x: int) -> int
    recommends
        size > 0,
{
    tdiv((2 * (x - center) + size) * (FX_ONE as int), 2 * size)
}

/// Affine world-to-texture transform for a square footprint.
#[derive(Clone, Copy, PartialEq, Eq, Structural, Debug)]
pub struct WorldToUv {
    /// World-space (x, z) of the footprint's center.
    pub center: FxVec2,
    /// World-space edge length of the footprint; positive.
    pub size: i64,
}

impl WorldToUv {
    /// Extent is positive and everything stays within coordinate range.
    pub open spec fn well_formed(self) -> bool {
        &&& 0 < self.size <= FX_COORD_MAX
        &&& -FX_COORD_MAX <= self.center.x <= FX_COORD_MAX
        &&& -FX_COORD_MAX <= self.center.y <= FX_COORD_MAX
    }

    /// Where `apply` sends a homogeneous point: x and z are remapped
    /// from the footprint onto `[0, FX_ONE]`, y and w pass through.
    pub open spec fn spec_apply(self, p: FxVec4) -> FxVec4 {
        FxVec4 {
            x: spec_map_axis(self.center.x as int, self.size as int, p.x as int) as i64,
            y: p.y,
            z: spec_map_axis(self.center.y as int, self.size as int, p.z as int) as i64,
            w: p.w,
        }
    }

    /// Builds the transform for the footprint of edge length
    /// `footprint_size` centered at `center_offset`.
    pub fn build(center_offset: FxVec2, footprint_size: i64) -> (r: WorldToUv)
        requires
            0 < footprint_size <= FX_COORD_MAX,
            -FX_COORD_MAX <= center_offset.x <= FX_COORD_MAX,
            -FX_COORD_MAX <= center_offset.y <= FX_COORD_MAX,
        ensures
            r.center == center_offset,
            r.size == footprint_size,
            r.well_formed(),
    {
        WorldToUv { center: center_offset, size: footprint_size }
    }

    /// Applies the transform to a homogeneous point.
    pub fn apply(&self, p: &FxVec4) -> (r: FxVec4)
        requires
            self.well_formed(),
            -FX_COORD_MAX <= p.x <= FX_COORD_MAX,
            -FX_COORD_MAX <= p.z <= FX_COORD_MAX,
        ensures
            r == self.spec_apply(*p),
    {
        let u = map_axis(self.center.x, self.size, p.x);
        let v = map_axis(self.center.y, self.size, p.z);
        FxVec4 { x: u, y: p.y, z: v, w: p.w }
    }
}

fn map_axis(center: i64, size: i64, x: i64) -> (r: i64)
    requires
        0 < size <= FX_COORD_MAX,
        -FX_COORD_MAX <= center <= FX_COORD_MAX,
        -FX_COORD_MAX <= x <= FX_COORD_MAX,
    ensures
        r == spec_map_axis(center as int, size as int, x as int),
{
    fx_div(2 * (x - center) + size, 2 * size)
}

/// The mapped x and z coordinates are independent of the homogeneous
/// component, which itself passes through unchanged: points differing
/// only in w map to outputs differing only in w.
pub proof fn lemma_homogeneous_agnostic(t: WorldToUv, p: FxVec4, w: i64)
    ensures
        t.spec_apply(FxVec4 { x: p.x, y: p.y, z: p.z, w }).x == t.spec_apply(p).x,
        t.spec_apply(FxVec4 { x: p.x, y: p.y, z: p.z, w }).z == t.spec_apply(p).z,
        t.spec_apply(FxVec4 { x: p.x, y: p.y, z: p.z, w }).w == w,
        t.spec_apply(p).w == p.w,
{
}

/// The four corners of the footprint map exactly onto the four corners
/// of the unit square, paired correctly, for every height y and every
/// homogeneous component w.  `lo` and `hi` are the corner coordinates
/// `center -/+ size/2` along each axis.
pub proof fn lemma_footprint_corners(
    t: WorldToUv,
    hs: i64,
    lo_x: i64,
    hi_x: i64,
    lo_z: i64,
    hi_z: i64,
    y: i64,
    w: i64,
)
    requires
        t.well_formed(),
        t.size == 2 * hs,
        lo_x == t.center.x - hs,
        hi_x == t.center.x + hs,
        lo_z == t.center.y - hs,
        hi_z == t.center.y + hs,
    ensures
        t.spec_apply(FxVec4 { x: lo_x, y, z: lo_z, w }) == (FxVec4 { x: 0, y, z: 0, w }),
        t.spec_apply(FxVec4 { x: hi_x, y, z: lo_z, w }) == (FxVec4 { x: FX_ONE, y, z: 0, w }),
        t.spec_apply(FxVec4 { x: lo_x, y, z: hi_z, w }) == (FxVec4 { x: 0, y, z: FX_ONE, w }),
        t.spec_apply(FxVec4 { x: hi_x, y, z: hi_z, w }) == (FxVec4 { x: FX_ONE, y, z: FX_ONE, w }),
{
    lemma_corner_axis(t.center.x as int, t.size as int, hs as int);
    lemma_corner_axis(t.center.y as int, t.size as int, hs as int);
}

/// One axis of the corner computation: the low corner lands on 0, the
/// high corner on `FX_ONE`, exactly.
proof fn lemma_corner_axis(center: int, size: int, hs: int)
    requires
        0 < size,
        size == 2 * hs,
    ensures
        spec_map_axis(center, size, center - hs) == 0,
        spec_map_axis(center, size, center + hs) == FX_ONE,
{
    assert(2 * ((center - hs) - center) + size == 0);
    vstd::arithmetic::div_mod::lemma_div_of0(2 * size);
    assert(2 * ((center + hs) - center) + size == 2 * size);
    assert((2 * size) * (FX_ONE as int) == (FX_ONE as int) * (2 * size)) by (nonlinear_arith);
    crate::fixed::lemma_tdiv_multiple(FX_ONE as int, 2 * size);
}

} // verus!
