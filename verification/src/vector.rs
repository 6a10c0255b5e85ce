//! Small fixed-point vector and color types.
//!
//! These stand in for the engine-side `Vec2` / `Vec3` / `Vec4` / color
//! values: each component is a 16.16 fixed-point `i64`.

use vstd::prelude::*;
use crate::fixed::{fx_mul, spec_fx_mul};

verus! {

/// Planar (x, z) pair: offsets, coordinate scales.
#[derive(Clone, Copy, PartialEq, Eq, Structural, Debug)]
pub struct FxVec2 {
    pub x: i64,
    pub y: i64,
}

/// Spatial vector.
#[derive(Clone, Copy, PartialEq, Eq, Structural, Debug)]
pub struct FxVec3 {
    pub x: i64,
    pub y: i64,
    pub z: i64,
}

/// Homogeneous vector: positions, planes, light directions.
#[derive(Clone, Copy, PartialEq, Eq, Structural, Debug)]
pub struct FxVec4 {
    pub x: i64,
    pub y: i64,
    pub z: i64,
    pub w: i64,
}

/// Linear-space color with fixed-point channels in `[0, FX_ONE]`.
#[derive(Clone, Copy, PartialEq, Eq, Structural, Debug)]
pub struct FxColor {
    pub r: i64,
    pub g: i64,
    pub b: i64,
    pub a: i64,
}

impl FxColor {
    /// The color repacked as a plain vector, the layout uniform buffers use.
    pub open spec fn spec_to_vec4(self) -> FxVec4 {
        FxVec4 { x: self.r, y: self.g, z: self.b, w: self.a }
    }

    pub fn to_vec4(&self) -> (r: FxVec4)
        ensures
            r == self.spec_to_vec4(),
    {
        FxVec4 { x: self.r, y: self.g, z: self.b, w: self.a }
    }
}

/// Fixed-point dot product of the spatial parts of two vectors.
pub open spec fn spec_dot3(a: FxVec3, b: FxVec3) -> int {
    spec_fx_mul(a.x as int, b.x as int) + spec_fx_mul(a.y as int, b.y as int) + spec_fx_mul(
        a.z as int,
        b.z as int,
    )
}

/// Every component's magnitude is at most `m`.
pub open spec fn vec3_bounded(a: FxVec3, m: int) -> bool {
    &&& -m <= a.x <= m
    &&& -m <= a.y <= m
    &&& -m <= a.z <= m
}

/// Magnitude bound of a dot product from per-component bounds.
pub proof fn lemma_dot3_bound(a: FxVec3, b: FxVec3, aa: int, bb: int)
    requires
        vec3_bounded(a, aa),
        vec3_bounded(b, bb),
        0 <= aa,
        0 <= bb,
    ensures
        -3 * ((aa * bb) / (crate::fixed::FX_ONE as int)) <= spec_dot3(a, b) <= 3 * ((aa * bb) / (
        crate::fixed::FX_ONE as int)),
{
    crate::fixed::lemma_mul_abs_bound(a.x as int, b.x as int, aa, bb);
    crate::fixed::lemma_mul_abs_bound(a.y as int, b.y as int, aa, bb);
    crate::fixed::lemma_mul_abs_bound(a.z as int, b.z as int, aa, bb);
    crate::fixed::lemma_tdiv_mono_abs(a.x as int * b.x as int, crate::fixed::FX_ONE as int, aa * bb);
    crate::fixed::lemma_tdiv_mono_abs(a.y as int * b.y as int, crate::fixed::FX_ONE as int, aa * bb);
    crate::fixed::lemma_tdiv_mono_abs(a.z as int * b.z as int, crate::fixed::FX_ONE as int, aa * bb);
}

pub fn dot3(a: &FxVec3, b: &FxVec3) -> (r: i64)
    requires
        vec3_bounded(*a, 0x4000_0000),
        vec3_bounded(*b, 0x4000_0000),
    ensures
        r == spec_dot3(*a, *b),
        -0xC000_0000_0000 <= r <= 0xC000_0000_0000,
{
    proof {
        crate::fixed::lemma_mul_abs_bound(a.x as int, b.x as int, 0x4000_0000, 0x4000_0000);
        crate::fixed::lemma_mul_abs_bound(a.y as int, b.y as int, 0x4000_0000, 0x4000_0000);
        crate::fixed::lemma_mul_abs_bound(a.z as int, b.z as int, 0x4000_0000, 0x4000_0000);
        crate::fixed::lemma_tdiv_mono_abs(
            a.x as int * b.x as int,
            crate::fixed::FX_ONE as int,
            0x4000_0000_0000_0000,
        );
        crate::fixed::lemma_tdiv_mono_abs(
            a.y as int * b.y as int,
            crate::fixed::FX_ONE as int,
            0x4000_0000_0000_0000,
        );
        crate::fixed::lemma_tdiv_mono_abs(
            a.z as int * b.z as int,
            crate::fixed::FX_ONE as int,
            0x4000_0000_0000_0000,
        );
    }
    let px = fx_mul(a.x, b.x);
    let py = fx_mul(a.y, b.y);
    let pz = fx_mul(a.z, b.z);
    px + py + pz
}

} // verus!
