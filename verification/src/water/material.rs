//! The analytic wave field and the water material that carries its
//! parameters.
//!
//! The wave field is a pure function of (world x, world z, time) and
//! the material's parameters: a sum of two sinusoidal contributions,
//! one along each axis, with the surface normal derived from the
//! analytic slope of the height function rather than finite
//! differences.  Evaluating it twice with the same inputs gives the
//! same answer bit for bit, so the geometry path and the shading path
//! can never disagree.
//!
//! The waveform is the standard parabolic sine approximation: exact in
//! fixed point, period `FX_ONE`, range `[-FX_ONE, FX_ONE]`, and with a
//! piecewise-linear slope that is continuous across the half-period
//! seams.

use vstd::prelude::*;
use vstd::arithmetic::div_mod::{lemma_div_is_ordered, lemma_div_pos_is_pos};
use crate::compose::{LogicalResource, MaterialContract, ResourceKind, ShaderStageRef};
use crate::fixed::{
    fx_clamp, fx_div, fx_fract, fx_mul, isqrt, lemma_isqrt_unique, lemma_mul_abs_bound,
    lemma_tdiv_mono_abs, lemma_tdiv_multiple, spec_abs, spec_fx_div, spec_fx_fract, spec_fx_mul,
    tdiv, FX_COORD_MAX, FX_HALF, FX_ONE,
};
use crate::vector::{FxVec2, FxVec3};

verus! {

/// Largest admissible wave amplitude (64 world units).
pub const AMPLITUDE_MAX: i64 = 0x40_0000;

/// Largest admissible coordinate scale (16 wave cycles per world unit).
pub const COORD_SCALE_MAX: i64 = 0x10_0000;

/// Largest admissible time input magnitude.
pub const TIME_MAX: i64 = 0x100_0000_0000;

/// Logical name of the water parameter uniform block.
pub const RES_WATER: u64 = 1;

/// Parameters of the wave field, owned by one material instance.
#[derive(Clone, Copy, PartialEq, Eq, Structural, Debug)]
pub struct WaterMaterial {
    /// Peak wave displacement; zero means a flat surface.
    pub amplitude: i64,
    /// Wave cycles per world unit along x and z; positive.
    pub coord_scale: FxVec2,
}

/// The water parameter block as uniform buffers carry it.
#[derive(Clone, Copy, PartialEq, Eq, Structural, Debug)]
pub struct WaterMaterialUniform {
    pub amplitude: i64,
    pub coord_scale: FxVec2,
}

impl WaterMaterial {
    /// Parameter ranges under which every wave evaluation is exact.
    pub open spec fn well_formed(self) -> bool {
        &&& 0 <= self.amplitude <= AMPLITUDE_MAX
        &&& 0 < self.coord_scale.x <= COORD_SCALE_MAX
        &&& 0 < self.coord_scale.y <= COORD_SCALE_MAX
    }

    /// The shading contract of the water surface itself: one uniform
    /// block, and the water's own vertex and fragment stages.
    pub fn contract(&self) -> (c: MaterialContract)
        ensures
            c.resources@ == seq![
                LogicalResource { kind: ResourceKind::Uniform, name: RES_WATER },
            ],
            c.vertex == ShaderStageRef::Water,
            c.fragment == ShaderStageRef::Water,
    {
        let mut resources: Vec<LogicalResource> = Vec::new();
        resources.push(LogicalResource { kind: ResourceKind::Uniform, name: RES_WATER });
        proof {
            assert(resources@ =~= seq![
                LogicalResource { kind: ResourceKind::Uniform, name: RES_WATER },
            ]);
        }
        MaterialContract {
            resources,
            vertex: ShaderStageRef::Water,
            fragment: ShaderStageRef::Water,
        }
    }

    /// The uniform block handed to the binding layer.
    pub fn to_uniform(&self) -> (u: WaterMaterialUniform)
        ensures
            u.amplitude == self.amplitude,
            u.coord_scale == self.coord_scale,
    {
        WaterMaterialUniform { amplitude: self.amplitude, coord_scale: self.coord_scale }
    }
}

impl Default for WaterMaterial {
    /// Unit amplitude, one wave cycle per world unit.
    fn default() -> (r: WaterMaterial)
        ensures
            r.amplitude == FX_ONE,
            r.coord_scale == (FxVec2 { x: FX_ONE, y: FX_ONE }),
            r.well_formed(),
    {
        WaterMaterial { amplitude: FX_ONE, coord_scale: FxVec2 { x: FX_ONE, y: FX_ONE } }
    }
}

/// Phase of the waveform at coordinate `p` under scale `cs` at time
/// `t`, reduced to one period.
pub open spec fn wave_phase(p: int, cs: int, t: int) -> int {
    spec_fx_fract(spec_fx_mul(p, cs) + t)
}

/// Value of the periodic waveform at a phase in `[0, FX_ONE)`: a
/// parabola rising over the first half period, its mirror image
/// falling below zero over the second.
pub open spec fn wave_profile(ph: int) -> int {
    if ph < FX_HALF {
        tdiv(16 * ph * (FX_HALF - ph), FX_ONE as int)
    } else {
        -tdiv(16 * (ph - FX_HALF) * ((FX_ONE as int) - ph), FX_ONE as int)
    }
}

/// Analytic slope of `wave_profile` with respect to its phase, as a
/// fixed-point factor; piecewise linear and continuous at the seams.
pub open spec fn wave_profile_slope(ph: int) -> int {
    if ph < FX_HALF {
        16 * (FX_HALF - 2 * ph)
    } else {
        -16 * ((FX_ONE as int) + FX_HALF - 2 * ph)
    }
}

/// Wave height at a world position and time: the amplitude times the
/// average of the two per-axis waveform values.
pub open spec fn spec_wave_height(m: WaterMaterial, x: int, z: int, t: int) -> int {
    spec_fx_mul(
        m.amplitude as int,
        tdiv(
            wave_profile(wave_phase(x, m.coord_scale.x as int, t)) + wave_profile(
                wave_phase(z, m.coord_scale.y as int, t),
            ),
            2,
        ),
    )
}

/// Analytic d(height)/dx: amplitude times half the profile slope,
/// times the coordinate scale (chain rule through the phase).
pub open spec fn spec_wave_slope_x(m: WaterMaterial, x: int, t: int) -> int {
    spec_fx_mul(
        spec_fx_mul(
            m.amplitude as int,
            tdiv(wave_profile_slope(wave_phase(x, m.coord_scale.x as int, t)), 2),
        ),
        m.coord_scale.x as int,
    )
}

/// Analytic d(height)/dz.
pub open spec fn spec_wave_slope_z(m: WaterMaterial, z: int, t: int) -> int {
    spec_fx_mul(
        spec_fx_mul(
            m.amplitude as int,
            tdiv(wave_profile_slope(wave_phase(z, m.coord_scale.y as int, t)), 2),
        ),
        m.coord_scale.y as int,
    )
}

/// The waveform is smooth: over one period its value changes by at
/// most 8 fixed-point units per unit of phase, plus two units of
/// truncation slack, and it vanishes at both ends of the period —
/// within `8 * p1` of zero at the start and `8 * (FX_ONE - p2)` of
/// zero at the end — so the bound also holds across the wrap from one
/// period into the next.  This is the continuity the caustics image
/// inherits: the per-texel intensity is an exact function of heights
/// and slopes built from this waveform.
pub proof fn lemma_wave_profile_continuous(p1: int, p2: int)
    requires
        0 <= p1 <= p2 < FX_ONE,
    ensures
        spec_abs(wave_profile(p2) - wave_profile(p1)) <= 8 * (p2 - p1) + 2,
        spec_abs(wave_profile(p1)) <= 8 * p1 + 1,
        spec_abs(wave_profile(p2)) <= 8 * ((FX_ONE as int) - p2) + 1,
{
    let h = FX_HALF as int;
    let one = FX_ONE as int;
    lemma_wave_numerator_bounds(p1);
    lemma_wave_numerator_bounds(p2);
    let f1 = if p1 < h {
        16 * p1 * (h - p1)
    } else {
        16 * (p1 - h) * (one - p1)
    };
    let f2 = if p2 < h {
        16 * p2 * (h - p2)
    } else {
        16 * (p2 - h) * (one - p2)
    };
    lemma_one_div_scale(8 * p1);
    lemma_one_div_scale(8 * (p2 - p1));
    lemma_one_div_scale(8 * (one - p2));
    lemma_div_is_ordered(f1, 8 * one * p1, one);
    lemma_div_pos_is_pos(f1, one);
    lemma_div_pos_is_pos(f2, one);
    if p1 < h {
        lemma_one_div_scale(8 * (h - p1));
        lemma_div_is_ordered(f1, 8 * one * (h - p1), one);
    }
    if p2 >= h {
        lemma_one_div_scale(8 * (p2 - h));
        lemma_div_is_ordered(f2, 8 * one * (p2 - h), one);
    }
    lemma_div_is_ordered(f2, 8 * one * (one - p2), one);
    if p2 < h {
        assert(-(8 * one * (p2 - p1)) <= f2 - f1 <= 8 * one * (p2 - p1)) by (nonlinear_arith)
            requires
                0 <= p1 <= p2 < h,
                one == 2 * h,
                f1 == 16 * p1 * (h - p1),
                f2 == 16 * p2 * (h - p2),
        ;
        if f1 <= f2 {
            lemma_floor_diff_one(f2, f1, 8 * one * (p2 - p1));
        } else {
            lemma_floor_diff_one(f1, f2, 8 * one * (p2 - p1));
        }
    } else if p1 >= h {
        assert(-(8 * one * (p2 - p1)) <= f2 - f1 <= 8 * one * (p2 - p1)) by (nonlinear_arith)
            requires
                h <= p1 <= p2 < one,
                one == 2 * h,
                f1 == 16 * (p1 - h) * (one - p1),
                f2 == 16 * (p2 - h) * (one - p2),
        ;
        if f1 <= f2 {
            lemma_floor_diff_one(f2, f1, 8 * one * (p2 - p1));
        } else {
            lemma_floor_diff_one(f1, f2, 8 * one * (p2 - p1));
        }
    }
}

/// Scaling by one whole unit and dividing by it again is the
/// identity.
proof fn lemma_one_div_scale(k: int)
    requires
        0 <= k,
    ensures
        (k * (FX_ONE as int)) / (FX_ONE as int) == k,
        ((FX_ONE as int) * k) / (FX_ONE as int) == k,
{
    vstd::arithmetic::div_mod::lemma_div_by_multiple(k, FX_ONE as int);
    assert(k * (FX_ONE as int) == (FX_ONE as int) * k);
}

/// Dividing two nearby nonnegative values by one whole unit gives
/// quotients within the scaled distance, plus one for truncation.
proof fn lemma_floor_diff_one(a: int, b: int, m: int)
    requires
        0 <= b <= a,
        a - b <= m,
    ensures
        0 <= a / (FX_ONE as int) - b / (FX_ONE as int) <= m / (FX_ONE as int) + 1,
{
    let one = FX_ONE as int;
    vstd::arithmetic::div_mod::lemma_fundamental_div_mod(a, one);
    vstd::arithmetic::div_mod::lemma_fundamental_div_mod(b, one);
    vstd::arithmetic::div_mod::lemma_fundamental_div_mod(m, one);
    vstd::arithmetic::div_mod::lemma_mod_division_less_than_divisor(a, one);
    vstd::arithmetic::div_mod::lemma_mod_division_less_than_divisor(b, one);
    vstd::arithmetic::div_mod::lemma_mod_division_less_than_divisor(m, one);
    lemma_div_is_ordered(b, a, one);
    lemma_div_pos_is_pos(m, one);
}

/// The waveform's numerator at phase `p` is nonnegative and shrinks
/// linearly toward both ends of its half period.
proof fn lemma_wave_numerator_bounds(p: int)
    requires
        0 <= p < FX_ONE,
    ensures
        p < FX_HALF ==> 0 <= 16 * p * ((FX_HALF as int) - p) <= 8 * (FX_ONE as int) * p,
        p < FX_HALF ==> 16 * p * ((FX_HALF as int) - p) <= 8 * (FX_ONE as int) * ((FX_HALF as int)
            - p),
        p >= FX_HALF ==> 0 <= 16 * (p - FX_HALF) * ((FX_ONE as int) - p) <= 8 * (FX_ONE as int) * (
        p - FX_HALF),
        p >= FX_HALF ==> 16 * (p - FX_HALF) * ((FX_ONE as int) - p) <= 8 * (FX_ONE as int) * ((
        FX_ONE as int) - p),
{
    let h = FX_HALF as int;
    let one = FX_ONE as int;
    if p < h {
        assert(0 <= 16 * p * (h - p) <= 8 * one * p && 16 * p * (h - p) <= 8 * one * (h - p))
            by (nonlinear_arith)
            requires
                0 <= p < h,
                one == 2 * h,
        ;
    } else {
        assert(0 <= 16 * (p - h) * (one - p) <= 8 * one * (p - h) && 16 * (p - h) * (one - p) <= 8
            * one * (one - p)) by (nonlinear_arith)
            requires
                h <= p < one,
                one == 2 * h,
        ;
    }
}

/// The integer square root, defined by counting up.
pub open spec fn spec_isqrt(n: int) -> int
    decreases n,
{
    if n < 1 {
        0
    } else {
        let r = spec_isqrt(n - 1);
        if (r + 1) * (r + 1) <= n {
            r + 1
        } else {
            r
        }
    }
}

/// `spec_isqrt(n)` brackets `n` between consecutive squares.
pub proof fn lemma_spec_isqrt_bracket(n: int)
    requires
        0 <= n,
    ensures
        0 <= spec_isqrt(n),
        spec_isqrt(n) * spec_isqrt(n) <= n,
        (spec_isqrt(n) + 1) * (spec_isqrt(n) + 1) > n,
    decreases n,
{
    if n >= 1 {
        lemma_spec_isqrt_bracket(n - 1);
        let r = spec_isqrt(n - 1);
        if (r + 1) * (r + 1) <= n {
            assert((r + 2) * (r + 2) > n) by (nonlinear_arith)
                requires
                    0 <= r,
                    (r + 1) * (r + 1) > n - 1,
            ;
        }
    }
}

/// Unit surface normal: the vector `(-dh/dx, 1, -dh/dz)` divided by
/// its own length.
pub open spec fn spec_wave_normal(m: WaterMaterial, x: int, z: int, t: int) -> FxVec3 {
    let sx = spec_wave_slope_x(m, x, t);
    let sz = spec_wave_slope_z(m, z, t);
    let len = spec_isqrt(sx * sx + (FX_ONE as int) * (FX_ONE as int) + sz * sz);
    FxVec3 {
        x: spec_fx_div(-sx, len) as i64,
        y: spec_fx_div(FX_ONE as int, len) as i64,
        z: spec_fx_div(-sz, len) as i64,
    }
}

fn phase_at(p: i64, cs: i64, t: i64) -> (ph: i64)
    requires
        -FX_COORD_MAX <= p <= FX_COORD_MAX,
        0 < cs <= COORD_SCALE_MAX,
        -TIME_MAX <= t <= TIME_MAX,
    ensures
        ph == wave_phase(p as int, cs as int, t as int),
        0 <= ph < FX_ONE,
{
    proof {
        lemma_mul_abs_bound(p as int, cs as int, FX_COORD_MAX as int, COORD_SCALE_MAX as int);
        lemma_tdiv_mono_abs(
            p as int * cs as int,
            FX_ONE as int,
            FX_COORD_MAX as int * COORD_SCALE_MAX as int,
        );
    }
    let scaled = fx_mul(p, cs);
    fx_fract(scaled + t)
}

fn wave_profile_at(ph: i64) -> (w: i64)
    requires
        0 <= ph < FX_ONE,
    ensures
        w == wave_profile(ph as int),
        -FX_ONE <= w <= FX_ONE,
{
    if ph < FX_HALF {
        proof {
            assert(0 <= 16 * ph * (FX_HALF - ph) <= 0x1_0000_0000) by (nonlinear_arith)
                requires
                    0 <= ph < FX_HALF == 32768,
            ;
        }
        let num = 16 * ph * (FX_HALF - ph);
        num / FX_ONE
    } else {
        proof {
            assert(0 <= 16 * (ph - FX_HALF) * (FX_ONE - ph) <= 0x1_0000_0000) by (nonlinear_arith)
                requires
                    FX_HALF == 32768 <= ph < FX_ONE == 65536,
            ;
        }
        let num = 16 * (ph - FX_HALF) * (FX_ONE - ph);
        -(num / FX_ONE)
    }
}

fn wave_profile_slope_at(ph: i64) -> (s: i64)
    requires
        0 <= ph < FX_ONE,
    ensures
        s == wave_profile_slope(ph as int),
        -0x8_0000 <= s <= 0x8_0000,
{
    if ph < FX_HALF {
        16 * (FX_HALF - 2 * ph)
    } else {
        -(16 * (FX_ONE + FX_HALF - 2 * ph))
    }
}

fn wave_slope_axis(amplitude: i64, cs: i64, ph: i64) -> (s: i64)
    requires
        0 <= amplitude <= AMPLITUDE_MAX,
        0 < cs <= COORD_SCALE_MAX,
        0 <= ph < FX_ONE,
    ensures
        s == spec_fx_mul(
            spec_fx_mul(amplitude as int, tdiv(wave_profile_slope(ph as int), 2)),
            cs as int,
        ),
        -0x1000_0000 <= s <= 0x1000_0000,
{
    let sl = wave_profile_slope_at(ph);
    let half = sl / 2;
    proof {
        lemma_mul_abs_bound(amplitude as int, half as int, AMPLITUDE_MAX as int, 0x4_0000);
        lemma_tdiv_mono_abs(
            amplitude as int * half as int,
            FX_ONE as int,
            AMPLITUDE_MAX as int * 0x4_0000,
        );
    }
    let a = fx_mul(amplitude, half);
    proof {
        lemma_mul_abs_bound(a as int, cs as int, 0x100_0000, COORD_SCALE_MAX as int);
        lemma_tdiv_mono_abs(a as int * cs as int, FX_ONE as int, 0x100_0000 * COORD_SCALE_MAX as int);
    }
    fx_mul(a, cs)
}

impl WaterMaterial {
    /// Wave height at a world position and time.  Pure: the same
    /// inputs give the same height on every path that evaluates it.
    pub fn height(&self, x: i64, z: i64, time: i64) -> (h: i64)
        requires
            self.well_formed(),
            -FX_COORD_MAX <= x <= FX_COORD_MAX,
            -FX_COORD_MAX <= z <= FX_COORD_MAX,
            -TIME_MAX <= time <= TIME_MAX,
        ensures
            h == spec_wave_height(*self, x as int, z as int, time as int),
            -self.amplitude <= h <= self.amplitude,
    {
        let phx = phase_at(x, self.coord_scale.x, time);
        let phz = phase_at(z, self.coord_scale.y, time);
        let wx = wave_profile_at(phx);
        let wz = wave_profile_at(phz);
        let avg = (wx + wz) / 2;
        proof {
            lemma_mul_abs_bound(self.amplitude as int, avg as int, AMPLITUDE_MAX as int, FX_ONE as int);
            lemma_mul_abs_bound(
                self.amplitude as int,
                avg as int,
                self.amplitude as int,
                FX_ONE as int,
            );
            lemma_tdiv_mono_abs(
                self.amplitude as int * avg as int,
                FX_ONE as int,
                self.amplitude as int * FX_ONE as int,
            );
            vstd::arithmetic::div_mod::lemma_div_by_multiple(self.amplitude as int, FX_ONE as int);
        }
        fx_mul(self.amplitude, avg)
    }

    /// Wave height and analytic unit surface normal at a world
    /// position and time.  A zero amplitude gives exactly height 0 and
    /// exactly the up vector, not an approximation of them.
    pub fn height_and_normal(&self, x: i64, z: i64, time: i64) -> (r: (i64, FxVec3))
        requires
            self.well_formed(),
            -FX_COORD_MAX <= x <= FX_COORD_MAX,
            -FX_COORD_MAX <= z <= FX_COORD_MAX,
            -TIME_MAX <= time <= TIME_MAX,
        ensures
            r.0 == spec_wave_height(*self, x as int, z as int, time as int),
            r.1 == spec_wave_normal(*self, x as int, z as int, time as int),
            -self.amplitude <= r.0 <= self.amplitude,
            -FX_ONE <= r.1.x <= FX_ONE,
            0 < r.1.y <= FX_ONE,
            -FX_ONE <= r.1.z <= FX_ONE,
            self.amplitude == 0 ==> r.0 == 0 && r.1 == (FxVec3 { x: 0, y: FX_ONE, z: 0 }),
    {
        let h = self.height(x, z, time);
        let phx = phase_at(x, self.coord_scale.x, time);
        let phz = phase_at(z, self.coord_scale.y, time);
        let sx = wave_slope_axis(self.amplitude, self.coord_scale.x, phx);
        let sz = wave_slope_axis(self.amplitude, self.coord_scale.y, phz);
        proof {
            lemma_mul_abs_bound(sx as int, sx as int, 0x1000_0000, 0x1000_0000);
            lemma_mul_abs_bound(sz as int, sz as int, 0x1000_0000, 0x1000_0000);
            assert(sx as int * sx as int >= 0) by (nonlinear_arith);
            assert(sz as int * sz as int >= 0) by (nonlinear_arith);
        }
        let s = sx * sx + FX_ONE * FX_ONE + sz * sz;
        let l = isqrt(s);
        proof {
            lemma_spec_isqrt_bracket(s as int);
            lemma_isqrt_unique(s as int, l as int, spec_isqrt(s as int));
            assert(l >= FX_ONE) by (nonlinear_arith)
                requires
                    (l + 1) * (l + 1) > s,
                    s >= 0x1_0000_0000,
                    l >= 0,
            ;
            assert(-l <= sx <= l && -l <= sz <= l) by (nonlinear_arith)
                requires
                    sx * sx <= s - 0x1_0000_0000,
                    sz * sz <= s - 0x1_0000_0000,
                    (l + 1) * (l + 1) > s,
                    l >= 0,
                    s >= 0x1_0000_0000,
            ;
            lemma_tdiv_mono_abs(-sx as int * FX_ONE as int, l as int, l as int * FX_ONE as int);
            lemma_tdiv_mono_abs(-sz as int * FX_ONE as int, l as int, l as int * FX_ONE as int);
            lemma_tdiv_mono_abs(
                FX_ONE as int * FX_ONE as int,
                l as int,
                l as int * FX_ONE as int,
            );
            vstd::arithmetic::div_mod::lemma_div_by_multiple(FX_ONE as int, l as int);
            assert(l < 0x1_0000_0000) by (nonlinear_arith)
                requires
                    l * l <= s,
                    0 <= s < 0x2000_0000_0000_0000,
                    l >= 0,
            ;
            vstd::arithmetic::div_mod::lemma_div_non_zero(FX_ONE as int * FX_ONE as int, l as int);
        }
        let nx = fx_div(-sx, l);
        let ny = fx_div(FX_ONE, l);
        let nz = fx_div(-sz, l);
        let n = FxVec3 { x: nx, y: ny, z: nz };
        proof {
            if self.amplitude == 0 {
                lemma_flat_water(*self, x as int, z as int, time as int);
            }
        }
        (h, n)
    }
}

/// A zero amplitude flattens the field exactly: for every position and
/// time the height is 0 and the normal is the up vector.
pub proof fn lemma_flat_water(m: WaterMaterial, x: int, z: int, t: int)
    requires
        m.well_formed(),
        m.amplitude == 0,
    ensures
        spec_wave_height(m, x, z, t) == 0,
        spec_wave_normal(m, x, z, t) == (FxVec3 { x: 0, y: FX_ONE, z: 0 }),
{
    let sx = spec_wave_slope_x(m, x, t);
    let sz = spec_wave_slope_z(m, z, t);
    crate::fixed::lemma_fx_mul_zero(tdiv(wave_profile_slope(wave_phase(x, m.coord_scale.x as int, t)), 2));
    crate::fixed::lemma_fx_mul_zero(tdiv(wave_profile_slope(wave_phase(z, m.coord_scale.y as int, t)), 2));
    crate::fixed::lemma_fx_mul_zero(m.coord_scale.x as int);
    crate::fixed::lemma_fx_mul_zero(m.coord_scale.y as int);
    crate::fixed::lemma_fx_mul_zero(
        tdiv(
            wave_profile(wave_phase(x, m.coord_scale.x as int, t)) + wave_profile(
                wave_phase(z, m.coord_scale.y as int, t),
            ),
            2,
        ),
    );
    assert(sx == 0);
    assert(sz == 0);
    let s = sx * sx + (FX_ONE as int) * (FX_ONE as int) + sz * sz;
    assert(65536int * 65536 == 0x1_0000_0000) by (nonlinear_arith);
    assert(65537int * 65537 > 0x1_0000_0000) by (nonlinear_arith);
    lemma_spec_isqrt_bracket(s);
    lemma_isqrt_unique(s, spec_isqrt(s), FX_ONE as int);
    lemma_tdiv_multiple(FX_ONE as int, FX_ONE as int);
}

} // verus!
