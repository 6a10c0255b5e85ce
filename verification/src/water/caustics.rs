//! The offscreen caustics pass.
//!
//! The water geometry is rendered a second time through a different
//! shading contract: a top-down projection that bends a light
//! direction by the wave-field normal, intersects the bent ray with a
//! reference plane, and writes an intensity estimate of where the
//! refracted light concentrates into [`CausticsTexture`].  The pass
//! borrows the water's parameters through the bind-only
//! [`WaterBindMaterial`] extension and disables back-face culling,
//! since the projection must be usable from either side of the
//! surface.

use vstd::prelude::*;
use crate::compose::{
    compose, compose_bindings, compose_err, effective_stage, ConfigError, ComposedMaterial, Face,
    LogicalResource, MaterialContract, RenderPipelineDescriptor, ResourceKind, ShaderStageRef,
    SlotBinding, RES_STANDARD,
};
use crate::fixed::{
    fx_clamp, fx_div, fx_mul, lemma_mul_abs_bound, lemma_tdiv_mono_abs, lemma_tdiv_multiple,
    spec_clamp, spec_fx_div, spec_fx_mul, tdiv, FX_COORD_MAX, FX_ONE,
};
use crate::mapper::WorldToUv;
use crate::vector::{dot3, lemma_dot3_bound, spec_dot3, vec3_bounded, FxVec3, FxVec4};
use crate::water::material::{
    lemma_flat_water, spec_wave_height, spec_wave_normal, WaterMaterial, RES_WATER, TIME_MAX,
};

verus! {

/// Logical name of the caustics-projection uniform block.
pub const RES_CAUSTICS: u64 = 2;

/// Intensity of undisturbed light: a flat surface writes exactly this.
pub const INTENSITY_BASE: i64 = 65536;

/// Largest representable intensity; the texture is high dynamic range,
/// so concentrated light may exceed one unit.
pub const INTENSITY_MAX: i64 = 131072;

/// Magnitude bound on light-direction components (64 units).
pub const LIGHT_MAX: i64 = 0x40_0000;

/// Magnitude bound on reference-plane normal components (16 units).
pub const PLANE_NORMAL_MAX: i64 = 0x10_0000;

/// Farthest a refracted ray is followed (1024 units).
pub const RAY_RANGE: i64 = 0x400_0000;

/// Magnitude at which the refraction displacement saturates (4 units).
pub const DISP_CLAMP: i64 = 0x4_0000;

/// Brightening per unit of squared normal tilt.
pub const FOCUS_GAIN: i64 = 262144;

/// Darkening per unit of squared refraction displacement.
pub const SPREAD_GAIN: i64 = 16384;

/// The water material repackaged as a bind-only extension: it binds
/// everything the water material binds, but draws nothing like it —
/// both stage references are inherited from whatever base it extends.
#[derive(Clone, Copy, PartialEq, Eq, Structural, Debug)]
pub struct WaterBindMaterial(pub WaterMaterial);

impl WaterBindMaterial {
    /// The bind-only contract: the inner water material's resource
    /// list, delegated unchanged, with no stage of its own.
    pub fn contract(&self) -> (c: MaterialContract)
        ensures
            c.resources@ == seq![
                LogicalResource { kind: ResourceKind::Uniform, name: RES_WATER },
            ],
            c.vertex == ShaderStageRef::Inherit,
            c.fragment == ShaderStageRef::Inherit,
            c.is_bind_only(),
    {
        let inner = self.0.contract();
        MaterialContract {
            resources: inner.resources,
            vertex: ShaderStageRef::Inherit,
            fragment: ShaderStageRef::Inherit,
        }
    }
}

impl Default for WaterBindMaterial {
    fn default() -> (r: WaterBindMaterial)
        ensures
            r.0 == (WaterMaterial {
                amplitude: FX_ONE,
                coord_scale: crate::vector::FxVec2 { x: FX_ONE, y: FX_ONE },
            }),
            r.0.well_formed(),
    {
        WaterBindMaterial(Default::default())
    }
}

/// The caustics-projection base material: the reference plane the bent
/// rays are intersected with and the incoming light direction (the
/// fourth light component is reserved and unused).
#[derive(Clone, Copy, PartialEq, Eq, Structural, Debug)]
pub struct CausticsMaterial {
    pub plane: FxVec4,
    pub light: FxVec4,
}

impl CausticsMaterial {
    /// Component bounds under which every intensity evaluation is
    /// exact, plus a usable plane normal.
    pub open spec fn well_formed(self) -> bool {
        &&& !(self.plane.x == 0 && self.plane.y == 0 && self.plane.z == 0)
        &&& -PLANE_NORMAL_MAX <= self.plane.x <= PLANE_NORMAL_MAX
        &&& -PLANE_NORMAL_MAX <= self.plane.y <= PLANE_NORMAL_MAX
        &&& -PLANE_NORMAL_MAX <= self.plane.z <= PLANE_NORMAL_MAX
        &&& -FX_COORD_MAX <= self.plane.w <= FX_COORD_MAX
        &&& -LIGHT_MAX <= self.light.x <= LIGHT_MAX
        &&& -LIGHT_MAX <= self.light.y <= LIGHT_MAX
        &&& -LIGHT_MAX <= self.light.z <= LIGHT_MAX
    }

    /// Validates the configuration: a zero plane normal can intersect
    /// no ray and is rejected here, at setup, never per frame.
    pub fn new(plane: FxVec4, light: FxVec4) -> (r: Result<CausticsMaterial, ConfigError>)
        requires
            -PLANE_NORMAL_MAX <= plane.x <= PLANE_NORMAL_MAX,
            -PLANE_NORMAL_MAX <= plane.y <= PLANE_NORMAL_MAX,
            -PLANE_NORMAL_MAX <= plane.z <= PLANE_NORMAL_MAX,
            -FX_COORD_MAX <= plane.w <= FX_COORD_MAX,
            -LIGHT_MAX <= light.x <= LIGHT_MAX,
            -LIGHT_MAX <= light.y <= LIGHT_MAX,
            -LIGHT_MAX <= light.z <= LIGHT_MAX,
        ensures
            match r {
                Err(e) => {
                    &&& e == ConfigError::DegeneratePlane
                    &&& plane.x == 0 && plane.y == 0 && plane.z == 0
                },
                Ok(c) => {
                    &&& !(plane.x == 0 && plane.y == 0 && plane.z == 0)
                    &&& c.plane == plane
                    &&& c.light == light
                    &&& c.well_formed()
                },
            },
    {
        if plane.x == 0 && plane.y == 0 && plane.z == 0 {
            Err(ConfigError::DegeneratePlane)
        } else {
            Ok(CausticsMaterial { plane, light })
        }
    }

    /// The projection's uniform block: plane, then light.
    pub fn to_uniform(&self) -> (u: CausticsMaterialUniform)
        ensures
            u.plane == self.plane,
            u.light == self.light,
    {
        CausticsMaterialUniform { plane: self.plane, light: self.light }
    }

    /// The projection's single shader source serves the vertex stage.
    pub fn vertex_shader(&self) -> (s: ShaderStageRef)
        ensures
            s == ShaderStageRef::Caustics,
    {
        ShaderStageRef::Caustics
    }

    /// ... and the fragment stage.
    pub fn fragment_shader(&self) -> (s: ShaderStageRef)
        ensures
            s == ShaderStageRef::Caustics,
    {
        ShaderStageRef::Caustics
    }

    /// Disables back-face culling for this pass only: the projection
    /// must be visible from above and below the wave surface, so a
    /// plain solid render would incorrectly cull one side.
    pub fn specialize(&self, descriptor: &mut RenderPipelineDescriptor)
        ensures
            final(descriptor).cull_mode is None,
            final(descriptor).depth_stencil == old(descriptor).depth_stencil,
    {
        descriptor.cull_mode = None;
    }

    /// The base shading contract of the projection.
    pub fn contract(&self) -> (c: MaterialContract)
        ensures
            c.resources@ == seq![
                LogicalResource { kind: ResourceKind::Uniform, name: RES_CAUSTICS },
            ],
            c.vertex == ShaderStageRef::Caustics,
            c.fragment == ShaderStageRef::Caustics,
    {
        let mut resources: Vec<LogicalResource> = Vec::new();
        resources.push(LogicalResource { kind: ResourceKind::Uniform, name: RES_CAUSTICS });
        proof {
            assert(resources@ =~= seq![
                LogicalResource { kind: ResourceKind::Uniform, name: RES_CAUSTICS },
            ]);
        }
        MaterialContract {
            resources,
            vertex: ShaderStageRef::Caustics,
            fragment: ShaderStageRef::Caustics,
        }
    }
}

/// The caustics uniform block as buffers carry it.
#[derive(Clone, Copy, PartialEq, Eq, Structural, Debug)]
pub struct CausticsMaterialUniform {
    pub plane: FxVec4,
    pub light: FxVec4,
}

/// The material the caustics pass draws the water geometry with: the
/// projection base extended by the water's bind-only layer.  The
/// composition always succeeds — the two layers' resources are
/// distinct by construction — and, the extension being bind-only, the
/// effective stages are exactly the projection's own: the borrowed
/// water resources change no pixel of the projection's output.
pub fn caustics_water_material(mat: &CausticsMaterial, water: &WaterBindMaterial) -> (r:
    ComposedMaterial)
    ensures
        r.vertex == ShaderStageRef::Caustics,
        r.fragment == ShaderStageRef::Caustics,
        r.bindings@.len() == 2,
        r.bindings@[0].resource == (LogicalResource {
            kind: ResourceKind::Uniform,
            name: RES_CAUSTICS,
        }),
        r.bindings@[0].slot == 0,
        r.bindings@[1].resource == (LogicalResource {
            kind: ResourceKind::Uniform,
            name: RES_WATER,
        }),
        r.bindings@[1].slot == 100,
{
    let base = mat.contract();
    let ext = water.contract();
    let ghost bm = base.resources@;
    let mut extensions: Vec<MaterialContract> = Vec::new();
    extensions.push(ext);
    let ghost em = crate::compose::resources_view(extensions@);
    proof {
        assert(em =~= seq![ext.resources@]);
        assert(crate::compose::ext_resources(em, 1) =~= Seq::<LogicalResource>::empty());
        assert(crate::compose::ext_resources(em, 0) =~= ext.resources@);
        assert(crate::compose::all_resources(bm, em) =~= bm + ext.resources@);
        assert(!crate::compose::has_duplicate(bm + ext.resources@)) by {
            let s = bm + ext.resources@;
            assert(s.len() == 2);
            assert(s[0] != s[1]);
        }
        assert(compose_err(bm, em) is None);
        assert(crate::compose::ext_bindings(em, 1) =~= Seq::<crate::compose::SlotBinding>::empty());
        assert(crate::compose::vertex_view(extensions@) =~= seq![ShaderStageRef::Inherit]);
        assert(crate::compose::fragment_view(extensions@) =~= seq![ShaderStageRef::Inherit]);
        assert(effective_stage(base.vertex, crate::compose::vertex_view(extensions@))
            == ShaderStageRef::Caustics) by {
            let sv = crate::compose::vertex_view(extensions@);
            assert(sv.len() == 1);
            assert(sv.last() == ShaderStageRef::Inherit);
            assert(sv.drop_last() =~= Seq::<ShaderStageRef>::empty());
            assert(effective_stage(base.vertex, sv.drop_last()) == base.vertex);
        }
        assert(effective_stage(base.fragment, crate::compose::fragment_view(extensions@))
            == ShaderStageRef::Caustics) by {
            let sf = crate::compose::fragment_view(extensions@);
            assert(sf.len() == 1);
            assert(sf.last() == ShaderStageRef::Inherit);
            assert(sf.drop_last() =~= Seq::<ShaderStageRef>::empty());
            assert(effective_stage(base.fragment, sf.drop_last()) == base.fragment);
        }
    }
    let composed = match compose(&base, &extensions) {
        Ok(c) => c,
        Err(_) => {
            proof {
                assert(false);
            }
            unreached()
        },
    };
    proof {
        assert(composed.bindings@ == compose_bindings(bm, em));
        assert(compose_bindings(bm, em)[0] == crate::compose::layer_bindings(bm, 0)[0]);
        assert(compose_bindings(bm, em)[1] == crate::compose::ext_bindings(em, 0)[0]);
        assert(crate::compose::ext_bindings(em, 0)[0] == crate::compose::layer_bindings(
            em[0],
            100,
        )[0]);
    }
    composed
}

/// A shader-library asset the caustics stages link against, keyed by
/// logical name and resolved by the asset loader outside this crate.
#[derive(Clone, Copy, PartialEq, Eq, Structural, Debug)]
pub enum ShaderLibrary {
    CausticsFunctions,
    CausticsBinding,
}

/// The shader libraries held live for the caustics stage programs.
#[derive(Clone, PartialEq, Eq, Debug)]
pub struct ShaderLibs(pub Vec<ShaderLibrary>);

/// Everything the caustics plugin registers: the three composed
/// material pipelines and the shader libraries they link against.
#[derive(Clone, PartialEq, Eq, Debug)]
pub struct CausticsPipelines {
    pub shader_libs: ShaderLibs,
    pub caustics_water: ComposedMaterial,
    pub caustics_parallax: ComposedMaterial,
    pub underwater: ComposedMaterial,
    /// The parallax pipeline skips the depth prepass.
    pub parallax_prepass_enabled: bool,
}

/// Explicit construction of the caustics machinery: composes the
/// material the caustics pass draws the water with, the parallax
/// variant, and the underwater compositing material, and pins the
/// shader libraries they share.
#[derive(Clone, Copy, PartialEq, Eq, Structural, Debug, Default)]
pub struct CausticsPlugin;

impl CausticsPlugin {
    pub fn build(
        &self,
        mat: &CausticsMaterial,
        water: &WaterBindMaterial,
        parallax: &crate::water::caustics_parallax::CausticsParallaxExtension,
        underwater: &crate::water::underwater::UnderwaterExtension,
    ) -> (p: CausticsPipelines)
        ensures
            p.shader_libs.0@ == seq![ShaderLibrary::CausticsFunctions, ShaderLibrary::CausticsBinding],
            p.caustics_water.vertex == ShaderStageRef::Caustics,
            p.caustics_water.fragment == ShaderStageRef::Caustics,
            p.caustics_water.bindings@ == seq![
                SlotBinding {
                    resource: LogicalResource { kind: ResourceKind::Uniform, name: RES_CAUSTICS },
                    slot: 0,
                },
                SlotBinding {
                    resource: LogicalResource { kind: ResourceKind::Uniform, name: RES_WATER },
                    slot: 100,
                },
            ],
            p.caustics_parallax.vertex == ShaderStageRef::CausticsVertex,
            p.caustics_parallax.fragment == ShaderStageRef::CausticsFragment,
            p.caustics_parallax.bindings@ == seq![
                SlotBinding {
                    resource: LogicalResource { kind: ResourceKind::Uniform, name: RES_STANDARD },
                    slot: 0,
                },
                SlotBinding {
                    resource: LogicalResource {
                        kind: ResourceKind::Uniform,
                        name: crate::water::caustics_parallax::RES_CAUSTICS_PARALLAX,
                    },
                    slot: 100,
                },
            ],
            p.underwater.vertex == ShaderStageRef::Inherit,
            p.underwater.fragment == ShaderStageRef::Underwater,
            p.underwater.bindings@ == seq![
                SlotBinding {
                    resource: LogicalResource { kind: ResourceKind::Uniform, name: RES_STANDARD },
                    slot: 0,
                },
                SlotBinding {
                    resource: LogicalResource { kind: ResourceKind::Uniform, name: RES_WATER },
                    slot: 100,
                },
                SlotBinding {
                    resource: LogicalResource {
                        kind: ResourceKind::Uniform,
                        name: crate::water::underwater::RES_UNDERWATER,
                    },
                    slot: 200,
                },
                SlotBinding {
                    resource: LogicalResource {
                        kind: ResourceKind::Texture,
                        name: crate::water::underwater::RES_CAUSTICS_TEXTURE,
                    },
                    slot: 201,
                },
                SlotBinding {
                    resource: LogicalResource {
                        kind: ResourceKind::Sampler,
                        name: crate::water::underwater::RES_CAUSTICS_SAMPLER,
                    },
                    slot: 202,
                },
            ],
            !p.parallax_prepass_enabled,
    {
        let mut libs: Vec<ShaderLibrary> = Vec::new();
        libs.push(ShaderLibrary::CausticsFunctions);
        libs.push(ShaderLibrary::CausticsBinding);
        proof {
            assert(libs@ =~= seq![
                ShaderLibrary::CausticsFunctions,
                ShaderLibrary::CausticsBinding,
            ]);
        }
        let caustics_water = caustics_water_material(mat, water);
        let caustics_parallax = crate::water::caustics_parallax::caustics_parallax_material(
            parallax,
        );
        let composed_underwater = crate::water::underwater::underwater_material(underwater);
        proof {
            assert(caustics_water.bindings@ =~= seq![
                SlotBinding {
                    resource: LogicalResource { kind: ResourceKind::Uniform, name: RES_CAUSTICS },
                    slot: 0,
                },
                SlotBinding {
                    resource: LogicalResource { kind: ResourceKind::Uniform, name: RES_WATER },
                    slot: 100,
                },
            ]);
            assert(caustics_parallax.bindings@ =~= seq![
                SlotBinding {
                    resource: LogicalResource { kind: ResourceKind::Uniform, name: RES_STANDARD },
                    slot: 0,
                },
                SlotBinding {
                    resource: LogicalResource {
                        kind: ResourceKind::Uniform,
                        name: crate::water::caustics_parallax::RES_CAUSTICS_PARALLAX,
                    },
                    slot: 100,
                },
            ]);
            assert(composed_underwater.bindings@ =~= seq![
                SlotBinding {
                    resource: LogicalResource { kind: ResourceKind::Uniform, name: RES_STANDARD },
                    slot: 0,
                },
                SlotBinding {
                    resource: LogicalResource { kind: ResourceKind::Uniform, name: RES_WATER },
                    slot: 100,
                },
                SlotBinding {
                    resource: LogicalResource {
                        kind: ResourceKind::Uniform,
                        name: crate::water::underwater::RES_UNDERWATER,
                    },
                    slot: 200,
                },
                SlotBinding {
                    resource: LogicalResource {
                        kind: ResourceKind::Texture,
                        name: crate::water::underwater::RES_CAUSTICS_TEXTURE,
                    },
                    slot: 201,
                },
                SlotBinding {
                    resource: LogicalResource {
                        kind: ResourceKind::Sampler,
                        name: crate::water::underwater::RES_CAUSTICS_SAMPLER,
                    },
                    slot: 202,
                },
            ]);
        }
        CausticsPipelines {
            shader_libs: ShaderLibs(libs),
            caustics_water,
            caustics_parallax,
            underwater: composed_underwater,
            parallax_prepass_enabled: false,
        }
    }
}

/// The ray the caustics projection follows from a surface point: the
/// downward light direction, deviated sideways by the surface tilt.
pub open spec fn spec_bent_ray(light: FxVec4, n: FxVec3) -> FxVec3 {
    FxVec3 { x: (n.x - light.x) as i64, y: (-light.y) as i64, z: (n.z - light.z) as i64 }
}

/// Caustics intensity at one surface point.  The bent ray from the
/// displaced surface point and the straight ray from the undisplaced
/// one are each intersected with the reference plane; the intensity is
/// the base level, raised with the squared surface tilt (light being
/// bent together) and lowered with the squared displacement between
/// the two hits (light being spread apart), confined to the
/// representable range.  Rays that miss the plane, and configurations
/// whose rays run parallel to it, fall back to the base level.
pub open spec fn spec_caustics_intensity(
    mat: CausticsMaterial,
    m: WaterMaterial,
    x: int,
    z: int,
    t: int,
) -> int {
    let h = spec_wave_height(m, x, z, t);
    let n = spec_wave_normal(m, x, z, t);
    let pn = FxVec3 { x: mat.plane.x, y: mat.plane.y, z: mat.plane.z };
    let d = spec_bent_ray(mat.light, n);
    let d0 = spec_bent_ray(mat.light, FxVec3 { x: 0, y: FX_ONE, z: 0 });
    let denom = spec_dot3(pn, d);
    let denom0 = spec_dot3(pn, d0);
    if denom == 0 || denom0 == 0 {
        INTENSITY_BASE as int
    } else {
        let num = mat.plane.w - spec_dot3(pn, FxVec3 { x: x as i64, y: h as i64, z: z as i64 });
        let num0 = mat.plane.w - spec_dot3(pn, FxVec3 { x: x as i64, y: 0, z: z as i64 });
        let tt = spec_fx_div(num, denom);
        let tt0 = spec_fx_div(num0, denom0);
        if tt < 0 || tt0 < 0 {
            INTENSITY_BASE as int
        } else {
            let ttc = spec_clamp(tt, 0, RAY_RANGE as int);
            let ttc0 = spec_clamp(tt0, 0, RAY_RANGE as int);
            let ox = spec_clamp(
                spec_fx_mul(ttc, d.x as int) - spec_fx_mul(ttc0, d0.x as int),
                -DISP_CLAMP as int,
                DISP_CLAMP as int,
            );
            let oz = spec_clamp(
                spec_fx_mul(ttc, d.z as int) - spec_fx_mul(ttc0, d0.z as int),
                -DISP_CLAMP as int,
                DISP_CLAMP as int,
            );
            let spread = spec_fx_mul(ox, ox) + spec_fx_mul(oz, oz);
            let tilt2 = spec_fx_mul(n.x as int, n.x as int) + spec_fx_mul(n.z as int, n.z as int);
            spec_clamp(
                INTENSITY_BASE + spec_fx_mul(FOCUS_GAIN as int, tilt2) - spec_fx_mul(
                    SPREAD_GAIN as int,
                    spread,
                ),
                0,
                INTENSITY_MAX as int,
            )
        }
    }
}

/// A flat surface neither concentrates nor disperses light: zero
/// amplitude gives exactly the base intensity at every point.
pub proof fn lemma_flat_caustics(mat: CausticsMaterial, m: WaterMaterial, x: int, z: int, t: int)
    requires
        m.well_formed(),
        m.amplitude == 0,
    ensures
        spec_caustics_intensity(mat, m, x, z, t) == INTENSITY_BASE,
{
    lemma_flat_water(m, x, z, t);
    let n = spec_wave_normal(m, x, z, t);
    assert(n == (FxVec3 { x: 0, y: FX_ONE, z: 0 }));
    let h = spec_wave_height(m, x, z, t);
    assert(h == 0);
    let pn = FxVec3 { x: mat.plane.x, y: mat.plane.y, z: mat.plane.z };
    let d = spec_bent_ray(mat.light, n);
    let d0 = spec_bent_ray(mat.light, FxVec3 { x: 0, y: FX_ONE, z: 0 });
    assert(d == d0);
    let denom = spec_dot3(pn, d);
    if !(denom == 0) {
        let num = mat.plane.w - spec_dot3(pn, FxVec3 { x: x as i64, y: h as i64, z: z as i64 });
        let num0 = mat.plane.w - spec_dot3(pn, FxVec3 { x: x as i64, y: 0, z: z as i64 });
        assert((FxVec3 { x: x as i64, y: h as i64, z: z as i64 }) == (FxVec3 {
            x: x as i64,
            y: 0,
            z: z as i64,
        }));
        assert(num == num0);
        let tt = spec_fx_div(num, denom);
        if !(tt < 0) {
            let ttc = spec_clamp(tt, 0, RAY_RANGE as int);
            let ox = spec_clamp(
                spec_fx_mul(ttc, d.x as int) - spec_fx_mul(ttc, d0.x as int),
                -DISP_CLAMP as int,
                DISP_CLAMP as int,
            );
            assert(ox == 0);
            crate::fixed::lemma_fx_mul_zero(0);
            let tilt2 = spec_fx_mul(n.x as int, n.x as int) + spec_fx_mul(n.z as int, n.z as int);
            assert(tilt2 == 0);
            crate::fixed::lemma_fx_mul_zero(FOCUS_GAIN as int);
            crate::fixed::lemma_fx_mul_zero(SPREAD_GAIN as int);
            assert(spec_clamp(INTENSITY_BASE as int, 0, INTENSITY_MAX as int) == INTENSITY_BASE);
        }
    }
}

fn bent_ray(light: &FxVec4, n: &FxVec3) -> (d: FxVec3)
    requires
        -LIGHT_MAX <= light.x <= LIGHT_MAX,
        -LIGHT_MAX <= light.y <= LIGHT_MAX,
        -LIGHT_MAX <= light.z <= LIGHT_MAX,
        -FX_ONE <= n.x <= FX_ONE,
        -FX_ONE <= n.z <= FX_ONE,
    ensures
        d == spec_bent_ray(*light, *n),
        vec3_bounded(d, 0x80_0000),
{
    FxVec3 { x: n.x - light.x, y: -light.y, z: n.z - light.z }
}

/// Caustics intensity at one surface point; the executable mirror of
/// [`spec_caustics_intensity`], exact in every branch.
pub fn caustics_intensity(mat: &CausticsMaterial, m: &WaterMaterial, x: i64, z: i64, time: i64)
    -> (r: i64)
    requires
        mat.well_formed(),
        m.well_formed(),
        -FX_COORD_MAX <= x <= FX_COORD_MAX,
        -FX_COORD_MAX <= z <= FX_COORD_MAX,
        -TIME_MAX <= time <= TIME_MAX,
    ensures
        r == spec_caustics_intensity(*mat, *m, x as int, z as int, time as int),
        0 <= r <= INTENSITY_MAX,
        m.amplitude == 0 ==> r == INTENSITY_BASE,
{
    proof {
        if m.amplitude == 0 {
            lemma_flat_caustics(*mat, *m, x as int, z as int, time as int);
        }
    }
    let (h, n) = m.height_and_normal(x, z, time);
    let pn = FxVec3 { x: mat.plane.x, y: mat.plane.y, z: mat.plane.z };
    let up = FxVec3 { x: 0, y: FX_ONE, z: 0 };
    let d = bent_ray(&mat.light, &n);
    let d0 = bent_ray(&mat.light, &up);
    let denom = dot3(&pn, &d);
    let denom0 = dot3(&pn, &d0);
    if denom == 0 || denom0 == 0 {
        return INTENSITY_BASE;
    }
    proof {
        lemma_dot3_bound(
            pn,
            FxVec3 { x, y: h, z },
            PLANE_NORMAL_MAX as int,
            FX_COORD_MAX as int,
        );
        lemma_dot3_bound(
            pn,
            FxVec3 { x, y: 0, z },
            PLANE_NORMAL_MAX as int,
            FX_COORD_MAX as int,
        );
    }
    let num = mat.plane.w - dot3(&pn, &FxVec3 { x, y: h, z });
    let num0 = mat.plane.w - dot3(&pn, &FxVec3 { x, y: 0, z });
    let tt = fx_div(num, denom);
    let tt0 = fx_div(num0, denom0);
    if tt < 0 || tt0 < 0 {
        return INTENSITY_BASE;
    }
    let ttc = fx_clamp(tt, 0, RAY_RANGE);
    let ttc0 = fx_clamp(tt0, 0, RAY_RANGE);
    proof {
        lemma_mul_abs_bound(ttc as int, d.x as int, RAY_RANGE as int, 0x80_0000);
        lemma_mul_abs_bound(ttc as int, d.z as int, RAY_RANGE as int, 0x80_0000);
        lemma_mul_abs_bound(ttc0 as int, d0.x as int, RAY_RANGE as int, 0x80_0000);
        lemma_mul_abs_bound(ttc0 as int, d0.z as int, RAY_RANGE as int, 0x80_0000);
        lemma_tdiv_mono_abs(ttc as int * d.x as int, FX_ONE as int, RAY_RANGE as int * 0x80_0000);
        lemma_tdiv_mono_abs(ttc as int * d.z as int, FX_ONE as int, RAY_RANGE as int * 0x80_0000);
        lemma_tdiv_mono_abs(ttc0 as int * d0.x as int, FX_ONE as int, RAY_RANGE as int * 0x80_0000);
        lemma_tdiv_mono_abs(ttc0 as int * d0.z as int, FX_ONE as int, RAY_RANGE as int * 0x80_0000);
    }
    let ox = fx_clamp(fx_mul(ttc, d.x) - fx_mul(ttc0, d0.x), -DISP_CLAMP, DISP_CLAMP);
    let oz = fx_clamp(fx_mul(ttc, d.z) - fx_mul(ttc0, d0.z), -DISP_CLAMP, DISP_CLAMP);
    proof {
        lemma_mul_abs_bound(ox as int, ox as int, DISP_CLAMP as int, DISP_CLAMP as int);
        lemma_mul_abs_bound(oz as int, oz as int, DISP_CLAMP as int, DISP_CLAMP as int);
        lemma_tdiv_mono_abs(ox as int * ox as int, FX_ONE as int, DISP_CLAMP as int * DISP_CLAMP as int);
        lemma_tdiv_mono_abs(oz as int * oz as int, FX_ONE as int, DISP_CLAMP as int * DISP_CLAMP as int);
        lemma_mul_abs_bound(n.x as int, n.x as int, FX_ONE as int, FX_ONE as int);
        lemma_mul_abs_bound(n.z as int, n.z as int, FX_ONE as int, FX_ONE as int);
        lemma_tdiv_mono_abs(n.x as int * n.x as int, FX_ONE as int, FX_ONE as int * FX_ONE as int);
        lemma_tdiv_mono_abs(n.z as int * n.z as int, FX_ONE as int, FX_ONE as int * FX_ONE as int);
    }
    let spread = fx_mul(ox, ox) + fx_mul(oz, oz);
    let tilt2 = fx_mul(n.x, n.x) + fx_mul(n.z, n.z);
    proof {
        lemma_mul_abs_bound(FOCUS_GAIN as int, tilt2 as int, FOCUS_GAIN as int, 0x2_0000);
        lemma_mul_abs_bound(SPREAD_GAIN as int, spread as int, SPREAD_GAIN as int, 0x20_0000);
        lemma_tdiv_mono_abs(FOCUS_GAIN as int * tilt2 as int, FX_ONE as int, FOCUS_GAIN as int * 0x2_0000);
        lemma_tdiv_mono_abs(
            SPREAD_GAIN as int * spread as int,
            FX_ONE as int,
            SPREAD_GAIN as int * 0x20_0000,
        );
    }
    fx_clamp(INTENSITY_BASE + fx_mul(FOCUS_GAIN, tilt2) - fx_mul(SPREAD_GAIN, spread), 0, INTENSITY_MAX)
}

/// Largest texture edge length.
pub const TEXTURE_EDGE_MAX: usize = 4096;

/// The offscreen caustics render target: a fixed-resolution
/// high-dynamic-range intensity image, created once at pipeline setup,
/// written exactly once per frame by the caustics pass and stamped
/// with the frame that wrote it.
#[derive(Clone, PartialEq, Eq, Debug)]
pub struct CausticsTexture {
    pub width: usize,
    pub height: usize,
    pub texels: Vec<i64>,
    /// The frame whose caustics pass last wrote the texels.
    pub frame: u64,
}

impl CausticsTexture {
    /// Dimensions are usable and every texel is a representable
    /// intensity.
    pub open spec fn well_formed(self) -> bool {
        &&& 2 <= self.width <= TEXTURE_EDGE_MAX
        &&& 2 <= self.height <= TEXTURE_EDGE_MAX
        &&& self.texels@.len() == self.width * self.height
        &&& forall|i: int|
            0 <= i < self.texels@.len() ==> 0 <= #[trigger] self.texels@[i] <= INTENSITY_MAX
    }

    /// Allocates the render target, cleared to black.
    pub fn new(width: usize, height: usize) -> (r: CausticsTexture)
        requires
            2 <= width <= TEXTURE_EDGE_MAX,
            2 <= height <= TEXTURE_EDGE_MAX,
        ensures
            r.well_formed(),
            r.width == width,
            r.height == height,
            r.frame == 0,
            forall|i: int| 0 <= i < r.texels@.len() ==> #[trigger] r.texels@[i] == 0,
    {
        proof {
            lemma_edge_product_small(width as int, height as int);
        }
        let count = width * height;
        let mut texels: Vec<i64> = Vec::new();
        for i in 0..count
            invariant
                texels@.len() == i,
                forall|j: int| 0 <= j < i ==> #[trigger] texels@[j] == 0,
        {
            texels.push(0);
        }
        CausticsTexture { width, height, texels, frame: 0 }
    }

    /// Explicit reconfiguration: the only way the target's size ever
    /// changes.  The content restarts black and unstamped.
    pub fn reconfigure(&mut self, width: usize, height: usize)
        requires
            2 <= width <= TEXTURE_EDGE_MAX,
            2 <= height <= TEXTURE_EDGE_MAX,
        ensures
            final(self).well_formed(),
            final(self).width == width,
            final(self).height == height,
            final(self).frame == 0,
            forall|i: int| 0 <= i < final(self).texels@.len() ==> #[trigger] final(self).texels@[i] == 0,
    {
        *self = CausticsTexture::new(width, height);
    }

    /// Intensity sampled at texture coordinates; u and v are clamped
    /// onto the unit square, then snapped to the nearest texel of the
    /// grid (nearest-neighbor filtering).
    pub fn sample(&self, u: i64, v: i64) -> (r: i64)
        requires
            self.well_formed(),
        ensures
            r == self.spec_sample(u as int, v as int),
            0 <= r <= INTENSITY_MAX,
    {
        let col = texel_coord(u, self.width);
        let row = texel_coord(v, self.height);
        proof {
            lemma_edge_product_small(self.width as int, self.height as int);
            lemma_texel_index_in_range(
                self.width as int,
                self.height as int,
                col as int,
                row as int,
            );
        }
        self.texels[row * self.width + col]
    }

    /// Where `sample` reads: the texel under the clamped coordinates.
    pub open spec fn spec_sample(self, u: int, v: int) -> int {
        self.texels@[spec_texel_coord(v, self.height as int) * (self.width as int)
            + spec_texel_coord(u, self.width as int)] as int
    }
}

/// Column (or row) of the texel holding clamped coordinate `u` on an
/// axis with `edge` texels.
pub open spec fn spec_texel_coord(u: int, edge: int) -> int {
    tdiv(spec_clamp(u, 0, FX_ONE as int) * (edge - 1), FX_ONE as int)
}

fn texel_coord(u: i64, edge: usize) -> (c: usize)
    requires
        2 <= edge <= TEXTURE_EDGE_MAX,
    ensures
        c == spec_texel_coord(u as int, edge as int),
        c < edge,
{
    let uc = fx_clamp(u, 0, FX_ONE);
    proof {
        lemma_mul_abs_bound(uc as int, edge as int - 1, FX_ONE as int, edge as int - 1);
    }
    let scaled = uc * (edge as i64 - 1);
    proof {
        lemma_tdiv_mono_abs(scaled as int, FX_ONE as int, (FX_ONE as int) * (edge - 1));
        lemma_tdiv_multiple(edge - 1, FX_ONE as int);
        vstd::arithmetic::div_mod::lemma_div_pos_is_pos(scaled as int, FX_ONE as int);
        assert((edge - 1) * (FX_ONE as int) == (FX_ONE as int) * (edge - 1)) by (nonlinear_arith);
    }
    (scaled / FX_ONE) as usize
}

proof fn lemma_edge_product_small(width: int, height: int)
    requires
        0 <= width <= TEXTURE_EDGE_MAX,
        0 <= height <= TEXTURE_EDGE_MAX,
    ensures
        0 <= width * height <= 0x100_0000,
{
    assert(0 <= width * height <= 0x100_0000) by (nonlinear_arith)
        requires
            0 <= width <= 4096,
            0 <= height <= 4096,
    ;
}

proof fn lemma_texel_index_in_range(width: int, height: int, col: int, row: int)
    requires
        2 <= width,
        2 <= height,
        0 <= col < width,
        0 <= row < height,
    ensures
        0 <= row * width + col < width * height,
{
    assert(row * width + col < width * height) by (nonlinear_arith)
        requires
            0 <= col < width,
            0 <= row < height,
    ;
    assert(row * width >= 0) by (nonlinear_arith)
        requires
            row >= 0,
            width >= 0,
    ;
}

/// World x (or z) under texel column (or row) `c` when the texture
/// covers the square footprint of `extent`: the texel grid spans the
/// footprint edge to edge.
pub open spec fn spec_texel_world(extent: WorldToUv, edge: int, c: int, center: int) -> int {
    center - tdiv(extent.size as int, 2) + tdiv(c * (extent.size as int), edge - 1)
}

fn texel_world(extent: &WorldToUv, edge: usize, c: usize, center: i64) -> (w: i64)
    requires
        extent.well_formed(),
        extent.size <= FX_COORD_MAX / 2,
        -FX_COORD_MAX / 2 <= center <= FX_COORD_MAX / 2,
        2 <= edge <= TEXTURE_EDGE_MAX,
        c < edge,
    ensures
        w == spec_texel_world(*extent, edge as int, c as int, center as int),
        -FX_COORD_MAX <= w <= FX_COORD_MAX,
{
    proof {
        lemma_mul_abs_bound(
            c as int,
            extent.size as int,
            TEXTURE_EDGE_MAX as int,
            FX_COORD_MAX as int / 2,
        );
    }
    let span = c as i64 * extent.size;
    proof {
        assert(0 <= span <= (edge - 1) * extent.size) by (nonlinear_arith)
            requires
                span == c * extent.size,
                0 <= c <= edge - 1,
                0 <= extent.size,
        ;
        lemma_tdiv_mono_abs(span as int, edge as int - 1, (edge as int - 1) * extent.size as int);
        lemma_tdiv_multiple(extent.size as int, edge as int - 1);
        assert((edge as int - 1) * extent.size as int == extent.size as int * (edge as int - 1))
            by (nonlinear_arith);
        vstd::arithmetic::div_mod::lemma_div_by_multiple(extent.size as int, edge as int - 1);
        vstd::arithmetic::div_mod::lemma_div_pos_is_pos(span as int, edge as int - 1);
    }
    center - extent.size / 2 + span / (edge as i64 - 1)
}

/// The intensity the caustics pass computes for flat texel index `i`
/// of a `width` by `height` target covering `extent`.
pub open spec fn spec_caustics_image(
    mat: CausticsMaterial,
    m: WaterMaterial,
    extent: WorldToUv,
    width: int,
    height: int,
    time: int,
    i: int,
) -> int {
    spec_caustics_intensity(
        mat,
        m,
        spec_texel_world(extent, width, i % width, extent.center.x as int),
        spec_texel_world(extent, height, i / width, extent.center.y as int),
        time,
    )
}

/// The caustics pass proper: evaluates the projection at the world
/// position under every texel of the target and writes the intensity,
/// then stamps the target with the writing frame.  The output is a
/// pure function of the material, the water parameters, the footprint
/// and the time — nothing else — so the same frame always produces
/// the same image.
pub fn render_caustics(
    mat: &CausticsMaterial,
    m: &WaterMaterial,
    extent: &WorldToUv,
    time: i64,
    frame: u64,
    tex: &mut CausticsTexture,
)
    requires
        old(tex).well_formed(),
        mat.well_formed(),
        m.well_formed(),
        extent.well_formed(),
        extent.size <= FX_COORD_MAX / 2,
        -FX_COORD_MAX / 2 <= extent.center.x <= FX_COORD_MAX / 2,
        -FX_COORD_MAX / 2 <= extent.center.y <= FX_COORD_MAX / 2,
        -TIME_MAX <= time <= TIME_MAX,
    ensures
        final(tex).well_formed(),
        final(tex).width == old(tex).width,
        final(tex).height == old(tex).height,
        final(tex).frame == frame,
        final(tex).texels@.len() == old(tex).texels@.len(),
        forall|i: int|
            0 <= i < final(tex).texels@.len() ==> #[trigger] final(tex).texels@[i]
                == spec_caustics_image(
                *mat,
                *m,
                *extent,
                old(tex).width as int,
                old(tex).height as int,
                time as int,
                i,
            ),
{
    let width = tex.width;
    let height = tex.height;
    let count = tex.texels.len();
    for i in 0..count
        invariant
            tex.width == old(tex).width == width,
            tex.height == old(tex).height == height,
            tex.frame == old(tex).frame,
            tex.texels@.len() == old(tex).texels@.len() == count,
            count == width * height,
            2 <= width <= TEXTURE_EDGE_MAX,
            2 <= height <= TEXTURE_EDGE_MAX,
            mat.well_formed(),
            m.well_formed(),
            extent.well_formed(),
            extent.size <= FX_COORD_MAX / 2,
            -FX_COORD_MAX / 2 <= extent.center.x <= FX_COORD_MAX / 2,
            -FX_COORD_MAX / 2 <= extent.center.y <= FX_COORD_MAX / 2,
            -TIME_MAX <= time <= TIME_MAX,
            forall|j: int|
                0 <= j < i ==> #[trigger] tex.texels@[j] == spec_caustics_image(
                    *mat,
                    *m,
                    *extent,
                    width as int,
                    height as int,
                    time as int,
                    j,
                ),
            forall|j: int| 0 <= j < count ==> 0 <= #[trigger] tex.texels@[j] <= INTENSITY_MAX,
    {
        let col = i % width;
        let row = i / width;
        proof {
            assert(row < height) by (nonlinear_arith)
                requires
                    row == i / width,
                    i < width * height,
                    0 <= i,
                    2 <= width,
                    2 <= height,
            ;
        }
        let wx = texel_world(extent, width, col, extent.center.x);
        let wz = texel_world(extent, height, row, extent.center.y);
        let v = caustics_intensity(mat, m, wx, wz, time);
        tex.texels.set(i, v);
    }
    tex.frame = frame;
}

} // verus!
