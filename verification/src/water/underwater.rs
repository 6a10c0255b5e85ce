//! The compositing pass's underwater extension.
//!
//! Any underwater-facing surface keeps its own base appearance and is
//! extended by this layer, which locates the surface point inside the
//! caustics texture through the world-to-UV transform, samples the
//! intensity the caustics pass wrote this frame, re-derives the local
//! wave height through the borrowed water parameters so that the
//! water tint deepens with submersion, and attenuates the base color
//! accordingly.  The result is always a displayable color: every
//! channel lands in `[0, FX_ONE]`.

use vstd::prelude::*;
use crate::compose::{
    compose, compose_err, effective_stage, standard_base_contract, ConfigError, ComposedMaterial,
    LogicalResource, MaterialContract, ResourceKind, ShaderStageRef, SlotBinding,
};
use crate::fixed::{
    fx_clamp, fx_mul, lemma_mul_abs_bound, lemma_tdiv_mono_abs, spec_clamp, spec_fx_mul,
    FX_COORD_MAX, FX_ONE,
};
use crate::mapper::WorldToUv;
use crate::vector::{FxColor, FxVec4};
use crate::water::caustics::{CausticsTexture, INTENSITY_MAX, LIGHT_MAX};
use crate::water::material::{
    spec_wave_height, WaterMaterial, WaterMaterialUniform, RES_WATER, TIME_MAX,
};

verus! {

/// Logical name of the underwater uniform block.
pub const RES_UNDERWATER: u64 = 3;

/// Logical name of the caustics texture binding.
pub const RES_CAUSTICS_TEXTURE: u64 = 4;

/// Logical name of the caustics sampler binding.
pub const RES_CAUSTICS_SAMPLER: u64 = 5;

/// The underwater shading extension: the coordinate map into the
/// caustics texture, the resting water plane, the water tint, the
/// light direction, the borrowed water parameter block, and the
/// handle of the caustics texture (zero meaning never populated).
#[derive(Clone, Copy, PartialEq, Eq, Structural, Debug)]
pub struct UnderwaterExtension {
    pub water_world_to_uv: WorldToUv,
    pub water_plane: FxVec4,
    pub water_color: FxColor,
    pub light_dir: FxVec4,
    pub water: WaterMaterialUniform,
    pub caustics_texture: u64,
}

/// The underwater uniform block as buffers carry it; the color is
/// repacked as a plain linear-space vector.
#[derive(Clone, Copy, PartialEq, Eq, Structural, Debug)]
pub struct UnderwaterExtensionUniform {
    pub water_world_to_uv: WorldToUv,
    pub water_plane: FxVec4,
    pub water_color: FxVec4,
    pub light_dir: FxVec4,
    pub water: WaterMaterialUniform,
}

impl UnderwaterExtension {
    /// The borrowed water parameters as a material value.
    pub open spec fn spec_water_material(self) -> WaterMaterial {
        WaterMaterial { amplitude: self.water.amplitude, coord_scale: self.water.coord_scale }
    }

    /// Bounds under which every shade evaluation is exact, a populated
    /// texture handle, and a displayable tint color.
    pub open spec fn well_formed(self) -> bool {
        &&& self.water_world_to_uv.well_formed()
        &&& self.spec_water_material().well_formed()
        &&& self.caustics_texture != 0
        &&& 0 <= self.water_color.r <= FX_ONE
        &&& 0 <= self.water_color.g <= FX_ONE
        &&& 0 <= self.water_color.b <= FX_ONE
        &&& 0 <= self.water_color.a <= FX_ONE
        &&& -FX_COORD_MAX <= self.water_plane.w <= FX_COORD_MAX
        &&& -LIGHT_MAX <= self.light_dir.x <= LIGHT_MAX
        &&& -LIGHT_MAX <= self.light_dir.y <= LIGHT_MAX
        &&& -LIGHT_MAX <= self.light_dir.z <= LIGHT_MAX
    }

    /// Validates the configuration: a caustics texture handle that was
    /// never populated is a setup error, reported here and not during
    /// a frame.
    pub fn new(
        water_world_to_uv: WorldToUv,
        water_plane: FxVec4,
        water_color: FxColor,
        light_dir: FxVec4,
        water: WaterMaterialUniform,
        caustics_texture: u64,
    ) -> (r: Result<UnderwaterExtension, ConfigError>)
        ensures
            match r {
                Err(e) => e == ConfigError::MissingCausticsTexture && caustics_texture == 0,
                Ok(u) => {
                    &&& caustics_texture != 0
                    &&& u == (UnderwaterExtension {
                        water_world_to_uv,
                        water_plane,
                        water_color,
                        light_dir,
                        water,
                        caustics_texture,
                    })
                },
            },
    {
        if caustics_texture == 0 {
            Err(ConfigError::MissingCausticsTexture)
        } else {
            Ok(
                UnderwaterExtension {
                    water_world_to_uv,
                    water_plane,
                    water_color,
                    light_dir,
                    water,
                    caustics_texture,
                },
            )
        }
    }

    /// The uniform block handed to the binding layer.
    pub fn to_uniform(&self) -> (u: UnderwaterExtensionUniform)
        ensures
            u.water_world_to_uv == self.water_world_to_uv,
            u.water_plane == self.water_plane,
            u.water_color == self.water_color.spec_to_vec4(),
            u.light_dir == self.light_dir,
            u.water == self.water,
    {
        UnderwaterExtensionUniform {
            water_world_to_uv: self.water_world_to_uv,
            water_plane: self.water_plane,
            water_color: self.water_color.to_vec4(),
            light_dir: self.light_dir,
            water: self.water,
        }
    }

    /// The extension overrides the fragment stage only; vertices run
    /// the base's logic.
    pub fn fragment_shader(&self) -> (s: ShaderStageRef)
        ensures
            s == ShaderStageRef::Underwater,
    {
        ShaderStageRef::Underwater
    }

    /// The extension's shading contract: its uniform block, the
    /// caustics texture and its sampler, and the fragment override.
    pub fn contract(&self) -> (c: MaterialContract)
        ensures
            c.resources@ == seq![
                LogicalResource { kind: ResourceKind::Uniform, name: RES_UNDERWATER },
                LogicalResource { kind: ResourceKind::Texture, name: RES_CAUSTICS_TEXTURE },
                LogicalResource { kind: ResourceKind::Sampler, name: RES_CAUSTICS_SAMPLER },
            ],
            c.vertex == ShaderStageRef::Inherit,
            c.fragment == ShaderStageRef::Underwater,
    {
        let mut resources: Vec<LogicalResource> = Vec::new();
        resources.push(LogicalResource { kind: ResourceKind::Uniform, name: RES_UNDERWATER });
        resources.push(LogicalResource { kind: ResourceKind::Texture, name: RES_CAUSTICS_TEXTURE });
        resources.push(LogicalResource { kind: ResourceKind::Sampler, name: RES_CAUSTICS_SAMPLER });
        proof {
            assert(resources@ =~= seq![
                LogicalResource { kind: ResourceKind::Uniform, name: RES_UNDERWATER },
                LogicalResource { kind: ResourceKind::Texture, name: RES_CAUSTICS_TEXTURE },
                LogicalResource { kind: ResourceKind::Sampler, name: RES_CAUSTICS_SAMPLER },
            ]);
        }
        MaterialContract {
            resources,
            vertex: ShaderStageRef::Inherit,
            fragment: ShaderStageRef::Underwater,
        }
    }
}

/// One channel of the underwater tint: the base channel is pulled
/// toward `base * water_color` with submersion depth, then modulated
/// by the sampled caustics intensity, and confined to displayable
/// range.
pub open spec fn spec_shade_channel(base: int, tint: int, depth: int, intensity: int) -> int {
    let toward = spec_fx_mul(base, tint);
    let mixed = spec_clamp(base + spec_fx_mul(depth, toward - base), 0, FX_ONE as int);
    spec_clamp(spec_fx_mul(mixed, intensity), 0, FX_ONE as int)
}

/// The full underwater shade of one surface point: UV through the
/// world-to-UV transform, caustics intensity from the texture, local
/// submersion depth from the re-derived wave height (the resting
/// surface sits at the plane's fourth component), and the tint applied
/// per channel.  Alpha passes through.
pub open spec fn spec_underwater_shade(
    ext: UnderwaterExtension,
    base: FxColor,
    world_pos: FxVec4,
    tex: CausticsTexture,
    time: int,
) -> FxColor {
    let uv = ext.water_world_to_uv.spec_apply(world_pos);
    let intensity = tex.spec_sample(uv.x as int, uv.z as int);
    let h = spec_wave_height(ext.spec_water_material(), world_pos.x as int, world_pos.z as int, time);
    let depth = spec_clamp(ext.water_plane.w + h - world_pos.y, 0, FX_ONE as int);
    FxColor {
        r: spec_shade_channel(base.r as int, ext.water_color.r as int, depth, intensity) as i64,
        g: spec_shade_channel(base.g as int, ext.water_color.g as int, depth, intensity) as i64,
        b: spec_shade_channel(base.b as int, ext.water_color.b as int, depth, intensity) as i64,
        a: base.a,
    }
}

fn shade_channel(base: i64, tint: i64, depth: i64, intensity: i64) -> (r: i64)
    requires
        0 <= base <= FX_ONE,
        0 <= tint <= FX_ONE,
        0 <= depth <= FX_ONE,
        0 <= intensity <= INTENSITY_MAX,
    ensures
        r == spec_shade_channel(base as int, tint as int, depth as int, intensity as int),
        0 <= r <= FX_ONE,
{
    proof {
        lemma_mul_abs_bound(base as int, tint as int, FX_ONE as int, FX_ONE as int);
        lemma_tdiv_mono_abs(base as int * tint as int, FX_ONE as int, FX_ONE as int * FX_ONE as int);
    }
    let toward = fx_mul(base, tint);
    proof {
        lemma_mul_abs_bound(depth as int, toward as int - base, FX_ONE as int, 2 * FX_ONE as int);
        lemma_tdiv_mono_abs(
            depth as int * (toward as int - base),
            FX_ONE as int,
            FX_ONE as int * (2 * FX_ONE as int),
        );
    }
    let mixed = fx_clamp(base + fx_mul(depth, toward - base), 0, FX_ONE);
    proof {
        lemma_mul_abs_bound(mixed as int, intensity as int, FX_ONE as int, INTENSITY_MAX as int);
        lemma_tdiv_mono_abs(
            mixed as int * intensity as int,
            FX_ONE as int,
            FX_ONE as int * INTENSITY_MAX as int,
        );
    }
    fx_clamp(fx_mul(mixed, intensity), 0, FX_ONE)
}

/// The compositing shade of one underwater surface point; the
/// executable mirror of [`spec_underwater_shade`].  Whatever the
/// inputs, each output channel is a displayable value in
/// `[0, FX_ONE]`.
pub fn underwater_shade(
    ext: &UnderwaterExtension,
    base: &FxColor,
    world_pos: &FxVec4,
    tex: &CausticsTexture,
    time: i64,
) -> (r: FxColor)
    requires
        ext.well_formed(),
        tex.well_formed(),
        0 <= base.r <= FX_ONE,
        0 <= base.g <= FX_ONE,
        0 <= base.b <= FX_ONE,
        -FX_COORD_MAX <= world_pos.x <= FX_COORD_MAX,
        -FX_COORD_MAX <= world_pos.y <= FX_COORD_MAX,
        -FX_COORD_MAX <= world_pos.z <= FX_COORD_MAX,
        -TIME_MAX <= time <= TIME_MAX,
    ensures
        r == spec_underwater_shade(*ext, *base, *world_pos, *tex, time as int),
        0 <= r.r <= FX_ONE,
        0 <= r.g <= FX_ONE,
        0 <= r.b <= FX_ONE,
        r.a == base.a,
{
    let uv = ext.water_world_to_uv.apply(world_pos);
    let intensity = tex.sample(uv.x, uv.z);
    let water = WaterMaterial { amplitude: ext.water.amplitude, coord_scale: ext.water.coord_scale };
    let h = water.height(world_pos.x, world_pos.z, time);
    let depth = fx_clamp(ext.water_plane.w + h - world_pos.y, 0, FX_ONE);
    FxColor {
        r: shade_channel(base.r, ext.water_color.r, depth, intensity),
        g: shade_channel(base.g, ext.water_color.g, depth, intensity),
        b: shade_channel(base.b, ext.water_color.b, depth, intensity),
        a: base.a,
    }
}

/// The material underwater geometry is drawn with: the host's
/// standard base, the water's parameter block riding in a bind-only
/// layer, and the underwater extension on top.  The composition
/// always succeeds, the underwater fragment stage wins, and the slot
/// table is exactly: standard block at 0, water block at 100,
/// underwater uniform, texture and sampler at 200, 201 and 202.
pub fn underwater_material(ext: &UnderwaterExtension) -> (r: ComposedMaterial)
    ensures
        r.vertex == ShaderStageRef::Inherit,
        r.fragment == ShaderStageRef::Underwater,
        r.bindings@.len() == 5,
        r.bindings@[0] == (SlotBinding {
            resource: LogicalResource {
                kind: ResourceKind::Uniform,
                name: crate::compose::RES_STANDARD,
            },
            slot: 0,
        }),
        r.bindings@[1] == (SlotBinding {
            resource: LogicalResource { kind: ResourceKind::Uniform, name: RES_WATER },
            slot: 100,
        }),
        r.bindings@[2] == (SlotBinding {
            resource: LogicalResource { kind: ResourceKind::Uniform, name: RES_UNDERWATER },
            slot: 200,
        }),
        r.bindings@[3] == (SlotBinding {
            resource: LogicalResource { kind: ResourceKind::Texture, name: RES_CAUSTICS_TEXTURE },
            slot: 201,
        }),
        r.bindings@[4] == (SlotBinding {
            resource: LogicalResource { kind: ResourceKind::Sampler, name: RES_CAUSTICS_SAMPLER },
            slot: 202,
        }),
{
    let base = standard_base_contract();
    let water_bind = crate::water::caustics::WaterBindMaterial(
        WaterMaterial { amplitude: ext.water.amplitude, coord_scale: ext.water.coord_scale },
    ).contract();
    let top = ext.contract();
    let ghost bm = base.resources@;
    let mut extensions: Vec<MaterialContract> = Vec::new();
    extensions.push(water_bind);
    extensions.push(top);
    let ghost em = crate::compose::resources_view(extensions@);
    proof {
        assert(em =~= seq![water_bind.resources@, top.resources@]);
        assert(crate::compose::ext_resources(em, 2) =~= Seq::<LogicalResource>::empty());
        assert(crate::compose::ext_resources(em, 1) =~= top.resources@);
        assert(crate::compose::ext_resources(em, 0) =~= water_bind.resources@ + top.resources@);
        let all = crate::compose::all_resources(bm, em);
        assert(all =~= bm + (water_bind.resources@ + top.resources@));
        assert(all.len() == 5);
        assert(!crate::compose::has_duplicate(all)) by {
            assert(forall|i: int, j: int|
                0 <= i < j < all.len() ==> all[i] != all[j]) by {
                assert(all[0] != all[1] && all[0] != all[2] && all[0] != all[3] && all[0] != all[4]);
                assert(all[1] != all[2] && all[1] != all[3] && all[1] != all[4]);
                assert(all[2] != all[3] && all[2] != all[4]);
                assert(all[3] != all[4]);
            }
        }
        assert(compose_err(bm, em) is None);
        assert(crate::compose::ext_bindings(em, 2) =~= Seq::<SlotBinding>::empty());
        assert(crate::compose::vertex_view(extensions@) =~= seq![
            ShaderStageRef::Inherit,
            ShaderStageRef::Inherit,
        ]);
        assert(crate::compose::fragment_view(extensions@) =~= seq![
            ShaderStageRef::Inherit,
            ShaderStageRef::Underwater,
        ]);
        assert(effective_stage(base.vertex, crate::compose::vertex_view(extensions@))
            == ShaderStageRef::Inherit) by {
            let sv = crate::compose::vertex_view(extensions@);
            let sv1 = sv.drop_last();
            assert(sv.len() == 2 && sv.last() == ShaderStageRef::Inherit);
            assert(effective_stage(base.vertex, sv) == effective_stage(base.vertex, sv1));
            assert(sv1 =~= seq![ShaderStageRef::Inherit]);
            assert(sv1.len() == 1 && sv1.last() == ShaderStageRef::Inherit);
            assert(effective_stage(base.vertex, sv1) == effective_stage(
                base.vertex,
                sv1.drop_last(),
            ));
            assert(sv1.drop_last() =~= Seq::<ShaderStageRef>::empty());
            assert(effective_stage(base.vertex, sv1.drop_last()) == base.vertex);
        }
        assert(effective_stage(base.fragment, crate::compose::fragment_view(extensions@))
            == ShaderStageRef::Underwater) by {
            let sf = crate::compose::fragment_view(extensions@);
            assert(sf.last() == ShaderStageRef::Underwater);
        }
    }
    let composed = match compose(&base, &extensions) {
        Ok(c) => c,
        Err(_) => {
            proof {
                assert(false);
            }
            unreached()
        },
    };
    proof {
        let cb = crate::compose::compose_bindings(bm, em);
        assert(composed.bindings@ == cb);
        assert(crate::compose::ext_bindings(em, 2).len() == 0);
        assert(crate::compose::ext_bindings(em, 1) == crate::compose::layer_bindings(em[1], 200)
            + crate::compose::ext_bindings(em, 2));
        assert(crate::compose::ext_bindings(em, 1).len() == 3);
        assert(crate::compose::ext_bindings(em, 0) == crate::compose::layer_bindings(em[0], 100)
            + crate::compose::ext_bindings(em, 1));
        assert(crate::compose::ext_bindings(em, 0).len() == 4);
        assert(cb.len() == 5);
        assert(cb[0] == crate::compose::layer_bindings(bm, 0)[0]);
        assert(cb[1] == crate::compose::ext_bindings(em, 0)[0]);
        assert(crate::compose::ext_bindings(em, 0)[0] == crate::compose::layer_bindings(
            em[0],
            100,
        )[0]);
        assert(cb[2] == crate::compose::ext_bindings(em, 0)[1]);
        assert(crate::compose::ext_bindings(em, 0)[1] == crate::compose::ext_bindings(em, 1)[0]);
        assert(crate::compose::ext_bindings(em, 1)[0] == crate::compose::layer_bindings(
            em[1],
            200,
        )[0]);
        assert(cb[3] == crate::compose::ext_bindings(em, 0)[2]);
        assert(crate::compose::ext_bindings(em, 0)[2] == crate::compose::ext_bindings(em, 1)[1]);
        assert(crate::compose::ext_bindings(em, 1)[1] == crate::compose::layer_bindings(
            em[1],
            200,
        )[1]);
        assert(cb[4] == crate::compose::ext_bindings(em, 0)[3]);
        assert(crate::compose::ext_bindings(em, 0)[3] == crate::compose::ext_bindings(em, 1)[2]);
        assert(crate::compose::ext_bindings(em, 1)[2] == crate::compose::layer_bindings(
            em[1],
            200,
        )[2]);
    }
    composed
}

} // verus!
