//! The parallax caustics extension.
//!
//! A variant of the underwater shading that evaluates the caustics
//! projection directly in the receiving surface's fragment stage
//! instead of sampling the offscreen texture: it carries only the
//! world-to-UV transform, the resting water plane and the light
//! direction, and overrides both stages with the projection's own
//! programs.  Its pipeline runs the depth test in pass-through mode so
//! the projected pattern is never clipped by the geometry that
//! receives it.

use vstd::prelude::*;
use crate::compose::{
    compose, compose_err, effective_stage, standard_base_contract, CompareFunction,
    ComposedMaterial, DepthStencilState, LogicalResource, MaterialContract,
    RenderPipelineDescriptor, ResourceKind, ShaderStageRef, SlotBinding,
};
use crate::mapper::WorldToUv;
use crate::vector::FxVec4;

verus! {

/// Logical name of the parallax-caustics uniform block.
pub const RES_CAUSTICS_PARALLAX: u64 = 7;

/// The parallax caustics shading extension.
#[derive(Clone, Copy, PartialEq, Eq, Structural, Debug)]
pub struct CausticsParallaxExtension {
    pub water_world_to_uv: WorldToUv,
    pub water_plane: FxVec4,
    pub light_dir: FxVec4,
}

/// The parallax-caustics uniform block as buffers carry it.
#[derive(Clone, Copy, PartialEq, Eq, Structural, Debug)]
pub struct CausticsExtensionUniform {
    pub water_world_to_uv: WorldToUv,
    pub water_plane: FxVec4,
    pub light_dir: FxVec4,
}

impl CausticsParallaxExtension {
    /// The uniform block handed to the binding layer.
    pub fn to_uniform(&self) -> (u: CausticsExtensionUniform)
        ensures
            u.water_world_to_uv == self.water_world_to_uv,
            u.water_plane == self.water_plane,
            u.light_dir == self.light_dir,
    {
        CausticsExtensionUniform {
            water_world_to_uv: self.water_world_to_uv,
            water_plane: self.water_plane,
            light_dir: self.light_dir,
        }
    }

    /// The extension overrides the vertex stage...
    pub fn vertex_shader(&self) -> (s: ShaderStageRef)
        ensures
            s == ShaderStageRef::CausticsVertex,
    {
        ShaderStageRef::CausticsVertex
    }

    /// ... and the fragment stage.
    pub fn fragment_shader(&self) -> (s: ShaderStageRef)
        ensures
            s == ShaderStageRef::CausticsFragment,
    {
        ShaderStageRef::CausticsFragment
    }

    /// Forces the depth comparison to pass unconditionally when the
    /// pipeline carries a depth-stencil state; culling and everything
    /// else stay as the base configured them.
    pub fn specialize(&self, descriptor: &mut RenderPipelineDescriptor)
        ensures
            final(descriptor).cull_mode == old(descriptor).cull_mode,
            old(descriptor).depth_stencil is Some ==> final(descriptor).depth_stencil == Some(
                DepthStencilState { depth_compare: CompareFunction::Always },
            ),
            old(descriptor).depth_stencil is None ==> final(descriptor).depth_stencil is None,
    {
        if descriptor.depth_stencil.is_some() {
            descriptor.depth_stencil = Some(
                DepthStencilState { depth_compare: CompareFunction::Always },
            );
        }
    }

    /// The extension's shading contract: one uniform block and both
    /// stage overrides.
    pub fn contract(&self) -> (c: MaterialContract)
        ensures
            c.resources@ == seq![
                LogicalResource { kind: ResourceKind::Uniform, name: RES_CAUSTICS_PARALLAX },
            ],
            c.vertex == ShaderStageRef::CausticsVertex,
            c.fragment == ShaderStageRef::CausticsFragment,
    {
        let mut resources: Vec<LogicalResource> = Vec::new();
        resources.push(
            LogicalResource { kind: ResourceKind::Uniform, name: RES_CAUSTICS_PARALLAX },
        );
        proof {
            assert(resources@ =~= seq![
                LogicalResource { kind: ResourceKind::Uniform, name: RES_CAUSTICS_PARALLAX },
            ]);
        }
        MaterialContract {
            resources,
            vertex: ShaderStageRef::CausticsVertex,
            fragment: ShaderStageRef::CausticsFragment,
        }
    }
}

/// The material parallax-caustics geometry is drawn with: the host's
/// standard base extended by the parallax extension alone.  The
/// composition always succeeds, both stage overrides win, and the
/// slots are the standard block at 0 and the extension's uniform at
/// 100.
pub fn caustics_parallax_material(ext: &CausticsParallaxExtension) -> (r: ComposedMaterial)
    ensures
        r.vertex == ShaderStageRef::CausticsVertex,
        r.fragment == ShaderStageRef::CausticsFragment,
        r.bindings@.len() == 2,
        r.bindings@[0] == (SlotBinding {
            resource: LogicalResource {
                kind: ResourceKind::Uniform,
                name: crate::compose::RES_STANDARD,
            },
            slot: 0,
        }),
        r.bindings@[1] == (SlotBinding {
            resource: LogicalResource { kind: ResourceKind::Uniform, name: RES_CAUSTICS_PARALLAX },
            slot: 100,
        }),
{
    let base = standard_base_contract();
    let top = ext.contract();
    let ghost bm = base.resources@;
    let mut extensions: Vec<MaterialContract> = Vec::new();
    extensions.push(top);
    let ghost em = crate::compose::resources_view(extensions@);
    proof {
        assert(em =~= seq![top.resources@]);
        assert(crate::compose::ext_resources(em, 1) =~= Seq::<LogicalResource>::empty());
        assert(crate::compose::ext_resources(em, 0) =~= top.resources@);
        let all = crate::compose::all_resources(bm, em);
        assert(all =~= bm + top.resources@);
        assert(!crate::compose::has_duplicate(all)) by {
            assert(all.len() == 2);
            assert(all[0] != all[1]);
        }
        assert(compose_err(bm, em) is None);
        assert(crate::compose::ext_bindings(em, 1) =~= Seq::<SlotBinding>::empty());
        assert(crate::compose::vertex_view(extensions@) =~= seq![ShaderStageRef::CausticsVertex]);
        assert(crate::compose::fragment_view(extensions@) =~= seq![
            ShaderStageRef::CausticsFragment,
        ]);
        assert(effective_stage(base.vertex, crate::compose::vertex_view(extensions@))
            == ShaderStageRef::CausticsVertex);
        assert(effective_stage(base.fragment, crate::compose::fragment_view(extensions@))
            == ShaderStageRef::CausticsFragment);
    }
    let composed = match compose(&base, &extensions) {
        Ok(c) => c,
        Err(_) => {
            proof {
                assert(false);
            }
            unreached()
        },
    };
    proof {
        let cb = crate::compose::compose_bindings(bm, em);
        assert(composed.bindings@ == cb);
        assert(crate::compose::ext_bindings(em, 1).len() == 0);
        assert(crate::compose::ext_bindings(em, 0) == crate::compose::layer_bindings(em[0], 100)
            + crate::compose::ext_bindings(em, 1));
        assert(crate::compose::ext_bindings(em, 0).len() == 1);
        assert(cb.len() == 2);
        assert(cb[0] == crate::compose::layer_bindings(bm, 0)[0]);
        assert(cb[1] == crate::compose::ext_bindings(em, 0)[0]);
        assert(crate::compose::ext_bindings(em, 0)[0] == crate::compose::layer_bindings(
            em[0],
            100,
        )[0]);
    }
    composed
}

} // verus!
