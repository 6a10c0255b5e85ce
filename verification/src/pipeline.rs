//! Frame scheduling: the caustics pass strictly before the
//! compositing pass, and the texture hand-off between them.
//!
//! The scheduler owns the caustics render target; the caustics pass is
//! its single writer, every consumer reads it through the scheduler,
//! and the pass order guarantees a consumer always observes the image
//! the current frame's caustics pass wrote — never a stale or torn
//! one.  Parameter updates are applied once at the frame boundary, so
//! no pass ever sees a half-applied change.  A frame whose shader
//! assets have not resolved yet is skipped, not failed: the target
//! keeps the previous image and the skip is reported as a diagnostic.

use vstd::prelude::*;
use crate::compose::ConfigError;
use crate::fixed::{FX_COORD_MAX, FX_ONE};
use crate::mapper::WorldToUv;
use crate::vector::{FxColor, FxVec4};
use crate::water::caustics::{
    render_caustics, spec_caustics_image, CausticsMaterial, CausticsTexture,
};
use crate::water::material::{WaterMaterial, WaterMaterialUniform, TIME_MAX};
use crate::water::underwater::{spec_underwater_shade, underwater_shade, UnderwaterExtension};

verus! {

/// Explicit order of the caustics pass within a frame.
pub const CAUSTICS_PASS_ORDER: i64 = -1;

/// Explicit order of the main (compositing) pass within a frame.
pub const MAIN_PASS_ORDER: i64 = 0;

/// One render pass as the frame order sees it: its explicit priority
/// (lower runs earlier) and how it touches the caustics target.
#[derive(Clone, Copy, PartialEq, Eq, Structural, Debug)]
pub struct PassDesc {
    pub priority: i64,
    pub writes_caustics: bool,
    pub reads_caustics: bool,
}

/// Every pass that reads the caustics target runs strictly after the
/// pass that writes it.
pub open spec fn write_before_read(passes: Seq<PassDesc>) -> bool {
    forall|i: int, j: int|
        0 <= i < passes.len() && 0 <= j < passes.len() && passes[i].writes_caustics
            && passes[j].reads_caustics ==> passes[i].priority < passes[j].priority
}

/// No pass but one ever writes the caustics target.
pub open spec fn single_writer(passes: Seq<PassDesc>) -> bool {
    forall|i: int, j: int|
        0 <= i < passes.len() && 0 <= j < passes.len() && passes[i].writes_caustics
            && passes[j].writes_caustics ==> i == j
}

/// Whether a frame ran its passes or had to be skipped.
#[derive(Clone, Copy, PartialEq, Eq, Structural, Debug)]
pub enum FrameOutcome {
    /// The caustics pass wrote this frame's image into the target.
    Rendered,
    /// A needed shader asset had not resolved; the frame was skipped
    /// and will be retried, the target keeping its previous image.
    SkippedResourceUnavailable,
}

/// The per-frame pipeline: pass order, the materials of both passes,
/// the shared water parameters as applied for the current frame, and
/// the caustics render target with its handle.
#[derive(Clone, PartialEq, Eq, Debug)]
pub struct PipelineScheduler {
    pub passes: Vec<PassDesc>,
    pub caustics: CausticsMaterial,
    pub water: WaterMaterial,
    pub extent: WorldToUv,
    pub underwater: UnderwaterExtension,
    pub texture: CausticsTexture,
    pub texture_handle: u64,
    pub frame: u64,
    pub caustics_shader_ready: bool,
}

impl PipelineScheduler {
    /// Well-formed parts, the compositing material holding a live
    /// reference to the scheduler's own target, and the canonical
    /// two-pass order.
    pub open spec fn well_formed(self) -> bool {
        &&& self.texture.well_formed()
        &&& self.caustics.well_formed()
        &&& self.water.well_formed()
        &&& self.extent.well_formed()
        &&& self.extent.size <= FX_COORD_MAX / 2
        &&& -FX_COORD_MAX / 2 <= self.extent.center.x <= FX_COORD_MAX / 2
        &&& -FX_COORD_MAX / 2 <= self.extent.center.y <= FX_COORD_MAX / 2
        &&& self.underwater.well_formed()
        &&& self.texture_handle != 0
        &&& self.underwater.caustics_texture == self.texture_handle
        &&& self.passes@.len() == 2
        &&& self.passes@[0] == (PassDesc {
            priority: CAUSTICS_PASS_ORDER,
            writes_caustics: true,
            reads_caustics: false,
        })
        &&& self.passes@[1] == (PassDesc {
            priority: MAIN_PASS_ORDER,
            writes_caustics: false,
            reads_caustics: true,
        })
    }

    /// The canonical pass order satisfies both ordering invariants:
    /// one writer, and every reader strictly after it.
    pub proof fn lemma_pass_order(self)
        requires
            self.well_formed(),
        ensures
            write_before_read(self.passes@),
            single_writer(self.passes@),
    {
    }

    /// Builds the pipeline.  The compositing material must reference
    /// the target being routed to the caustics pass; a missing or
    /// foreign handle is a configuration error, surfaced here and
    /// fatal to this pipeline's setup only.
    pub fn new(
        caustics: CausticsMaterial,
        water: WaterMaterial,
        extent: WorldToUv,
        underwater: UnderwaterExtension,
        texture: CausticsTexture,
        texture_handle: u64,
    ) -> (r: Result<PipelineScheduler, ConfigError>)
        requires
            caustics.well_formed(),
            water.well_formed(),
            extent.well_formed(),
            extent.size <= FX_COORD_MAX / 2,
            -FX_COORD_MAX / 2 <= extent.center.x <= FX_COORD_MAX / 2,
            -FX_COORD_MAX / 2 <= extent.center.y <= FX_COORD_MAX / 2,
            underwater.well_formed(),
            texture.well_formed(),
        ensures
            match r {
                Err(e) => {
                    &&& e == ConfigError::MissingCausticsTexture
                    &&& (texture_handle == 0 || underwater.caustics_texture != texture_handle)
                },
                Ok(s) => {
                    &&& texture_handle != 0
                    &&& underwater.caustics_texture == texture_handle
                    &&& s.well_formed()
                    &&& s.caustics == caustics
                    &&& s.water == water
                    &&& s.extent == extent
                    &&& s.underwater == underwater
                    &&& s.texture == texture
                    &&& s.texture_handle == texture_handle
                    &&& s.frame == 0
                    &&& !s.caustics_shader_ready
                },
            },
    {
        if texture_handle == 0 || underwater.caustics_texture != texture_handle {
            return Err(ConfigError::MissingCausticsTexture);
        }
        let mut passes: Vec<PassDesc> = Vec::new();
        passes.push(
            PassDesc { priority: CAUSTICS_PASS_ORDER, writes_caustics: true, reads_caustics: false },
        );
        passes.push(
            PassDesc { priority: MAIN_PASS_ORDER, writes_caustics: false, reads_caustics: true },
        );
        Ok(
            PipelineScheduler {
                passes,
                caustics,
                water,
                extent,
                underwater,
                texture,
                texture_handle,
                frame: 0,
                caustics_shader_ready: false,
            },
        )
    }

    /// Marks the caustics shader assets as resolved; skipped frames
    /// are retried from the next frame on.
    pub fn shaders_loaded(&mut self)
        ensures
            final(self).caustics_shader_ready,
            final(self).passes@ == old(self).passes@,
            final(self).caustics == old(self).caustics,
            final(self).water == old(self).water,
            final(self).extent == old(self).extent,
            final(self).underwater == old(self).underwater,
            final(self).texture == old(self).texture,
            final(self).texture_handle == old(self).texture_handle,
            final(self).frame == old(self).frame,
    {
        self.caustics_shader_ready = true;
    }

    /// Runs one frame: applies this frame's water parameters at the
    /// boundary — to the caustics pass and to every material that
    /// borrowed them, the compositing extension included, so no two
    /// instances can diverge — then lets the caustics pass overwrite
    /// the target with this frame's image and stamp it.  If the
    /// shader assets have not resolved, the frame is skipped and the
    /// target keeps the previous frame's image untouched.
    pub fn run_frame(&mut self, water: &WaterMaterial, time: i64) -> (out: FrameOutcome)
        requires
            old(self).well_formed(),
            water.well_formed(),
            -TIME_MAX <= time <= TIME_MAX,
            old(self).frame < u64::MAX,
        ensures
            final(self).well_formed(),
            final(self).frame == old(self).frame + 1,
            final(self).water == *water,
            final(self).passes@ == old(self).passes@,
            final(self).caustics == old(self).caustics,
            final(self).extent == old(self).extent,
            final(self).underwater.water == (WaterMaterialUniform {
                amplitude: water.amplitude,
                coord_scale: water.coord_scale,
            }),
            final(self).underwater.water_world_to_uv == old(self).underwater.water_world_to_uv,
            final(self).underwater.water_plane == old(self).underwater.water_plane,
            final(self).underwater.water_color == old(self).underwater.water_color,
            final(self).underwater.light_dir == old(self).underwater.light_dir,
            final(self).underwater.caustics_texture == old(self).underwater.caustics_texture,
            final(self).texture_handle == old(self).texture_handle,
            final(self).caustics_shader_ready == old(self).caustics_shader_ready,
            final(self).texture.width == old(self).texture.width,
            final(self).texture.height == old(self).texture.height,
            match out {
                FrameOutcome::Rendered => {
                    &&& old(self).caustics_shader_ready
                    &&& final(self).texture.frame == final(self).frame
                    &&& forall|i: int|
                        0 <= i < final(self).texture.texels@.len()
                            ==> #[trigger] final(self).texture.texels@[i] == spec_caustics_image(
                            old(self).caustics,
                            *water,
                            old(self).extent,
                            old(self).texture.width as int,
                            old(self).texture.height as int,
                            time as int,
                            i,
                        )
                },
                FrameOutcome::SkippedResourceUnavailable => {
                    &&& !old(self).caustics_shader_ready
                    &&& final(self).texture == old(self).texture
                },
            },
    {
        self.frame = self.frame + 1;
        self.water = *water;
        self.underwater.water = WaterMaterialUniform {
            amplitude: water.amplitude,
            coord_scale: water.coord_scale,
        };
        if !self.caustics_shader_ready {
            return FrameOutcome::SkippedResourceUnavailable;
        }
        let frame = self.frame;
        render_caustics(&self.caustics, &self.water, &self.extent, time, frame, &mut self.texture);
        FrameOutcome::Rendered
    }

    /// The compositing pass's read: shades one underwater surface
    /// point against the scheduler's own target.  After a rendered
    /// frame this observes exactly that frame's image.
    pub fn shade_at(&self, base: &FxColor, world_pos: &FxVec4, time: i64) -> (c: FxColor)
        requires
            self.well_formed(),
            0 <= base.r <= FX_ONE,
            0 <= base.g <= FX_ONE,
            0 <= base.b <= FX_ONE,
            -FX_COORD_MAX <= world_pos.x <= FX_COORD_MAX,
            -FX_COORD_MAX <= world_pos.y <= FX_COORD_MAX,
            -FX_COORD_MAX <= world_pos.z <= FX_COORD_MAX,
            -TIME_MAX <= time <= TIME_MAX,
        ensures
            c == spec_underwater_shade(self.underwater, *base, *world_pos, self.texture, time as int),
            0 <= c.r <= FX_ONE,
            0 <= c.g <= FX_ONE,
            0 <= c.b <= FX_ONE,
    {
        underwater_shade(&self.underwater, base, world_pos, &self.texture, time)
    }
}

/// One rendered frame as `run_frame` promises it: the frame advanced,
/// this frame's parameters applied, materials and footprint carried
/// over, and the target holding exactly this frame's image under this
/// frame's stamp.
pub open spec fn rendered_step(
    pre: PipelineScheduler,
    post: PipelineScheduler,
    water: WaterMaterial,
    time: int,
) -> bool {
    &&& post.frame == pre.frame + 1
    &&& post.water == water
    &&& post.caustics == pre.caustics
    &&& post.extent == pre.extent
    &&& post.texture.width == pre.texture.width
    &&& post.texture.height == pre.texture.height
    &&& post.texture.frame == post.frame
    &&& forall|i: int|
        0 <= i < post.texture.texels@.len() ==> #[trigger] post.texture.texels@[i]
            == spec_caustics_image(
            pre.caustics,
            water,
            pre.extent,
            pre.texture.width as int,
            pre.texture.height as int,
            time,
            i,
        )
}

/// Frame isolation across two consecutive rendered frames with
/// different parameters: while frame N is current, every texel a
/// reader can observe is frame N's own image — a function of frame
/// N's water parameters and time alone, which frame N+1's parameters
/// cannot influence — and once frame N+1 has rendered, every texel
/// has been overwritten with frame N+1's image.  The stamps tell the
/// two apart: each frame's target carries that frame's own number.
pub proof fn lemma_frame_isolation(
    s0: PipelineScheduler,
    s1: PipelineScheduler,
    s2: PipelineScheduler,
    w1: WaterMaterial,
    w2: WaterMaterial,
    t1: int,
    t2: int,
)
    requires
        rendered_step(s0, s1, w1, t1),
        rendered_step(s1, s2, w2, t2),
    ensures
        forall|i: int|
            0 <= i < s1.texture.texels@.len() ==> #[trigger] s1.texture.texels@[i]
                == spec_caustics_image(
                s0.caustics,
                w1,
                s0.extent,
                s0.texture.width as int,
                s0.texture.height as int,
                t1,
                i,
            ),
        forall|i: int|
            0 <= i < s2.texture.texels@.len() ==> #[trigger] s2.texture.texels@[i]
                == spec_caustics_image(
                s0.caustics,
                w2,
                s0.extent,
                s0.texture.width as int,
                s0.texture.height as int,
                t2,
                i,
            ),
        s1.texture.frame == s1.frame,
        s2.texture.frame == s2.frame,
        s2.texture.frame == s1.texture.frame + 1,
{
}

} // verus!
