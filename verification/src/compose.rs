//! Layered material composition.
//!
//! A shading contract is a list of logical resources (uniform blocks,
//! textures, samplers) plus a vertex and a fragment stage reference.  A
//! composed material merges one base contract with an ordered list of
//! extension contracts into a single binding table and one effective
//! stage pair:
//!
//! * the base's resources occupy the low slot block `0..SLOT_BLOCK`;
//! * extension `k` (in list order) occupies the block starting at
//!   `(k + 1) * SLOT_BLOCK`, so no two layers can ever collide;
//! * an extension whose stage references are `Inherit` contributes no
//!   shading logic (a "bind-only" extension) and leaves the effective
//!   stages of the layers below it untouched;
//! * two layers claiming the same logical resource is a configuration
//!   error reported at composition time, never at render time.
//!
//! Slot assignment is a pure function of the input list, so the same
//! contracts produce the same binding layout on every frame.

use vstd::prelude::*;

verus! {

/// Width of the slot range reserved for each layer.
pub const SLOT_BLOCK: u64 = 100;

/// Most extension layers a composed material may carry.
pub const MAX_LAYERS: usize = 100;

/// What a bound resource is, as the binding layout cares about it.
#[derive(Clone, Copy, PartialEq, Eq, Structural, Debug)]
pub enum ResourceKind {
    Uniform,
    Texture,
    Sampler,
}

/// A conceptual binding: a kind plus a logical name.  Two layers
/// claiming the same logical resource conflict regardless of slots.
#[derive(Clone, Copy, PartialEq, Eq, Structural, Debug)]
pub struct LogicalResource {
    pub kind: ResourceKind,
    pub name: u64,
}

/// An opaque stage program reference, keyed by logical name and
/// resolved by the asset loader outside this crate.  `Inherit` claims
/// no stage of its own: the layer below provides the logic.
#[derive(Clone, Copy, PartialEq, Eq, Structural, Debug)]
pub enum ShaderStageRef {
    Inherit,
    Water,
    Caustics,
    CausticsVertex,
    CausticsFragment,
    Underwater,
}

/// One layer's shading contract: its bound resources and its stage
/// references.  Base contracts and extension contracts share this
/// shape; a bind-only extension carries resources and two `Inherit`s.
#[derive(Clone, PartialEq, Eq, Debug)]
pub struct MaterialContract {
    pub resources: Vec<LogicalResource>,
    pub vertex: ShaderStageRef,
    pub fragment: ShaderStageRef,
}

/// Which triangle side a pipeline culls.
#[derive(Clone, Copy, PartialEq, Eq, Structural, Debug)]
pub enum Face {
    Front,
    Back,
}

/// Depth comparison a pipeline's depth test uses.
#[derive(Clone, Copy, PartialEq, Eq, Structural, Debug)]
pub enum CompareFunction {
    Less,
    Always,
}

/// Depth-stencil portion of a pipeline descriptor.
#[derive(Clone, Copy, PartialEq, Eq, Debug)]
pub struct DepthStencilState {
    pub depth_compare: CompareFunction,
}

/// The slice of the render-pipeline configuration the materials here
/// specialize: culling and the depth test.
#[derive(Clone, Copy, PartialEq, Eq, Debug)]
pub struct RenderPipelineDescriptor {
    pub cull_mode: Option<Face>,
    pub depth_stencil: Option<DepthStencilState>,
}

impl Default for RenderPipelineDescriptor {
    /// Back-face culling and an ordinary depth test.
    fn default() -> (r: RenderPipelineDescriptor)
        ensures
            r.cull_mode == Some(Face::Back),
            r.depth_stencil == Some(DepthStencilState { depth_compare: CompareFunction::Less }),
    {
        RenderPipelineDescriptor {
            cull_mode: Some(Face::Back),
            depth_stencil: Some(DepthStencilState { depth_compare: CompareFunction::Less }),
        }
    }
}

/// A resource attached to its concrete numeric slot.
#[derive(Clone, Copy, PartialEq, Eq, Structural, Debug)]
pub struct SlotBinding {
    pub resource: LogicalResource,
    pub slot: u64,
}

/// The merged material: one flat binding table and the effective
/// stage pair.
#[derive(Clone, PartialEq, Eq, Debug)]
pub struct ComposedMaterial {
    pub bindings: Vec<SlotBinding>,
    pub vertex: ShaderStageRef,
    pub fragment: ShaderStageRef,
}

/// Configuration errors, all surfaced at setup time (spec: none of
/// these may first appear during a frame).
#[derive(Clone, Copy, PartialEq, Eq, Structural, Debug)]
pub enum ConfigError {
    /// Two layers claim the same logical resource.
    ResourceCollision,
    /// A single layer declares more resources than its slot block holds.
    LayerTooLarge,
    /// More extension layers than the slot numbering accommodates.
    TooManyLayers,
    /// A reference plane whose normal is the zero vector.
    DegeneratePlane,
    /// A required texture handle was never populated.
    MissingCausticsTexture,
}

impl MaterialContract {
    /// An extension that only makes resources available, overriding no
    /// shading stage.
    pub open spec fn is_bind_only(self) -> bool {
        self.vertex == ShaderStageRef::Inherit && self.fragment == ShaderStageRef::Inherit
    }
}

/// Logical name of the host's standard opaque material block.
pub const RES_STANDARD: u64 = 6;

/// The host's standard lit material as a base contract: one opaque
/// resource block, with both stages inherited — at the base of a
/// stack, `Inherit` reads as the engine's built-in stage programs.
pub fn standard_base_contract() -> (c: MaterialContract)
    ensures
        c.resources@ == seq![
            LogicalResource { kind: ResourceKind::Uniform, name: RES_STANDARD },
        ],
        c.vertex == ShaderStageRef::Inherit,
        c.fragment == ShaderStageRef::Inherit,
{
    let mut resources: Vec<LogicalResource> = Vec::new();
    resources.push(LogicalResource { kind: ResourceKind::Uniform, name: RES_STANDARD });
    proof {
        assert(resources@ =~= seq![
            LogicalResource { kind: ResourceKind::Uniform, name: RES_STANDARD },
        ]);
    }
    MaterialContract {
        resources,
        vertex: ShaderStageRef::Inherit,
        fragment: ShaderStageRef::Inherit,
    }
}

/// The bindings of one layer: its resources in declaration order,
/// attached to consecutive slots from the start of the layer's block.
pub open spec fn layer_bindings(rs: Seq<LogicalResource>, block: int) -> Seq<SlotBinding> {
    Seq::new(rs.len(), |j: int| SlotBinding { resource: rs[j], slot: (block + j) as u64 })
}

/// The bindings of the extension layers from index `k` on, each in its
/// own block.
pub open spec fn ext_bindings(em: Seq<Seq<LogicalResource>>, k: int) -> Seq<SlotBinding>
    decreases em.len() - k,
{
    if k < 0 || k >= em.len() {
        Seq::empty()
    } else {
        layer_bindings(em[k], (k + 1) * (SLOT_BLOCK as int)) + ext_bindings(em, k + 1)
    }
}

/// The full binding table of a composed material.
pub open spec fn compose_bindings(
    bm: Seq<LogicalResource>,
    em: Seq<Seq<LogicalResource>>,
) -> Seq<SlotBinding> {
    layer_bindings(bm, 0) + ext_bindings(em, 0)
}

/// The resources of the extension layers from index `k` on, flattened
/// in layer order.
pub open spec fn ext_resources(em: Seq<Seq<LogicalResource>>, k: int) -> Seq<LogicalResource>
    decreases em.len() - k,
{
    if k < 0 || k >= em.len() {
        Seq::empty()
    } else {
        em[k] + ext_resources(em, k + 1)
    }
}

/// Every logical resource any layer declares, in layer order.
pub open spec fn all_resources(
    bm: Seq<LogicalResource>,
    em: Seq<Seq<LogicalResource>>,
) -> Seq<LogicalResource> {
    bm + ext_resources(em, 0)
}

/// Some logical resource occurs twice.
pub open spec fn has_duplicate(s: Seq<LogicalResource>) -> bool {
    exists|i: int, j: int| 0 <= i < j < s.len() && s[i] == s[j]
}

/// Some layer declares more resources than fit in one slot block.
pub open spec fn oversized_layer(bm: Seq<LogicalResource>, em: Seq<Seq<LogicalResource>>) -> bool {
    bm.len() > SLOT_BLOCK || exists|k: int| 0 <= k < em.len() && em[k].len() > SLOT_BLOCK
}

/// The stage that actually runs: the last extension that overrides the
/// stage wins; if none does, the base's stage runs.
pub open spec fn effective_stage(base: ShaderStageRef, exts: Seq<ShaderStageRef>) -> ShaderStageRef
    decreases exts.len(),
{
    if exts.len() == 0 {
        base
    } else if exts.last() != ShaderStageRef::Inherit {
        exts.last()
    } else {
        effective_stage(base, exts.drop_last())
    }
}

/// The configuration error `compose` reports, or `None` when the
/// layering is acceptable.  Checked in this order: layer count, block
/// capacity, logical-resource collisions.
pub open spec fn compose_err(
    bm: Seq<LogicalResource>,
    em: Seq<Seq<LogicalResource>>,
) -> Option<ConfigError> {
    if em.len() > MAX_LAYERS {
        Some(ConfigError::TooManyLayers)
    } else if oversized_layer(bm, em) {
        Some(ConfigError::LayerTooLarge)
    } else if has_duplicate(all_resources(bm, em)) {
        Some(ConfigError::ResourceCollision)
    } else {
        None
    }
}

/// View of an extension list as its per-layer resource sequences.
pub open spec fn resources_view(exts: Seq<MaterialContract>) -> Seq<Seq<LogicalResource>> {
    exts.map_values(|e: MaterialContract| e.resources@)
}

/// View of an extension list as its vertex-stage references.
pub open spec fn vertex_view(exts: Seq<MaterialContract>) -> Seq<ShaderStageRef> {
    exts.map_values(|e: MaterialContract| e.vertex)
}

/// View of an extension list as its fragment-stage references.
pub open spec fn fragment_view(exts: Seq<MaterialContract>) -> Seq<ShaderStageRef> {
    exts.map_values(|e: MaterialContract| e.fragment)
}

/// Merges a base contract with an ordered list of extension contracts.
/// On success the binding table is exactly `compose_bindings` and the
/// stage pair is the effective one; the error cases are pinned by
/// `compose_err`.
pub fn compose(base: &MaterialContract, extensions: &Vec<MaterialContract>) -> (r: Result<
    ComposedMaterial,
    ConfigError,
>)
    ensures
        match r {
            Err(e) => compose_err(base.resources@, resources_view(extensions@)) == Some(e),
            Ok(c) => {
                &&& compose_err(base.resources@, resources_view(extensions@)) is None
                &&& c.bindings@ == compose_bindings(base.resources@, resources_view(extensions@))
                &&& c.vertex == effective_stage(base.vertex, vertex_view(extensions@))
                &&& c.fragment == effective_stage(base.fragment, fragment_view(extensions@))
            },
        },
{
    let ghost em = resources_view(extensions@);
    proof {
        assert(em.len() == extensions@.len());
    }
    if extensions.len() > MAX_LAYERS {
        return Err(ConfigError::TooManyLayers);
    }
    if base.resources.len() > SLOT_BLOCK as usize {
        return Err(ConfigError::LayerTooLarge);
    }
    for k in 0..extensions.len()
        invariant
            em == resources_view(extensions@),
            em.len() <= MAX_LAYERS,
            base.resources@.len() <= SLOT_BLOCK,
            forall|j: int| 0 <= j < k ==> #[trigger] em[j].len() <= SLOT_BLOCK,
    {
        if extensions[k].resources.len() > SLOT_BLOCK as usize {
            assert(em[k as int].len() > SLOT_BLOCK);
            return Err(ConfigError::LayerTooLarge);
        }
    }
    assert(!oversized_layer(base.resources@, em));

    let all = gather_resources(base, extensions);
    if let Some(e) = find_duplicate(&all) {
        return Err(e);
    }

    let bindings = assign_slots(base, extensions);
    let vertex = resolve_stage(base.vertex, extensions, true);
    let fragment = resolve_stage(base.fragment, extensions, false);
    Ok(ComposedMaterial { bindings, vertex, fragment })
}

/// Flattens every layer's resources in layer order.
fn gather_resources(base: &MaterialContract, extensions: &Vec<MaterialContract>) -> (all: Vec<
    LogicalResource,
>)
    ensures
        all@ == all_resources(base.resources@, resources_view(extensions@)),
{
    let ghost bm = base.resources@;
    let ghost em = resources_view(extensions@);
    let mut all: Vec<LogicalResource> = Vec::new();
    for i in 0..base.resources.len()
        invariant
            bm == base.resources@,
            all@ == bm.take(i as int),
    {
        all.push(base.resources[i]);
        assert(all@ =~= bm.take(i + 1));
    }
    assert(all@ =~= bm);
    for k in 0..extensions.len()
        invariant
            em == resources_view(extensions@),
            all@ + ext_resources(em, k as int) =~= all_resources(bm, em),
    {
        let ghost before = all@;
        let layer = &extensions[k].resources;
        for i in 0..layer.len()
            invariant
                em == resources_view(extensions@),
                0 <= k < extensions@.len(),
                layer@ == em[k as int],
                all@ == before + layer@.take(i as int),
        {
            all.push(layer[i]);
            assert(all@ =~= before + layer@.take(i + 1));
        }
        proof {
            assert(all@ =~= before + em[k as int]);
            assert(ext_resources(em, k as int) == em[k as int] + ext_resources(em, k + 1));
            assert(all@ + ext_resources(em, k + 1) =~= before + ext_resources(em, k as int));
        }
    }
    proof {
        assert(ext_resources(em, extensions@.len() as int) =~= Seq::<LogicalResource>::empty());
        assert(all@ =~= all_resources(bm, em));
    }
    all
}

/// Scans for two occurrences of one logical resource.
fn find_duplicate(all: &Vec<LogicalResource>) -> (r: Option<ConfigError>)
    ensures
        match r {
            Some(e) => e == ConfigError::ResourceCollision && has_duplicate(all@),
            None => !has_duplicate(all@),
        },
{
    let n = all.len();
    if n < 2 {
        return None;
    }
    for j in 1..n
        invariant
            2 <= n == all@.len(),
            forall|a: int, b: int| 0 <= a < b < j ==> all@[a] != all@[b],
    {
        for i in 0..j
            invariant
                n == all@.len(),
                j < n,
                forall|a: int, b: int| 0 <= a < b < j ==> all@[a] != all@[b],
                forall|a: int| 0 <= a < i ==> all@[a] != all@[j as int],
        {
            if all[i] == all[j] {
                return Some(ConfigError::ResourceCollision);
            }
        }
    }
    None
}

/// Builds the binding table: base block first, then one block per
/// extension in list order.
fn assign_slots(base: &MaterialContract, extensions: &Vec<MaterialContract>) -> (bindings: Vec<
    SlotBinding,
>)
    requires
        base.resources@.len() <= SLOT_BLOCK,
        extensions@.len() <= MAX_LAYERS,
        forall|k: int|
            0 <= k < extensions@.len() ==> #[trigger] resources_view(extensions@)[k].len()
                <= SLOT_BLOCK,
    ensures
        bindings@ == compose_bindings(base.resources@, resources_view(extensions@)),
{
    let ghost bm = base.resources@;
    let ghost em = resources_view(extensions@);
    let mut bindings: Vec<SlotBinding> = Vec::new();
    push_layer(&mut bindings, &base.resources, 0);
    assert(bindings@ =~= layer_bindings(bm, 0));
    for k in 0..extensions.len()
        invariant
            em == resources_view(extensions@),
            extensions@.len() <= MAX_LAYERS,
            forall|j: int| 0 <= j < em.len() ==> #[trigger] em[j].len() <= SLOT_BLOCK,
            bindings@ + ext_bindings(em, k as int) =~= compose_bindings(bm, em),
    {
        let ghost before = bindings@;
        let block = (k as u64 + 1) * SLOT_BLOCK;
        push_layer(&mut bindings, &extensions[k].resources, block);
        proof {
            assert(ext_bindings(em, k as int) == layer_bindings(
                em[k as int],
                (k + 1) * (SLOT_BLOCK as int),
            ) + ext_bindings(em, k + 1));
            assert(bindings@ + ext_bindings(em, k + 1) =~= before + ext_bindings(em, k as int));
        }
    }
    proof {
        assert(ext_bindings(em, extensions@.len() as int) =~= Seq::<SlotBinding>::empty());
        assert(bindings@ =~= compose_bindings(bm, em));
    }
    bindings
}

/// Appends one layer's bindings, slots counted from `block`.
fn push_layer(bindings: &mut Vec<SlotBinding>, rs: &Vec<LogicalResource>, block: u64)
    requires
        block <= 0x1_0000_0000,
        rs@.len() <= SLOT_BLOCK,
    ensures
        final(bindings)@ == old(bindings)@ + layer_bindings(rs@, block as int),
{
    let ghost before = bindings@;
    for i in 0..rs.len()
        invariant
            block <= 0x1_0000_0000,
            rs@.len() <= SLOT_BLOCK,
            bindings@ == before + layer_bindings(rs@, block as int).take(i as int),
    {
        bindings.push(SlotBinding { resource: rs[i], slot: block + i as u64 });
        assert(bindings@ =~= before + layer_bindings(rs@, block as int).take(i + 1));
    }
    assert(bindings@ =~= before + layer_bindings(rs@, block as int));
}

/// Walks the extension list and keeps the last stage override.
fn resolve_stage(base: ShaderStageRef, extensions: &Vec<MaterialContract>, vertex: bool) -> (r:
    ShaderStageRef)
    ensures
        vertex ==> r == effective_stage(base, vertex_view(extensions@)),
        !vertex ==> r == effective_stage(base, fragment_view(extensions@)),
{
    let ghost sv = if vertex {
        vertex_view(extensions@)
    } else {
        fragment_view(extensions@)
    };
    let mut cur = base;
    for k in 0..extensions.len()
        invariant
            sv == if vertex {
                vertex_view(extensions@)
            } else {
                fragment_view(extensions@)
            },
            cur == effective_stage(base, sv.take(k as int)),
    {
        let s = if vertex {
            extensions[k].vertex
        } else {
            extensions[k].fragment
        };
        if !matches!(s, ShaderStageRef::Inherit) {
            cur = s;
        }
        proof {
            let t = sv.take(k + 1);
            assert(t.last() == sv[k as int]);
            assert(t.drop_last() =~= sv.take(k as int));
        }
    }
    assert(sv.take(extensions@.len() as int) =~= sv);
    cur
}

/// Resource count of the first `k` extension layers.
pub open spec fn ext_count_upto(em: Seq<Seq<LogicalResource>>, k: int) -> int
    decreases k,
{
    if k <= 0 {
        0
    } else {
        ext_count_upto(em, k - 1) + em[k - 1].len()
    }
}

proof fn lemma_ext_count_nondecreasing(em: Seq<Seq<LogicalResource>>, k1: int, k2: int)
    requires
        k1 <= k2,
    ensures
        ext_count_upto(em, k1) <= ext_count_upto(em, k2),
    decreases k2 - k1,
{
    if k1 < k2 {
        lemma_ext_count_nondecreasing(em, k1, k2 - 1);
    }
}

/// Where each extension layer's bindings sit inside the suffix table
/// `ext_bindings(em, k)`, and which slot each one carries.
proof fn lemma_ext_bindings_layout(em: Seq<Seq<LogicalResource>>, k: int)
    requires
        0 <= k <= em.len(),
    ensures
        ext_bindings(em, k).len() == ext_count_upto(em, em.len() as int) - ext_count_upto(em, k),
        forall|k2: int, j: int|
            k <= k2 < em.len() && 0 <= j < em[k2].len() ==> ext_bindings(em, k)[ext_count_upto(
                em,
                k2,
            ) - ext_count_upto(em, k) + j] == (SlotBinding {
                resource: em[k2][j],
                slot: ((k2 + 1) * (SLOT_BLOCK as int) + j) as u64,
            }),
    decreases em.len() - k,
{
    if k < em.len() {
        lemma_ext_bindings_layout(em, k + 1);
        lemma_ext_count_nondecreasing(em, k + 1, em.len() as int);
        assert forall|k2: int, j: int|
            k <= k2 < em.len() && 0 <= j < em[k2].len() implies ext_bindings(em, k)[ext_count_upto(
            em,
            k2,
        ) - ext_count_upto(em, k) + j] == (SlotBinding {
            resource: em[k2][j],
            slot: ((k2 + 1) * (SLOT_BLOCK as int) + j) as u64,
        }) by {
            if k2 == k {
                assert(ext_bindings(em, k)[j] == layer_bindings(
                    em[k],
                    (k + 1) * (SLOT_BLOCK as int),
                )[j]);
            } else {
                lemma_ext_count_nondecreasing(em, k + 1, k2);
                lemma_ext_count_nondecreasing(em, k2 + 1, em.len() as int);
                assert(ext_count_upto(em, k + 1) == ext_count_upto(em, k) + em[k].len());
                assert(ext_count_upto(em, k2 + 1) == ext_count_upto(em, k2) + em[k2].len());
                assert(ext_bindings(em, k)[ext_count_upto(em, k2) - ext_count_upto(em, k) + j]
                    == ext_bindings(em, k + 1)[ext_count_upto(em, k2) - ext_count_upto(em, k + 1)
                    + j]);
            }
        }
    }
}

/// Every slot in the suffix table `ext_bindings(em, k)` lies in the
/// block range of the layers `k..em.len()`.
proof fn lemma_ext_bindings_slot_range(em: Seq<Seq<LogicalResource>>, k: int)
    requires
        0 <= k <= em.len(),
        em.len() <= MAX_LAYERS,
        forall|k2: int| 0 <= k2 < em.len() ==> #[trigger] em[k2].len() <= SLOT_BLOCK,
    ensures
        forall|t: int|
            0 <= t < ext_bindings(em, k).len() ==> (k + 1) * (SLOT_BLOCK as int) <= #[trigger] ext_bindings(
                em,
                k,
            )[t].slot < (em.len() + 1) * (SLOT_BLOCK as int),
    decreases em.len() - k,
{
    if k < em.len() {
        lemma_ext_bindings_slot_range(em, k + 1);
        assert forall|t: int| 0 <= t < ext_bindings(em, k).len() implies (k + 1) * (
        SLOT_BLOCK as int) <= #[trigger] ext_bindings(em, k)[t].slot < (em.len() + 1) * (
        SLOT_BLOCK as int) by {
            let layer = layer_bindings(em[k], (k + 1) * (SLOT_BLOCK as int));
            if t < layer.len() {
                assert(ext_bindings(em, k)[t] == layer[t]);
                assert((k + 1) * (SLOT_BLOCK as int) + em[k].len() <= (k + 2) * (SLOT_BLOCK as int));
                assert((k + 2) * (SLOT_BLOCK as int) <= (em.len() + 1) * (SLOT_BLOCK as int));
            } else {
                assert(ext_bindings(em, k)[t] == ext_bindings(em, k + 1)[t - layer.len()]);
                assert((k + 1) * (SLOT_BLOCK as int) <= (k + 2) * (SLOT_BLOCK as int));
            }
        }
    }
}

/// No two bindings of the suffix table share a slot.
proof fn lemma_ext_bindings_injective(em: Seq<Seq<LogicalResource>>, k: int)
    requires
        0 <= k <= em.len(),
        em.len() <= MAX_LAYERS,
        forall|k2: int| 0 <= k2 < em.len() ==> #[trigger] em[k2].len() <= SLOT_BLOCK,
    ensures
        forall|a: int, b: int|
            0 <= a < b < ext_bindings(em, k).len() ==> #[trigger] ext_bindings(em, k)[a].slot
                != #[trigger] ext_bindings(em, k)[b].slot,
    decreases em.len() - k,
{
    if k < em.len() {
        lemma_ext_bindings_injective(em, k + 1);
        lemma_ext_bindings_slot_range(em, k + 1);
        assert forall|a: int, b: int|
            0 <= a < b < ext_bindings(em, k).len() implies #[trigger] ext_bindings(em, k)[a].slot
            != #[trigger] ext_bindings(em, k)[b].slot by {
            let layer = layer_bindings(em[k], (k + 1) * (SLOT_BLOCK as int));
            if b < layer.len() {
                assert(ext_bindings(em, k)[a] == layer[a]);
                assert(ext_bindings(em, k)[b] == layer[b]);
            } else if a < layer.len() {
                assert(ext_bindings(em, k)[a] == layer[a]);
                assert(ext_bindings(em, k)[b] == ext_bindings(em, k + 1)[b - layer.len()]);
                assert(layer[a].slot < (k + 2) * (SLOT_BLOCK as int));
            } else {
                assert(ext_bindings(em, k)[a] == ext_bindings(em, k + 1)[a - layer.len()]);
                assert(ext_bindings(em, k)[b] == ext_bindings(em, k + 1)[b - layer.len()]);
            }
        }
    }
}

/// Slot assignment is collision-free: no two bindings of a composed
/// material ever share a slot, however many layers contribute.
pub proof fn lemma_slots_injective(bm: Seq<LogicalResource>, em: Seq<Seq<LogicalResource>>)
    requires
        bm.len() <= SLOT_BLOCK,
        em.len() <= MAX_LAYERS,
        forall|k: int| 0 <= k < em.len() ==> #[trigger] em[k].len() <= SLOT_BLOCK,
    ensures
        forall|a: int, b: int|
            0 <= a < b < compose_bindings(bm, em).len() ==> #[trigger] compose_bindings(
                bm,
                em,
            )[a].slot != #[trigger] compose_bindings(bm, em)[b].slot,
{
    lemma_ext_bindings_injective(em, 0);
    lemma_ext_bindings_slot_range(em, 0);
    let cb = compose_bindings(bm, em);
    let base = layer_bindings(bm, 0);
    assert forall|a: int, b: int| 0 <= a < b < cb.len() implies #[trigger] cb[a].slot
        != #[trigger] cb[b].slot by {
        if b < base.len() {
            assert(cb[a] == base[a]);
            assert(cb[b] == base[b]);
        } else if a < base.len() {
            assert(cb[a] == base[a]);
            assert(cb[b] == ext_bindings(em, 0)[b - base.len()]);
            assert(base[a].slot < SLOT_BLOCK);
        } else {
            assert(cb[a] == ext_bindings(em, 0)[a - base.len()]);
            assert(cb[b] == ext_bindings(em, 0)[b - base.len()]);
        }
    }
}

/// A base and two extensions without a shared logical resource compose
/// successfully, and the three layers land in pairwise disjoint slot
/// ranges: the base in `0..SLOT_BLOCK`, the first extension in the
/// block from `SLOT_BLOCK`, the second in the block above it.
pub proof fn lemma_two_extensions_compose(
    bm: Seq<LogicalResource>,
    e1: Seq<LogicalResource>,
    e2: Seq<LogicalResource>,
    em: Seq<Seq<LogicalResource>>,
)
    requires
        bm.len() <= SLOT_BLOCK,
        e1.len() <= SLOT_BLOCK,
        e2.len() <= SLOT_BLOCK,
        !has_duplicate(bm + e1 + e2),
        em == seq![e1, e2],
    ensures
        compose_err(bm, em) is None,
        forall|j: int| 0 <= j < bm.len() ==> #[trigger] compose_bindings(bm, em)[j].slot == j,
        forall|j: int|
            0 <= j < e1.len() ==> #[trigger] compose_bindings(bm, em)[bm.len() + j].slot
                == SLOT_BLOCK + j,
        forall|j: int|
            0 <= j < e2.len() ==> #[trigger] compose_bindings(bm, em)[bm.len() + e1.len() + j].slot
                == 2 * SLOT_BLOCK + j,
{
    assert(ext_resources(em, 2) =~= Seq::<LogicalResource>::empty());
    assert(ext_resources(em, 1) =~= e2);
    assert(ext_resources(em, 0) =~= e1 + e2);
    assert(all_resources(bm, em) =~= bm + e1 + e2);
    lemma_ext_bindings_layout(em, 0);
    assert(ext_count_upto(em, 0) == 0);
    assert(ext_count_upto(em, 1) == e1.len());
    let cb = compose_bindings(bm, em);
    let base = layer_bindings(bm, 0);
    assert forall|j: int| 0 <= j < bm.len() implies #[trigger] cb[j].slot == j by {
        assert(cb[j] == base[j]);
    }
    assert forall|j: int| 0 <= j < e1.len() implies #[trigger] cb[bm.len() + j].slot == SLOT_BLOCK
        + j by {
        assert(cb[bm.len() + j] == ext_bindings(em, 0)[j]);
    }
    assert forall|j: int| 0 <= j < e2.len() implies #[trigger] cb[bm.len() + e1.len() + j].slot == 2
        * SLOT_BLOCK + j by {
        assert(ext_bindings(em, 0)[ext_count_upto(em, 1) - ext_count_upto(em, 0) + j]
            == (SlotBinding { resource: e2[j], slot: (2 * (SLOT_BLOCK as int) + j) as u64 }));
        assert(cb[bm.len() + e1.len() + j] == ext_bindings(em, 0)[e1.len() + j]);
    }
}

/// Two extensions claiming one logical resource are rejected with a
/// configuration error at composition time.
pub proof fn lemma_shared_resource_collides(
    bm: Seq<LogicalResource>,
    e1: Seq<LogicalResource>,
    e2: Seq<LogicalResource>,
    r: LogicalResource,
)
    requires
        bm.len() <= SLOT_BLOCK,
        e1.len() <= SLOT_BLOCK,
        e2.len() <= SLOT_BLOCK,
        e1.contains(r),
        e2.contains(r),
    ensures
        compose_err(bm, seq![e1, e2]) == Some(ConfigError::ResourceCollision),
{
    let em = seq![e1, e2];
    assert(ext_resources(em, 2) =~= Seq::<LogicalResource>::empty());
    assert(ext_resources(em, 1) =~= e2);
    assert(ext_resources(em, 0) =~= e1 + e2);
    let all = all_resources(bm, em);
    assert(all =~= bm + e1 + e2);
    let i1 = choose|i: int| 0 <= i < e1.len() && e1[i] == r;
    let i2 = choose|i: int| 0 <= i < e2.len() && e2[i] == r;
    assert(all[bm.len() + i1] == r);
    assert(all[bm.len() + e1.len() + i2] == r);
    assert(has_duplicate(all));
}

/// A bind-only extension appended to any layer stack leaves both
/// effective stages untouched: with the stage chain unchanged and no
/// sampled value contributed, the composed material's per-pixel output
/// is exactly the output of the layers below it.
pub proof fn lemma_bind_only_pass_through(
    base: MaterialContract,
    exts: Seq<MaterialContract>,
    e: MaterialContract,
)
    requires
        e.is_bind_only(),
    ensures
        effective_stage(base.vertex, vertex_view(exts.push(e))) == effective_stage(
            base.vertex,
            vertex_view(exts),
        ),
        effective_stage(base.fragment, fragment_view(exts.push(e))) == effective_stage(
            base.fragment,
            fragment_view(exts),
        ),
{
    assert(vertex_view(exts.push(e)) =~= vertex_view(exts).push(e.vertex));
    assert(fragment_view(exts.push(e)) =~= fragment_view(exts).push(e.fragment));
    assert(vertex_view(exts.push(e)).drop_last() =~= vertex_view(exts));
    assert(fragment_view(exts.push(e)).drop_last() =~= fragment_view(exts));
}

} // verus!
