//! What a render pipeline is made from: the bind group layouts in the
//! order of their slots, the two shader stages, and the fixed settings
//! that all pipelines of the renderer share.

use vstd::prelude::*;

verus! {

#[derive(Clone, Copy, Debug, PartialEq, Eq, Structural)]
pub enum PrimitiveTopology {
    PointList,
    LineList,
    LineStrip,
    TriangleList,
    TriangleStrip,
}

#[derive(Clone, Copy, Debug, PartialEq, Eq, Structural)]
pub enum IndexFormat {
    Uint16,
    Uint32,
}

/// One shader stage: a compiled module and the function that it starts at.
pub struct ProgrammableStage<'a, S> {
    pub module: &'a S,
    pub entry_point: &'static str,
}

/// Everything that decides a render pipeline but its rasterization, colour
/// and depth states and its vertex buffers, which go to the device as the
/// caller has them. `L` is the type of a bind group layout and `S` that of
/// a shader module.
pub struct RenderPipelinePlan<'a, L, S> {
    /// The bind group layouts of the pipeline, by slot.
    pub bind_group_layouts: Vec<&'a L>,
    pub vertex_stage: ProgrammableStage<'a, S>,
    pub fragment_stage: ProgrammableStage<'a, S>,
    pub primitive_topology: PrimitiveTopology,
    pub index_format: IndexFormat,
    pub sample_count: u32,
    pub sample_mask: u32,
    pub alpha_to_coverage_enabled: bool,
}

impl<'a, L, S> RenderPipelinePlan<'a, L, S> {
    /// The settings that every pipeline of the renderer has: both stages
    /// start at `main`, indices are 32 bits wide, and there is one sample
    /// per pixel, with every sample enabled and no alpha to coverage.
    pub open spec fn has_fixed_settings(&self) -> bool {
        &&& self.vertex_stage.entry_point == "main"
        &&& self.fragment_stage.entry_point == "main"
        &&& self.index_format == IndexFormat::Uint32
        &&& self.sample_count == 1
        &&& self.sample_mask == 0xFFFF_FFFFu32
        &&& !self.alpha_to_coverage_enabled
    }

    /// The layouts by value.
    pub open spec fn layouts(&self) -> Seq<L> {
        Seq::new(self.bind_group_layouts@.len(), |i: int| *self.bind_group_layouts@[i])
    }
}

/// Plans a pipeline over the given bind group layouts, which are taken in
/// the order in which they come.
pub fn create_render_pipeline<'a, L, S>(
    bind_group_layouts: Vec<&'a L>,
    vertex_shader: &'a S,
    fragment_shader: &'a S,
    primitive_topology: PrimitiveTopology,
) -> (plan: RenderPipelinePlan<'a, L, S>)
    ensures
        plan.bind_group_layouts == bind_group_layouts,
        plan.vertex_stage.module == vertex_shader,
        plan.fragment_stage.module == fragment_shader,
        plan.primitive_topology == primitive_topology,
        plan.has_fixed_settings(),
{
    RenderPipelinePlan {
        bind_group_layouts,
        vertex_stage: ProgrammableStage { module: vertex_shader, entry_point: "main" },
        fragment_stage: ProgrammableStage { module: fragment_shader, entry_point: "main" },
        primitive_topology,
        index_format: IndexFormat::Uint32,
        sample_count: 1,
        sample_mask: 0xFFFF_FFFFu32,
        alpha_to_coverage_enabled: false,
    }
}

/// References to the layouts of `prefix`, then to those of `own`.
pub fn chain_layouts<'a, L>(prefix: &'a [L], own: &'a [L]) -> (all: Vec<&'a L>)
    ensures
        all@.len() == prefix@.len() + own@.len(),
        forall|i: int| 0 <= i < prefix@.len() ==> *#[trigger] all@[i] == prefix@[i],
        forall|i: int|
            prefix@.len() <= i < all@.len() ==> *#[trigger] all@[i] == own@[i - prefix@.len()],
{
    let mut all: Vec<&'a L> = Vec::new();
    let mut i: usize = 0;
    while i < prefix.len()
        invariant
            i <= prefix@.len(),
            all@.len() == i,
            forall|k: int| 0 <= k < i ==> *#[trigger] all@[k] == prefix@[k],
        decreases prefix@.len() - i,
    {
        all.push(&prefix[i]);
        i = i + 1;
    }
    let mut j: usize = 0;
    while j < own.len()
        invariant
            j <= own@.len(),
            all@.len() == prefix@.len() + j,
            forall|k: int| 0 <= k < prefix@.len() ==> *#[trigger] all@[k] == prefix@[k],
            forall|k: int|
                prefix@.len() <= k < prefix@.len() + j ==> *#[trigger] all@[k] == own@[k
                    - prefix@.len()],
        decreases own@.len() - j,
    {
        all.push(&own[j]);
        j = j + 1;
    }
    all
}

/// Plans a pipeline whose bind group layouts are those of
/// `bind_group_layout_prefix`, which it shares with other pipelines,
/// followed by its `own`. The layout of slot `n` is thus the `n`th of the
/// prefix, or the one that many places further on among its own.
pub fn create_pipeline<'a, L, S>(
    bind_group_layout_prefix: &'a [L],
    own: &'a [L],
    vertex_shader: &'a S,
    fragment_shader: &'a S,
    primitive_topology: PrimitiveTopology,
) -> (plan: RenderPipelinePlan<'a, L, S>)
    ensures
        plan.layouts() == bind_group_layout_prefix@ + own@,
        plan.vertex_stage.module == vertex_shader,
        plan.fragment_stage.module == fragment_shader,
        plan.primitive_topology == primitive_topology,
        plan.has_fixed_settings(),
{
    let layouts: Vec<&'a L> = chain_layouts(bind_group_layout_prefix, own);
    let plan = create_render_pipeline(layouts, vertex_shader, fragment_shader, primitive_topology);
    assert(plan.layouts() =~= bind_group_layout_prefix@ + own@);
    plan
}

} // verus!
