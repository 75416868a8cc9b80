//! The bind groups that every pipeline shares: their ids, the shapes of
//! their layouts, and what is bound in them.

use crate::error::{RenderError, RenderErrorKind};
use vstd::prelude::*;

verus! {

/// The slots at which bind groups are attached. The first two are the same
/// for every pipeline; the others are each pipeline's own.
#[derive(Clone, Copy, Debug, PartialEq, Eq, Structural)]
pub enum BindGroupLayoutId {
    PerFrame,
    PerEntity,
    PerTexture,
    PerFace,
}

/// The number of bind group layouts that all pipelines share.
pub const SHARED_LAYOUT_COUNT: usize = 2;

impl BindGroupLayoutId {
    pub open spec fn spec_index(self) -> usize {
        match self {
            BindGroupLayoutId::PerFrame => 0,
            BindGroupLayoutId::PerEntity => 1,
            BindGroupLayoutId::PerTexture => 2,
            BindGroupLayoutId::PerFace => 3,
        }
    }

    /// The number of the slot.
    #[verifier::when_used_as_spec(spec_index)]
    pub fn index(self) -> (index: usize)
        ensures
            index == self.spec_index(),
    {
        match self {
            BindGroupLayoutId::PerFrame => 0,
            BindGroupLayoutId::PerEntity => 1,
            BindGroupLayoutId::PerTexture => 2,
            BindGroupLayoutId::PerFace => 3,
        }
    }

    /// The slot with the number `index`, if there is one.
    pub fn from_index(index: usize) -> (id: Option<BindGroupLayoutId>)
        ensures
            id is Some <==> index < 4,
            id is Some ==> id.unwrap().spec_index() == index,
    {
        if index == 0 {
            Some(BindGroupLayoutId::PerFrame)
        } else if index == 1 {
            Some(BindGroupLayoutId::PerEntity)
        } else if index == 2 {
            Some(BindGroupLayoutId::PerTexture)
        } else if index == 3 {
            Some(BindGroupLayoutId::PerFace)
        } else {
            None
        }
    }

    /// Whether the layout at this slot is shared by all pipelines.
    pub open spec fn spec_is_shared(self) -> bool {
        self.spec_index() < SHARED_LAYOUT_COUNT
    }

    #[verifier::when_used_as_spec(spec_is_shared)]
    pub fn is_shared(self) -> (shared: bool)
        ensures
            shared == self.spec_is_shared(),
    {
        self.index() < SHARED_LAYOUT_COUNT
    }
}

/// Where the layout of slot `id` stands among the `own` layouts that a
/// pipeline adds behind the shared ones, if it stands there.
pub open spec fn spec_pipeline_layout_slot(id: BindGroupLayoutId, own: nat) -> Option<usize> {
    if id.spec_index() >= SHARED_LAYOUT_COUNT && id.spec_index() - SHARED_LAYOUT_COUNT < own {
        Some((id.spec_index() - SHARED_LAYOUT_COUNT) as usize)
    } else {
        None
    }
}

/// Finds the layout of slot `id` among the `own` layouts of a pipeline:
/// they are numbered on from the shared ones.
pub fn pipeline_layout_slot(id: BindGroupLayoutId, own: usize) -> (slot: Option<usize>)
    ensures
        slot == spec_pipeline_layout_slot(id, own as nat),
{
    let index: usize = id.index();
    if index >= SHARED_LAYOUT_COUNT && index - SHARED_LAYOUT_COUNT < own {
        Some(index - SHARED_LAYOUT_COUNT)
    } else {
        None
    }
}

/// The shader stages that see a binding.
#[derive(Clone, Copy, Debug, PartialEq, Eq, Structural)]
pub struct ShaderStage {
    pub vertex: bool,
    pub fragment: bool,
    pub compute: bool,
}

#[derive(Clone, Copy, Debug, PartialEq, Eq, Structural)]
pub enum BindingType {
    UniformBuffer { dynamic: bool, min_binding_size: u64 },
    Sampler { comparison: bool },
}

#[derive(Clone, Copy, Debug, PartialEq, Eq, Structural)]
pub struct BindGroupLayoutEntry {
    pub binding: u32,
    pub visibility: ShaderStage,
    pub ty: BindingType,
}

/// The shape of one bind group.
#[derive(Debug, PartialEq, Eq)]
pub struct BindGroupLayoutDescriptor {
    pub label: &'static str,
    pub bindings: Vec<BindGroupLayoutEntry>,
}

/// What is bound at a binding of a shared bind group.
#[derive(Clone, Copy, Debug, PartialEq, Eq, Structural)]
pub enum BindingResource {
    /// The whole of the buffer that holds the frame uniforms.
    FrameUniformBuffer,
    /// The first `size` bytes of the buffer that holds the entity uniforms;
    /// a dynamic offset moves the window from block to block.
    EntityUniformBuffer { size: u64 },
    /// The sampler for diffuse and fullbright textures.
    DiffuseSampler,
    /// The sampler for lightmaps.
    LightmapSampler,
}

#[derive(Clone, Copy, Debug, PartialEq, Eq, Structural)]
pub struct Binding {
    pub binding: u32,
    pub resource: BindingResource,
}

/// The contents of one bind group.
#[derive(Debug, PartialEq, Eq)]
pub struct BindGroupDescriptor {
    pub label: &'static str,
    pub layout: BindGroupLayoutId,
    pub bindings: Vec<Binding>,
}

pub open spec fn spec_all_stages() -> ShaderStage {
    ShaderStage { vertex: true, fragment: true, compute: true }
}

pub open spec fn spec_vertex_stage() -> ShaderStage {
    ShaderStage { vertex: true, fragment: false, compute: false }
}

pub open spec fn spec_fragment_stage() -> ShaderStage {
    ShaderStage { vertex: false, fragment: true, compute: false }
}

/// The bindings of the group that changes once per frame: the frame
/// uniforms, seen by all stages.
pub open spec fn spec_per_frame_bindings(frame_size: u64) -> Seq<BindGroupLayoutEntry> {
    seq![
        BindGroupLayoutEntry {
            binding: 0,
            visibility: spec_all_stages(),
            ty: BindingType::UniformBuffer { dynamic: false, min_binding_size: frame_size },
        },
    ]
}

/// The bindings of the group that changes once per entity: the entity
/// uniforms at a dynamic offset, seen by the vertex stage, and the two
/// samplers, seen by the fragment stage.
pub open spec fn spec_per_entity_bindings(entity_size: u64) -> Seq<BindGroupLayoutEntry> {
    seq![
        BindGroupLayoutEntry {
            binding: 0,
            visibility: spec_vertex_stage(),
            ty: BindingType::UniformBuffer { dynamic: true, min_binding_size: entity_size },
        },
        BindGroupLayoutEntry {
            binding: 1,
            visibility: spec_fragment_stage(),
            ty: BindingType::Sampler { comparison: false },
        },
        BindGroupLayoutEntry {
            binding: 2,
            visibility: spec_fragment_stage(),
            ty: BindingType::Sampler { comparison: false },
        },
    ]
}

/// Whether `resource` can be bound where the layout asks for `ty`.
pub open spec fn spec_resource_fits(resource: BindingResource, ty: BindingType) -> bool {
    match (resource, ty) {
        (BindingResource::FrameUniformBuffer, BindingType::UniformBuffer { dynamic, .. }) => !dynamic,
        (
            BindingResource::EntityUniformBuffer { size },
            BindingType::UniformBuffer { dynamic, min_binding_size },
        ) => dynamic && size >= min_binding_size,
        (BindingResource::DiffuseSampler, BindingType::Sampler { .. }) => true,
        (BindingResource::LightmapSampler, BindingType::Sampler { .. }) => true,
        _ => false,
    }
}

/// Whether a bind group fills every binding of a layout, in order, with a
/// resource of the right kind.
pub open spec fn spec_group_fits(group: Seq<Binding>, layout: Seq<BindGroupLayoutEntry>) -> bool {
    &&& group.len() == layout.len()
    &&& forall|i: int|
        0 <= i < group.len() ==> (#[trigger] group[i]).binding == layout[i].binding
            && spec_resource_fits(group[i].resource, layout[i].ty)
}

/// The layouts of the bind groups that all pipelines share, in the order of
/// their slots. `F` is the type of the frame uniforms and `E` that of the
/// entity uniforms: a binding is at least as large as its type. Fails where
/// one of the two occupies no bytes.
pub fn bind_group_layout_descriptors<F, E>() -> (result: Result<
    Vec<BindGroupLayoutDescriptor>,
    RenderError,
>)
    ensures
        match result {
            Ok(layouts) => {
                &&& vstd::layout::size_of::<F>() > 0
                &&& vstd::layout::size_of::<E>() > 0
                &&& layouts@.len() == SHARED_LAYOUT_COUNT
                &&& layouts@[0].label == "per-frame bind group"
                &&& layouts@[0].bindings@ == spec_per_frame_bindings(
                    vstd::layout::size_of::<F>() as u64,
                )
                &&& layouts@[1].label == "brush per-entity bind group"
                &&& layouts@[1].bindings@ == spec_per_entity_bindings(
                    vstd::layout::size_of::<E>() as u64,
                )
            },
            Err(error) => {
                &&& error.kind == RenderErrorKind::ZeroSizedBlock
                &&& (vstd::layout::size_of::<F>() == 0 || vstd::layout::size_of::<E>() == 0)
            },
        },
{
    let frame_size: usize = core::mem::size_of::<F>();
    let entity_size: usize = core::mem::size_of::<E>();
    if frame_size == 0 || entity_size == 0 {
        return Err(RenderError::new(RenderErrorKind::ZeroSizedBlock));
    }
    let all: ShaderStage = ShaderStage { vertex: true, fragment: true, compute: true };
    let vertex: ShaderStage = ShaderStage { vertex: true, fragment: false, compute: false };
    let fragment: ShaderStage = ShaderStage { vertex: false, fragment: true, compute: false };
    let per_frame: Vec<BindGroupLayoutEntry> = vec![
        BindGroupLayoutEntry {
            binding: 0,
            visibility: all,
            ty: BindingType::UniformBuffer {
                dynamic: false,
                min_binding_size: frame_size as u64,
            },
        },
    ];
    let per_entity: Vec<BindGroupLayoutEntry> = vec![
        BindGroupLayoutEntry {
            binding: 0,
            visibility: vertex,
            ty: BindingType::UniformBuffer {
                dynamic: true,
                min_binding_size: entity_size as u64,
            },
        },
        BindGroupLayoutEntry {
            binding: 1,
            visibility: fragment,
            ty: BindingType::Sampler { comparison: false },
        },
        BindGroupLayoutEntry {
            binding: 2,
            visibility: fragment,
            ty: BindingType::Sampler { comparison: false },
        },
    ];
    assert(per_frame@ =~= spec_per_frame_bindings(frame_size as u64));
    assert(per_entity@ =~= spec_per_entity_bindings(entity_size as u64));
    let layouts: Vec<BindGroupLayoutDescriptor> = vec![
        BindGroupLayoutDescriptor { label: "per-frame bind group", bindings: per_frame },
        BindGroupLayoutDescriptor { label: "brush per-entity bind group", bindings: per_entity },
    ];
    Ok(layouts)
}

/// What the shared bind groups hold.
pub open spec fn spec_per_frame_group() -> Seq<Binding> {
    seq![Binding { binding: 0, resource: BindingResource::FrameUniformBuffer }]
}

pub open spec fn spec_per_entity_group(block_size: u32) -> Seq<Binding> {
    seq![
        Binding {
            binding: 0,
            resource: BindingResource::EntityUniformBuffer { size: block_size as u64 },
        },
        Binding { binding: 1, resource: BindingResource::DiffuseSampler },
        Binding { binding: 2, resource: BindingResource::LightmapSampler },
    ]
}

/// The shared bind groups, in the order of their slots. The entity group
/// binds one block of the entity uniform buffer, `block_size` bytes wide.
pub fn bind_group_descriptors(block_size: u32) -> (groups: Vec<BindGroupDescriptor>)
    ensures
        groups@.len() == SHARED_LAYOUT_COUNT,
        groups@[0].label == "per-frame bind group",
        groups@[0].layout == BindGroupLayoutId::PerFrame,
        groups@[0].bindings@ == spec_per_frame_group(),
        groups@[1].label == "brush per-entity bind group",
        groups@[1].layout == BindGroupLayoutId::PerEntity,
        groups@[1].bindings@ == spec_per_entity_group(block_size),
{
    let per_frame: Vec<Binding> = vec![
        Binding { binding: 0, resource: BindingResource::FrameUniformBuffer },
    ];
    let per_entity: Vec<Binding> = vec![
        Binding {
            binding: 0,
            resource: BindingResource::EntityUniformBuffer { size: block_size as u64 },
        },
        Binding { binding: 1, resource: BindingResource::DiffuseSampler },
        Binding { binding: 2, resource: BindingResource::LightmapSampler },
    ];
    assert(per_frame@ =~= spec_per_frame_group());
    assert(per_entity@ =~= spec_per_entity_group(block_size));
    let groups: Vec<BindGroupDescriptor> = vec![
        BindGroupDescriptor {
            label: "per-frame bind group",
            layout: BindGroupLayoutId::PerFrame,
            bindings: per_frame,
        },
        BindGroupDescriptor {
            label: "brush per-entity bind group",
            layout: BindGroupLayoutId::PerEntity,
            bindings: per_entity,
        },
    ];
    groups
}

/// The shared bind groups fill the shared layouts: each binding of a layout
/// gets a resource of its kind, and a block of the entity uniform buffer is
/// wide enough for the entity uniforms that it is padded from.
pub proof fn lemma_shared_groups_fit_layouts(frame_size: u64, entity_size: u64, block_size: u32)
    requires
        block_size >= entity_size,
    ensures
        spec_group_fits(spec_per_frame_group(), spec_per_frame_bindings(frame_size)),
        spec_group_fits(spec_per_entity_group(block_size), spec_per_entity_bindings(entity_size)),
{
}

} // verus!
