//! The long-lived state of the renderer: the depth attachment, the shared
//! bind groups, and the uniform buffers with the blocks that never change.

use crate::error::{RenderError, RenderErrorKind};
use crate::layout::{
    bind_group_descriptors, bind_group_layout_descriptors, pipeline_layout_slot,
    spec_per_entity_bindings, spec_per_entity_group, spec_per_frame_bindings,
    spec_per_frame_group, spec_pipeline_layout_slot, BindGroupDescriptor, BindGroupLayoutDescriptor,
    BindGroupLayoutId, SHARED_LAYOUT_COUNT,
};
use crate::texture::{
    create_texture, diffuse_sampler_descriptor, lightmap_sampler_descriptor,
    spec_diffuse_sampler, spec_lightmap_sampler, spec_texture_fault, spec_texture_upload,
    Extent3d, SamplerDescriptor, TextureData, TextureDescriptor, TextureDimension, TextureFormat,
    TextureUpload, TextureUsage, DEPTH_ATTACHMENT_FORMAT,
};
use crate::uniform::{DynamicUniformBuffer, DynamicUniformBufferBlock};
use crate::uniform_model::{spec_block_stride, UniformBufferModel};
use vstd::prelude::*;

verus! {

/// How the surface of a piece of static geometry is drawn.
#[derive(Clone, Copy, Debug, PartialEq, Eq, Structural)]
pub enum TextureKind {
    Normal,
    Warp,
    Sky,
}

/// The number of texture kinds.
pub const TEXTURE_KIND_COUNT: usize = 3;

impl TextureKind {
    pub open spec fn spec_index(self) -> usize {
        match self {
            TextureKind::Normal => 0,
            TextureKind::Warp => 1,
            TextureKind::Sky => 2,
        }
    }

    #[verifier::when_used_as_spec(spec_index)]
    pub fn index(self) -> (index: usize)
        ensures
            index == self.spec_index(),
    {
        match self {
            TextureKind::Normal => 0,
            TextureKind::Warp => 1,
            TextureKind::Sky => 2,
        }
    }
}

/// The uniforms that tell a shader what kind of texture it draws.
#[derive(Clone, Copy, Debug, PartialEq, Eq, Structural)]
pub struct TextureUniforms {
    pub kind: TextureKind,
}

/// The depth buffer that every pass renders to. Each time it is made anew
/// it gets the next generation, so that two depth buffers of one state are
/// never taken for one another.
#[derive(Clone, Copy, Debug, PartialEq, Eq, Structural)]
pub struct DepthAttachment {
    pub width: u32,
    pub height: u32,
    pub generation: u64,
}

impl DepthAttachment {
    pub open spec fn spec_descriptor(&self) -> TextureDescriptor<'static> {
        TextureDescriptor {
            label: Some("depth attachment"),
            size: Extent3d { width: self.width, height: self.height, depth: 1 },
            mip_level_count: 1,
            sample_count: 1,
            dimension: TextureDimension::D2,
            format: TextureFormat::Depth32Float,
            usage: TextureUsage {
                copy_src: false,
                copy_dst: false,
                sampled: false,
                storage: false,
                output_attachment: true,
            },
        }
    }

    /// The description of the texture behind the attachment: a depth
    /// texture of the size of the attachment, to render to and nothing else.
    pub fn descriptor(&self) -> (descriptor: TextureDescriptor<'static>)
        ensures
            descriptor == self.spec_descriptor(),
    {
        TextureDescriptor {
            label: Some("depth attachment"),
            size: Extent3d { width: self.width, height: self.height, depth: 1 },
            mip_level_count: 1,
            sample_count: 1,
            dimension: TextureDimension::D2,
            format: DEPTH_ATTACHMENT_FORMAT,
            usage: TextureUsage {
                copy_src: false,
                copy_dst: false,
                sampled: false,
                storage: false,
                output_attachment: true,
            },
        }
    }
}

/// What a `GraphicsState` is, apart from how it is stored.
pub struct GraphicsStateModel<E, G> {
    pub depth_attachment: DepthAttachment,
    /// The layouts of the shared bind groups, by slot.
    pub bind_group_layouts: Seq<BindGroupLayoutDescriptor>,
    /// The shared bind groups, by slot.
    pub bind_groups: Seq<BindGroupDescriptor>,
    pub entity_uniforms: UniformBufferModel<E>,
    pub brush_texture_uniforms: UniformBufferModel<TextureUniforms>,
    /// The offset of the block of each texture kind, by the index of the kind.
    pub brush_texture_offsets: Seq<u32>,
    pub glyph_uniforms: UniformBufferModel<G>,
    /// The number of bind group layouts that each pipeline adds to the
    /// shared ones.
    pub alias_layouts: nat,
    pub brush_layouts: nat,
    pub sprite_layouts: nat,
    pub glyph_layouts: nat,
}

impl<E, G> GraphicsStateModel<E, G> {
    /// Whether this is the state right after construction for a viewport
    /// of `width` by `height` and a device with the binding alignment
    /// `alignment`: a first depth attachment of the size of the viewport,
    /// the shared layouts and bind groups, empty buffers for entity and
    /// glyph uniforms, and one flushed block per texture kind.
    pub open spec fn is_initial<F>(
        self,
        width: u32,
        height: u32,
        alignment: u32,
        alias_layouts: usize,
        brush_layouts: usize,
        sprite_layouts: usize,
        glyph_layouts: usize,
    ) -> bool {
        let a = alignment as nat;
        let entity_stride = spec_block_stride(vstd::layout::size_of::<E>(), a);
        let texture_stride = spec_block_stride(vstd::layout::size_of::<TextureUniforms>(), a);
        let glyph_stride = spec_block_stride(vstd::layout::size_of::<G>(), a);
        &&& self.depth_attachment == DepthAttachment { width, height, generation: 0 }
        &&& self.bind_group_layouts.len() == SHARED_LAYOUT_COUNT
        &&& self.bind_group_layouts[0].label == "per-frame bind group"
        &&& self.bind_group_layouts[0].bindings@ == spec_per_frame_bindings(
            vstd::layout::size_of::<F>() as u64,
        )
        &&& self.bind_group_layouts[1].label == "brush per-entity bind group"
        &&& self.bind_group_layouts[1].bindings@ == spec_per_entity_bindings(
            vstd::layout::size_of::<E>() as u64,
        )
        &&& self.bind_groups.len() == SHARED_LAYOUT_COUNT
        &&& self.bind_groups[0].label == "per-frame bind group"
        &&& self.bind_groups[0].layout == BindGroupLayoutId::PerFrame
        &&& self.bind_groups[0].bindings@ == spec_per_frame_group()
        &&& self.bind_groups[1].label == "brush per-entity bind group"
        &&& self.bind_groups[1].layout == BindGroupLayoutId::PerEntity
        &&& self.bind_groups[1].bindings@ == spec_per_entity_group(entity_stride as u32)
        &&& self.entity_uniforms == UniformBufferModel::<E>::fresh(a, entity_stride)
        &&& self.brush_texture_uniforms == spec_brush_texture_uniforms(a)
        &&& self.brush_texture_offsets == seq![
            0u32,
            texture_stride as u32,
            (2 * texture_stride) as u32,
        ]
        &&& self.glyph_uniforms == UniformBufferModel::<G>::fresh(a, glyph_stride)
        &&& self.alias_layouts == alias_layouts
        &&& self.brush_layouts == brush_layouts
        &&& self.sprite_layouts == sprite_layouts
        &&& self.glyph_layouts == glyph_layouts
    }
}

/// The long-lived state of the renderer. `E` is the type of the uniforms of
/// an entity and `G` that of a glyph.
pub struct GraphicsState<E: Copy, G: Copy> {
    depth_attachment: DepthAttachment,
    bind_group_layouts: Vec<BindGroupLayoutDescriptor>,
    bind_groups: Vec<BindGroupDescriptor>,
    entity_uniform_buffer: DynamicUniformBuffer<E>,
    brush_texture_uniform_buffer: DynamicUniformBuffer<TextureUniforms>,
    normal_texture_block: DynamicUniformBufferBlock<TextureUniforms>,
    warp_texture_block: DynamicUniformBufferBlock<TextureUniforms>,
    sky_texture_block: DynamicUniformBufferBlock<TextureUniforms>,
    glyph_uniform_buffer: DynamicUniformBuffer<G>,
    alias_layouts: usize,
    brush_layouts: usize,
    sprite_layouts: usize,
    glyph_layouts: usize,
}

impl<E: Copy, G: Copy> View for GraphicsState<E, G> {
    type V = GraphicsStateModel<E, G>;

    closed spec fn view(&self) -> GraphicsStateModel<E, G> {
        GraphicsStateModel {
            depth_attachment: self.depth_attachment,
            bind_group_layouts: self.bind_group_layouts@,
            bind_groups: self.bind_groups@,
            entity_uniforms: self.entity_uniform_buffer@,
            brush_texture_uniforms: self.brush_texture_uniform_buffer@,
            brush_texture_offsets: seq![
                self.normal_texture_block.spec_offset(),
                self.warp_texture_block.spec_offset(),
                self.sky_texture_block.spec_offset(),
            ],
            glyph_uniforms: self.glyph_uniform_buffer@,
            alias_layouts: self.alias_layouts as nat,
            brush_layouts: self.brush_layouts as nat,
            sprite_layouts: self.sprite_layouts as nat,
            glyph_layouts: self.glyph_layouts as nat,
        }
    }
}

/// The brush texture uniforms as they are after construction: one block
/// per texture kind, in the order of the kinds, flushed.
pub open spec fn spec_brush_texture_uniforms(alignment: nat) -> UniformBufferModel<TextureUniforms> {
    UniformBufferModel::<TextureUniforms>::fresh(
        alignment,
        spec_block_stride(vstd::layout::size_of::<TextureUniforms>(), alignment),
    ).allocate(TextureUniforms { kind: TextureKind::Normal }).allocate(
        TextureUniforms { kind: TextureKind::Warp },
    ).allocate(TextureUniforms { kind: TextureKind::Sky }).flush()
}

/// Why a state cannot be made with the given viewport and alignment, if it
/// cannot. `F`, `E` and `G` are the types of the frame, entity and glyph
/// uniforms.
pub open spec fn spec_state_fault<F, E, G>(width: u32, height: u32, alignment: u32) -> Option<
    RenderErrorKind,
> {
    let a = alignment as nat;
    let texture_stride = spec_block_stride(vstd::layout::size_of::<TextureUniforms>(), a);
    if width == 0 || height == 0 {
        Some(RenderErrorKind::EmptyExtent)
    } else if alignment == 0 {
        Some(RenderErrorKind::ZeroAlignment)
    } else if vstd::layout::size_of::<F>() == 0 || vstd::layout::size_of::<E>() == 0
        || vstd::layout::size_of::<TextureUniforms>() == 0 || vstd::layout::size_of::<G>() == 0 {
        Some(RenderErrorKind::ZeroSizedBlock)
    } else if spec_block_stride(vstd::layout::size_of::<E>(), a) > u32::MAX || texture_stride
        > u32::MAX || spec_block_stride(vstd::layout::size_of::<G>(), a) > u32::MAX {
        Some(RenderErrorKind::BlockTooLarge)
    } else if 2 * texture_stride > u32::MAX {
        Some(RenderErrorKind::BufferFull)
    } else {
        None
    }
}

impl<E: Copy, G: Copy> GraphicsState<E, G> {
    /// Makes the state for a viewport of `width` by `height` pixels on a
    /// device whose uniform bindings start at multiples of `alignment`.
    /// `F` is the type of the frame uniforms. Each pipeline adds as many
    /// bind group layouts of its own to the shared ones as is said. Either
    /// the whole state is made or none of it.
    pub fn new<F>(
        width: u32,
        height: u32,
        alignment: u32,
        alias_layouts: usize,
        brush_layouts: usize,
        sprite_layouts: usize,
        glyph_layouts: usize,
    ) -> (result: Result<Self, RenderError>)
        ensures
            match result {
                Ok(state) => {
                    &&& spec_state_fault::<F, E, G>(width, height, alignment) is None
                    &&& state@.is_initial::<F>(
                        width,
                        height,
                        alignment,
                        alias_layouts,
                        brush_layouts,
                        sprite_layouts,
                        glyph_layouts,
                    )
                },
                Err(error) => spec_state_fault::<F, E, G>(width, height, alignment) == Some(
                    error.kind,
                ),
            },
    {
        if width == 0 || height == 0 {
            return Err(RenderError::new(RenderErrorKind::EmptyExtent));
        }
        if alignment == 0 {
            return Err(RenderError::new(RenderErrorKind::ZeroAlignment));
        }
        if core::mem::size_of::<F>() == 0 || core::mem::size_of::<E>() == 0 || core::mem::size_of::<
            TextureUniforms,
        >() == 0 || core::mem::size_of::<G>() == 0 {
            return Err(RenderError::new(RenderErrorKind::ZeroSizedBlock));
        }
        let mut entity_uniform_buffer: DynamicUniformBuffer<E> = match DynamicUniformBuffer::new(
            alignment,
        ) {
            Ok(buffer) => buffer,
            Err(error) => {
                return Err(error);
            },
        };
        let mut brush_texture_uniform_buffer: DynamicUniformBuffer<TextureUniforms> =
            match DynamicUniformBuffer::new(alignment) {
            Ok(buffer) => buffer,
            Err(error) => {
                return Err(error);
            },
        };
        let glyph_uniform_buffer: DynamicUniformBuffer<G> = match DynamicUniformBuffer::new(
            alignment,
        ) {
            Ok(buffer) => buffer,
            Err(error) => {
                return Err(error);
            },
        };
        let ghost texture_stride = brush_texture_uniform_buffer@.stride;
        proof {
            assert(0 * texture_stride == 0) by (nonlinear_arith);
            assert(1 * texture_stride == texture_stride) by (nonlinear_arith);
        }
        let normal_texture_block = match brush_texture_uniform_buffer.allocate(
            TextureUniforms { kind: TextureKind::Normal },
        ) {
            Ok(block) => block,
            Err(error) => {
                return Err(error);
            },
        };
        let warp_texture_block = match brush_texture_uniform_buffer.allocate(
            TextureUniforms { kind: TextureKind::Warp },
        ) {
            Ok(block) => block,
            Err(error) => {
                return Err(error);
            },
        };
        let sky_texture_block = match brush_texture_uniform_buffer.allocate(
            TextureUniforms { kind: TextureKind::Sky },
        ) {
            Ok(block) => block,
            Err(error) => {
                return Err(error);
            },
        };
        brush_texture_uniform_buffer.flush();
        let bind_group_layouts: Vec<BindGroupLayoutDescriptor> =
            match bind_group_layout_descriptors::<F, E>() {
            Ok(layouts) => layouts,
            Err(error) => {
                return Err(error);
            },
        };
        let bind_groups: Vec<BindGroupDescriptor> = bind_group_descriptors(
            entity_uniform_buffer.block_size(),
        );
        let state = GraphicsState {
            depth_attachment: DepthAttachment { width, height, generation: 0 },
            bind_group_layouts,
            bind_groups,
            entity_uniform_buffer,
            brush_texture_uniform_buffer,
            normal_texture_block,
            warp_texture_block,
            sky_texture_block,
            glyph_uniform_buffer,
            alias_layouts,
            brush_layouts,
            sprite_layouts,
            glyph_layouts,
        };
        assert(state@.brush_texture_offsets =~= seq![
            0u32,
            texture_stride as u32,
            (2 * texture_stride) as u32,
        ]);
        Ok(state)
    }

    /// Replaces the depth attachment by a new one of `width` by `height`
    /// pixels. The new one has a generation that no earlier one had.
    /// Refuses an attachment without pixels; fails where the generations
    /// have run out; either way nothing changes.
    pub fn recreate_depth_attachment(&mut self, width: u32, height: u32) -> (result: Result<
        (),
        RenderError,
    >)
        ensures
            match result {
                Ok(_) => {
                    &&& width > 0 && height > 0
                    &&& old(self)@.depth_attachment.generation < u64::MAX
                    &&& final(self)@ == (GraphicsStateModel {
                        depth_attachment: DepthAttachment {
                            width,
                            height,
                            generation: (old(self)@.depth_attachment.generation + 1) as u64,
                        },
                        ..old(self)@
                    })
                },
                Err(error) => {
                    &&& final(self)@ == old(self)@
                    &&& error.kind == if width == 0 || height == 0 {
                        RenderErrorKind::EmptyExtent
                    } else {
                        RenderErrorKind::GenerationExhausted
                    }
                    &&& (width == 0 || height == 0 || old(self)@.depth_attachment.generation
                        == u64::MAX)
                },
            },
    {
        if width == 0 || height == 0 {
            return Err(RenderError::new(RenderErrorKind::EmptyExtent));
        }
        if self.depth_attachment.generation == u64::MAX {
            return Err(RenderError::new(RenderErrorKind::GenerationExhausted));
        }
        self.depth_attachment = DepthAttachment {
            width,
            height,
            generation: self.depth_attachment.generation + 1,
        };
        Ok(())
    }

    /// Describes the texture that holds `data` and the upload that fills
    /// it, as `create_texture` of the texture module does.
    pub fn create_texture<'b>(
        &self,
        label: Option<&'b str>,
        width: u32,
        height: u32,
        data: &'b TextureData<'b>,
    ) -> (result: Result<TextureUpload<'b>, RenderError>)
        ensures
            match result {
                Ok(upload) => {
                    &&& spec_texture_fault(width, height, *data) is None
                    &&& upload.data@ == data.spec_data()
                    &&& upload == spec_texture_upload(label, width, height, *data, upload.data)
                },
                Err(error) => spec_texture_fault(width, height, *data) == Some(error.kind),
            },
    {
        create_texture(label, width, height, data)
    }

    /// The sampler for diffuse and fullbright textures.
    pub fn diffuse_sampler(&self) -> (descriptor: SamplerDescriptor)
        ensures
            descriptor == spec_diffuse_sampler(),
    {
        diffuse_sampler_descriptor()
    }

    /// The sampler for lightmaps.
    pub fn lightmap_sampler(&self) -> (descriptor: SamplerDescriptor)
        ensures
            descriptor == spec_lightmap_sampler(),
    {
        lightmap_sampler_descriptor()
    }

    /// The depth attachment that passes render to.
    pub fn depth_attachment(&self) -> (depth: DepthAttachment)
        ensures
            depth == self@.depth_attachment,
    {
        self.depth_attachment
    }

    /// The layouts of the bind groups that all pipelines share, by slot.
    pub fn bind_group_layouts(&self) -> (layouts: &[BindGroupLayoutDescriptor])
        ensures
            layouts@ == self@.bind_group_layouts,
    {
        self.bind_group_layouts.as_slice()
    }

    /// The bind groups that all pipelines share, by slot.
    pub fn bind_groups(&self) -> (groups: &[BindGroupDescriptor])
        ensures
            groups@ == self@.bind_groups,
    {
        self.bind_groups.as_slice()
    }

    pub fn entity_uniform_buffer(&self) -> (buffer: &DynamicUniformBuffer<E>)
        ensures
            buffer@ == self@.entity_uniforms,
    {
        &self.entity_uniform_buffer
    }

    pub fn entity_uniform_buffer_mut(&mut self) -> (buffer: &mut DynamicUniformBuffer<E>)
        ensures
            buffer@ == old(self)@.entity_uniforms,
            final(self)@ == (GraphicsStateModel { entity_uniforms: final(buffer)@, ..old(self)@ }),
    {
        &mut self.entity_uniform_buffer
    }

    pub fn brush_texture_uniform_buffer(&self) -> (buffer: &DynamicUniformBuffer<TextureUniforms>)
        ensures
            buffer@ == self@.brush_texture_uniforms,
    {
        &self.brush_texture_uniform_buffer
    }

    pub fn brush_texture_uniform_buffer_mut(&mut self) -> (buffer: &mut DynamicUniformBuffer<
        TextureUniforms,
    >)
        ensures
            buffer@ == old(self)@.brush_texture_uniforms,
            final(self)@ == (GraphicsStateModel {
                brush_texture_uniforms: final(buffer)@,
                ..old(self)@
            }),
    {
        &mut self.brush_texture_uniform_buffer
    }

    /// The block that holds the uniforms of texture kind `kind`.
    pub fn brush_texture_uniform_block(&self, kind: TextureKind) -> (block:
        &DynamicUniformBufferBlock<TextureUniforms>)
        ensures
            self@.brush_texture_offsets.len() == TEXTURE_KIND_COUNT,
            block.spec_offset() == self@.brush_texture_offsets[kind.spec_index() as int],
    {
        match kind {
            TextureKind::Normal => &self.normal_texture_block,
            TextureKind::Warp => &self.warp_texture_block,
            TextureKind::Sky => &self.sky_texture_block,
        }
    }

    pub fn glyph_uniform_buffer(&self) -> (buffer: &DynamicUniformBuffer<G>)
        ensures
            buffer@ == self@.glyph_uniforms,
    {
        &self.glyph_uniform_buffer
    }

    pub fn glyph_uniform_buffer_mut(&mut self) -> (buffer: &mut DynamicUniformBuffer<G>)
        ensures
            buffer@ == old(self)@.glyph_uniforms,
            final(self)@ == (GraphicsStateModel { glyph_uniforms: final(buffer)@, ..old(self)@ }),
    {
        &mut self.glyph_uniform_buffer
    }

    /// Where the layout of slot `id` stands among the layouts that the
    /// pipeline for keyframe models adds to the shared ones.
    pub fn alias_bind_group_layout(&self, id: BindGroupLayoutId) -> (slot: Option<usize>)
        ensures
            slot == spec_pipeline_layout_slot(id, self@.alias_layouts),
    {
        pipeline_layout_slot(id, self.alias_layouts)
    }

    /// Where the layout of slot `id` stands among the layouts that the
    /// pipeline for static geometry adds to the shared ones.
    pub fn brush_bind_group_layout(&self, id: BindGroupLayoutId) -> (slot: Option<usize>)
        ensures
            slot == spec_pipeline_layout_slot(id, self@.brush_layouts),
    {
        pipeline_layout_slot(id, self.brush_layouts)
    }

    /// Where the layout of slot `id` stands among the layouts that the
    /// pipeline for sprites adds to the shared ones.
    pub fn sprite_bind_group_layout(&self, id: BindGroupLayoutId) -> (slot: Option<usize>)
        ensures
            slot == spec_pipeline_layout_slot(id, self@.sprite_layouts),
    {
        pipeline_layout_slot(id, self.sprite_layouts)
    }
}

} // verus!
