use richter_render::state::{DepthAttachment, TextureKind, TextureUniforms, TEXTURE_KIND_COUNT};
use richter_render::texture::{
    AddressMode, DiffuseData, Extent3d, TextureData, TextureDimension, TextureFormat,
};
use richter_render::{BindGroupLayoutId, GraphicsState, RenderErrorKind};
use std::borrow::Cow;

type Matrix = [[f32; 4]; 4];
type Glyph = [f32; 20];
type Frame = [f32; 320];

fn state() -> GraphicsState<Matrix, Glyph> {
    GraphicsState::new::<Frame>(640, 480, 256, 1, 2, 1, 1).unwrap()
}

fn fault<F, E: Copy, G: Copy>(width: u32, height: u32, alignment: u32) -> RenderErrorKind {
    match GraphicsState::<E, G>::new::<F>(width, height, alignment, 1, 2, 1, 1) {
        Ok(_) => panic!("expected an error"),
        Err(error) => error.kind(),
    }
}

#[test]
fn new_state_has_a_first_depth_attachment() {
    let state = state();
    let depth = state.depth_attachment();
    assert_eq!(
        depth,
        DepthAttachment {
            width: 640,
            height: 480,
            generation: 0
        }
    );
    let descriptor = depth.descriptor();
    assert_eq!(descriptor.label, Some("depth attachment"));
    assert_eq!(
        descriptor.size,
        Extent3d {
            width: 640,
            height: 480,
            depth: 1
        }
    );
    assert_eq!(descriptor.mip_level_count, 1);
    assert_eq!(descriptor.sample_count, 1);
    assert_eq!(descriptor.dimension, TextureDimension::D2);
    assert_eq!(descriptor.format, TextureFormat::Depth32Float);
    assert!(descriptor.usage.output_attachment);
    assert!(!descriptor.usage.copy_dst);
    assert!(!descriptor.usage.copy_src);
    assert!(!descriptor.usage.sampled);
    assert!(!descriptor.usage.storage);
}

#[test]
fn new_state_has_empty_entity_and_glyph_buffers() {
    let state = state();
    assert_eq!(state.entity_uniform_buffer().len(), 0);
    assert_eq!(state.entity_uniform_buffer().capacity(), 0);
    assert_eq!(state.entity_uniform_buffer().block_size(), 256);
    assert_eq!(state.entity_uniform_buffer().generation(), 0);
    assert_eq!(state.glyph_uniform_buffer().len(), 0);
    assert_eq!(state.glyph_uniform_buffer().block_size(), 256);
    assert_eq!(state.glyph_uniform_buffer().alignment(), 256);
}

#[test]
fn new_state_has_one_flushed_block_per_texture_kind() {
    let state = state();
    assert_eq!(TEXTURE_KIND_COUNT, 3);
    let buffer = state.brush_texture_uniform_buffer();
    assert_eq!(buffer.len(), 3);
    assert_eq!(buffer.block_size(), 256);
    let kinds = [TextureKind::Normal, TextureKind::Warp, TextureKind::Sky];
    for (i, kind) in kinds.iter().enumerate() {
        assert_eq!(kind.index(), i);
        let block = state.brush_texture_uniform_block(*kind);
        assert_eq!(block.offset(), 256 * i as u32);
        assert!(buffer.contains(block));
        assert_eq!(buffer.get(block), Some(TextureUniforms { kind: *kind }));
        assert_eq!(
            buffer.read_back(block.offset()),
            Some(TextureUniforms { kind: *kind })
        );
    }
}

#[test]
fn new_state_has_the_shared_layouts_and_groups() {
    let state = state();
    let layouts = state.bind_group_layouts();
    assert_eq!(layouts.len(), 2);
    assert_eq!(layouts[0].label, "per-frame bind group");
    assert_eq!(layouts[0].bindings.len(), 1);
    assert_eq!(layouts[1].label, "brush per-entity bind group");
    assert_eq!(layouts[1].bindings.len(), 3);
    assert_eq!(
        layouts,
        richter_render::layout::bind_group_layout_descriptors::<Frame, Matrix>()
            .unwrap()
            .as_slice()
    );
    let groups = state.bind_groups();
    assert_eq!(
        groups,
        richter_render::layout::bind_group_descriptors(256).as_slice()
    );
}

#[test]
fn layouts_of_a_pipeline_are_found_past_the_shared_ones() {
    let state = state();
    assert_eq!(state.alias_bind_group_layout(BindGroupLayoutId::PerTexture), Some(0));
    assert_eq!(state.alias_bind_group_layout(BindGroupLayoutId::PerFace), None);
    assert_eq!(state.alias_bind_group_layout(BindGroupLayoutId::PerFrame), None);
    assert_eq!(state.alias_bind_group_layout(BindGroupLayoutId::PerEntity), None);
    assert_eq!(state.brush_bind_group_layout(BindGroupLayoutId::PerTexture), Some(0));
    assert_eq!(state.brush_bind_group_layout(BindGroupLayoutId::PerFace), Some(1));
    assert_eq!(state.brush_bind_group_layout(BindGroupLayoutId::PerEntity), None);
    assert_eq!(state.sprite_bind_group_layout(BindGroupLayoutId::PerTexture), Some(0));
    assert_eq!(state.sprite_bind_group_layout(BindGroupLayoutId::PerFace), None);
}

#[test]
fn new_state_is_refused_whole() {
    assert_eq!(fault::<Frame, Matrix, Glyph>(0, 480, 256), RenderErrorKind::EmptyExtent);
    assert_eq!(fault::<Frame, Matrix, Glyph>(640, 0, 256), RenderErrorKind::EmptyExtent);
    assert_eq!(fault::<Frame, Matrix, Glyph>(0, 0, 0), RenderErrorKind::EmptyExtent);
    assert_eq!(fault::<Frame, Matrix, Glyph>(640, 480, 0), RenderErrorKind::ZeroAlignment);
    assert_eq!(fault::<(), Matrix, Glyph>(640, 480, 256), RenderErrorKind::ZeroSizedBlock);
    assert_eq!(fault::<Frame, (), Glyph>(640, 480, 256), RenderErrorKind::ZeroSizedBlock);
    assert_eq!(fault::<Frame, Matrix, ()>(640, 480, 256), RenderErrorKind::ZeroSizedBlock);
    assert_eq!(fault::<(), Matrix, Glyph>(640, 480, 0), RenderErrorKind::ZeroAlignment);
    assert_eq!(
        fault::<Frame, [u8; 0x1_0000_0000], Glyph>(640, 480, 256),
        RenderErrorKind::BlockTooLarge
    );
    assert_eq!(
        fault::<Frame, Matrix, [u8; 0x1_0000_0000]>(640, 480, 256),
        RenderErrorKind::BlockTooLarge
    );
    assert_eq!(
        fault::<Frame, u32, u32>(640, 480, 0x8000_0000),
        RenderErrorKind::BufferFull
    );
}

#[test]
fn widest_alignment_that_still_holds_the_texture_kinds() {
    let state = GraphicsState::<u32, u32>::new::<u32>(1, 1, 0x4000_0000, 0, 0, 0, 0).unwrap();
    assert_eq!(
        state.brush_texture_uniform_block(TextureKind::Sky).offset(),
        0x8000_0000
    );
}

#[test]
fn depth_attachment_is_replaced_by_one_of_the_next_generation() {
    let mut state = state();
    let before = state.depth_attachment();
    state.recreate_depth_attachment(1024, 768).unwrap();
    let after = state.depth_attachment();
    assert_eq!(
        after,
        DepthAttachment {
            width: 1024,
            height: 768,
            generation: 1
        }
    );
    assert_ne!(before, after);
    state.recreate_depth_attachment(1024, 768).unwrap();
    assert_eq!(state.depth_attachment().generation, 2);
    assert_eq!(state.entity_uniform_buffer().len(), 0);
    assert_eq!(state.brush_texture_uniform_buffer().len(), 3);
}

#[test]
fn depth_attachment_without_pixels_is_refused() {
    let mut state = state();
    assert_eq!(
        state.recreate_depth_attachment(0, 768).unwrap_err().kind(),
        RenderErrorKind::EmptyExtent
    );
    assert_eq!(
        state.recreate_depth_attachment(1024, 0).unwrap_err().kind(),
        RenderErrorKind::EmptyExtent
    );
    assert_eq!(
        state.depth_attachment(),
        DepthAttachment {
            width: 640,
            height: 480,
            generation: 0
        }
    );
}

#[test]
fn buffers_of_the_state_can_be_written() {
    let mut state = state();
    let block = state.entity_uniform_buffer_mut().allocate([[1.0; 4]; 4]).unwrap();
    state.entity_uniform_buffer_mut().flush();
    assert_eq!(state.entity_uniform_buffer().read_back(block.offset()), Some([[1.0; 4]; 4]));
    let glyph = state.glyph_uniform_buffer_mut().allocate([2.0; 20]).unwrap();
    assert_eq!(state.glyph_uniform_buffer().get(&glyph), Some([2.0; 20]));
    state.brush_texture_uniform_buffer_mut().clear().unwrap();
    assert_eq!(state.brush_texture_uniform_buffer().len(), 0);
    assert!(!state
        .brush_texture_uniform_buffer()
        .contains(state.brush_texture_uniform_block(TextureKind::Normal)));
}

#[test]
fn state_describes_textures_and_samplers() {
    let state = state();
    let data = TextureData::Diffuse(DiffuseData {
        rgba: Cow::Borrowed(&[0; 16]),
    });
    let upload = state.create_texture(Some("pic"), 2, 2, &data).unwrap();
    assert_eq!(upload.layout.bytes_per_row, 8);
    assert_eq!(upload.descriptor.label, Some("pic"));
    assert_eq!(
        state.create_texture(None, 3, 2, &data).unwrap_err().kind(),
        RenderErrorKind::DataTooShort
    );
    assert_eq!(state.diffuse_sampler().address_mode_u, AddressMode::Repeat);
    assert_eq!(state.lightmap_sampler().address_mode_u, AddressMode::ClampToEdge);
}
