use richter_render::renderer::{
    classify, lightmap_anim_frames, renderer_slot, AngleSource, DrawCommand, Entity,
    EntityRenderer, EulerSources, ModelKind, SpriteKind, LIGHTSTYLE_COUNT,
};
use richter_render::state::DepthAttachment;
use richter_render::{GraphicsState, RenderErrorKind, Renderer};

type State = GraphicsState<u64, u32>;

fn state() -> State {
    GraphicsState::new::<[f32; 320]>(640, 480, 256, 1, 2, 1, 1).unwrap()
}

fn entity(model_id: usize) -> Entity {
    Entity {
        model_id,
        frame_id: 0,
        skin_id: 0,
    }
}

const OWN: EulerSources = EulerSources {
    x: AngleSource::Entity,
    y: AngleSource::Entity,
    z: AngleSource::Entity,
};

const FACING: EulerSources = EulerSources {
    x: AngleSource::InverseCamera,
    y: AngleSource::InverseCamera,
    z: AngleSource::Entity,
};

#[test]
fn models_are_classified_by_kind() {
    assert_eq!(classify(ModelKind::Alias), EntityRenderer::Alias);
    assert_eq!(classify(ModelKind::Brush), EntityRenderer::Brush);
    assert_eq!(
        classify(ModelKind::Sprite(SpriteKind::Upright)),
        EntityRenderer::Sprite(SpriteKind::Upright)
    );
    assert_eq!(classify(ModelKind::Unsupported), EntityRenderer::Unsupported);
}

#[test]
fn table_of_sub_renderers_leaves_out_the_world() {
    assert_eq!(renderer_slot(0, 1, 2), Some(0));
    assert_eq!(renderer_slot(1, 1, 2), None);
    assert_eq!(renderer_slot(2, 1, 2), Some(1));
    assert_eq!(renderer_slot(3, 1, 2), None);
    assert_eq!(renderer_slot(0, 0, 2), None);
    assert_eq!(renderer_slot(1, 0, 2), Some(0));
    assert_eq!(renderer_slot(2, 0, 2), Some(1));
    assert_eq!(renderer_slot(usize::MAX, 0, 2), None);
    assert_eq!(renderer_slot(0, 5, 0), None);
}

#[test]
fn entity_of_the_sprite_model_is_drawn_by_the_sprite_renderer_alone() {
    let mut state = state();
    let models = [
        ModelKind::Alias,
        ModelKind::Brush,
        ModelKind::Sprite(SpriteKind::ViewPlaneParallel),
    ];
    let mut renderer = Renderer::new(&models, 1, &mut state, 0).unwrap();
    assert_eq!(
        renderer.entity_renderers(),
        &[
            EntityRenderer::Alias,
            EntityRenderer::Sprite(SpriteKind::ViewPlaneParallel)
        ]
    );
    let sprite = Entity {
        model_id: 2,
        frame_id: 4,
        skin_id: 9,
    };
    assert_eq!(
        renderer.renderer_for_entity(&sprite),
        EntityRenderer::Sprite(SpriteKind::ViewPlaneParallel)
    );
    renderer
        .update_uniform_buffers(&mut state, 1, &[sprite], &[2], &[])
        .unwrap();
    let plan = renderer.render_pass(&state, 640, 480, &[sprite]).unwrap();
    let draws: Vec<&DrawCommand> = plan
        .iter()
        .filter(|c| {
            matches!(
                c,
                DrawCommand::DrawBrush { .. }
                    | DrawCommand::DrawAlias { .. }
                    | DrawCommand::DrawSprite { .. }
                    | DrawCommand::Skip { .. }
            )
        })
        .collect();
    assert_eq!(
        draws,
        vec![&DrawCommand::DrawSprite {
            renderer: 1,
            frame_id: 4
        }]
    );
}

#[test]
fn every_model_but_the_world_has_the_renderer_of_its_kind() {
    let mut state = state();
    let models = [
        ModelKind::Unsupported,
        ModelKind::Brush,
        ModelKind::Brush,
        ModelKind::Alias,
        ModelKind::Sprite(SpriteKind::Oriented),
    ];
    let renderer = Renderer::new(&models, 1, &mut state, 0).unwrap();
    assert_eq!(renderer.worldmodel_id(), 1);
    assert_eq!(renderer.renderer_for_entity(&entity(0)), EntityRenderer::Unsupported);
    assert_eq!(renderer.renderer_for_entity(&entity(1)), EntityRenderer::Unsupported);
    assert_eq!(renderer.renderer_for_entity(&entity(2)), EntityRenderer::Brush);
    assert_eq!(renderer.renderer_for_entity(&entity(3)), EntityRenderer::Alias);
    assert_eq!(
        renderer.renderer_for_entity(&entity(4)),
        EntityRenderer::Sprite(SpriteKind::Oriented)
    );
    assert_eq!(renderer.renderer_for_entity(&entity(5)), EntityRenderer::Unsupported);
    assert_eq!(
        renderer.renderer_for_entity(&entity(usize::MAX)),
        EntityRenderer::Unsupported
    );
}

#[test]
fn new_renderer_takes_the_first_block_for_the_world() {
    let mut state = state();
    let renderer = Renderer::new(&[ModelKind::Brush], 0, &mut state, 77).unwrap();
    assert_eq!(renderer.world_uniform_block().offset(), 0);
    assert_eq!(state.entity_uniform_buffer().len(), 1);
    assert_eq!(
        state.entity_uniform_buffer().get(renderer.world_uniform_block()),
        Some(77)
    );
    assert!(renderer.entity_renderers().is_empty());
    assert!(renderer.entity_uniform_blocks().is_empty());
    assert!(renderer.glyph_uniform_blocks().is_empty());
    assert!(renderer.is_attached(&state));
    assert!(!renderer.is_ready_for(&[]));
    let second = Renderer::new(&[ModelKind::Brush], 0, &mut state, 78).unwrap();
    assert_eq!(second.world_uniform_block().offset(), 256);
    assert_eq!(state.entity_uniform_buffer().len(), 2);
}

#[test]
fn new_renderer_needs_a_world_of_static_geometry() {
    let mut state = state();
    let models = [ModelKind::Alias, ModelKind::Brush];
    for (models, world) in [
        (&models[..], 0usize),
        (&models[..], 2),
        (&models[..], usize::MAX),
        (&[][..], 0),
        (&[ModelKind::Unsupported][..], 0),
        (&[ModelKind::Sprite(SpriteKind::Oriented)][..], 0),
    ] {
        let result: Result<Renderer<u64, u32>, _> = Renderer::new(models, world, &mut state, 0);
        assert_eq!(result.err().unwrap().kind(), RenderErrorKind::InvalidWorldModel);
        assert_eq!(state.entity_uniform_buffer().len(), 0);
    }
}

#[test]
fn new_renderer_fails_where_no_block_is_left() {
    let mut state: GraphicsState<u8, u8> =
        GraphicsState::new::<u8>(1, 1, 0x4000_0000, 0, 0, 0, 0).unwrap();
    for _ in 0..4 {
        state.entity_uniform_buffer_mut().allocate(0).unwrap();
    }
    let result = Renderer::new(&[ModelKind::Brush], 0, &mut state, 0);
    assert_eq!(result.err().unwrap().kind(), RenderErrorKind::BufferFull);
    assert_eq!(state.entity_uniform_buffer().len(), 4);
}

#[test]
fn sprites_face_the_camera_unless_oriented() {
    let mut state = state();
    let models = [
        ModelKind::Brush,
        ModelKind::Sprite(SpriteKind::Oriented),
        ModelKind::Sprite(SpriteKind::ViewPlaneParallelUpright),
        ModelKind::Sprite(SpriteKind::Upright),
        ModelKind::Sprite(SpriteKind::ViewPlaneParallel),
        ModelKind::Sprite(SpriteKind::ViewPlaneParallelOriented),
        ModelKind::Alias,
        ModelKind::Brush,
        ModelKind::Unsupported,
    ];
    let renderer = Renderer::new(&models, 0, &mut state, 0).unwrap();
    assert_eq!(renderer.calculate_transform(&entity(1)), OWN);
    assert_eq!(renderer.calculate_transform(&entity(2)), FACING);
    assert_eq!(renderer.calculate_transform(&entity(3)), FACING);
    assert_eq!(renderer.calculate_transform(&entity(4)), FACING);
    assert_eq!(renderer.calculate_transform(&entity(5)), FACING);
    assert_eq!(renderer.calculate_transform(&entity(6)), OWN);
    assert_eq!(renderer.calculate_transform(&entity(7)), OWN);
    assert_eq!(renderer.calculate_transform(&entity(8)), OWN);
    assert_eq!(renderer.calculate_transform(&entity(0)), OWN);
    assert_eq!(renderer.calculate_transform(&entity(99)), OWN);
}

#[test]
fn a_frame_from_uniforms_to_draw_calls() {
    let mut state = state();
    let models = [
        ModelKind::Brush,
        ModelKind::Alias,
        ModelKind::Brush,
        ModelKind::Sprite(SpriteKind::Upright),
        ModelKind::Unsupported,
    ];
    let mut renderer = Renderer::new(&models, 0, &mut state, 0).unwrap();
    let entities = [
        Entity {
            model_id: 3,
            frame_id: 5,
            skin_id: 1,
        },
        Entity {
            model_id: 1,
            frame_id: 6,
            skin_id: 2,
        },
        Entity {
            model_id: 4,
            frame_id: 7,
            skin_id: 3,
        },
        Entity {
            model_id: 2,
            frame_id: 8,
            skin_id: 4,
        },
        Entity {
            model_id: 0,
            frame_id: 9,
            skin_id: 5,
        },
    ];
    renderer
        .update_uniform_buffers(&mut state, 100, &entities, &[10, 20, 30, 40, 50], &[7, 8])
        .unwrap();
    assert!(renderer.is_ready_for(&entities));
    assert_eq!(state.entity_uniform_buffer().flushed(), &[100, 10, 20, 30, 40, 50]);
    assert_eq!(state.glyph_uniform_buffer().flushed(), &[7, 8]);
    let plan = renderer.render_pass(&state, 640, 480, &entities).unwrap();
    let depth_attachment = DepthAttachment {
        width: 640,
        height: 480,
        generation: 0,
    };
    assert_eq!(
        plan,
        vec![
            DrawCommand::BeginPass { depth_attachment },
            DrawCommand::BindFrameGroup,
            DrawCommand::BindEntityGroup { dynamic_offset: 0 },
            DrawCommand::DrawWorld { block_offset: 0 },
            DrawCommand::BindEntityGroup {
                dynamic_offset: 256
            },
            DrawCommand::DrawSprite {
                renderer: 2,
                frame_id: 5
            },
            DrawCommand::BindEntityGroup {
                dynamic_offset: 512
            },
            DrawCommand::DrawAlias {
                renderer: 0,
                frame_id: 6,
                skin_id: 2
            },
            DrawCommand::BindEntityGroup {
                dynamic_offset: 768
            },
            DrawCommand::Skip { entity: 2 },
            DrawCommand::BindEntityGroup {
                dynamic_offset: 1024
            },
            DrawCommand::DrawBrush {
                renderer: 1,
                block_offset: 1024
            },
            DrawCommand::BindEntityGroup {
                dynamic_offset: 1280
            },
            DrawCommand::Skip { entity: 4 },
            DrawCommand::DrawGlyph { block_offset: 0 },
            DrawCommand::DrawGlyph { block_offset: 256 },
        ]
    );
    assert!(!renderer.is_ready_for(&entities));
}

#[test]
fn every_entity_reads_back_its_own_uniforms_at_its_dynamic_offset() {
    let mut state = state();
    let mut renderer = Renderer::new(&[ModelKind::Brush, ModelKind::Alias], 0, &mut state, 0).unwrap();
    let entities: Vec<Entity> = (0..20).map(|_| entity(1)).collect();
    let uniforms: Vec<u64> = (0..20).map(|i| 1000 + i).collect();
    renderer
        .update_uniform_buffers(&mut state, 5, &entities, &uniforms, &[])
        .unwrap();
    let plan = renderer.render_pass(&state, 640, 480, &entities).unwrap();
    assert_eq!(plan.len(), 4 + 2 * 20);
    assert_eq!(state.entity_uniform_buffer().read_back(0), Some(5));
    for i in 0..20 {
        let offset = match plan[4 + 2 * i] {
            DrawCommand::BindEntityGroup { dynamic_offset } => dynamic_offset,
            _ => panic!("expected a bind"),
        };
        assert_eq!(offset % 256, 0);
        assert_eq!(offset, renderer.entity_uniform_blocks()[i].offset());
        assert_eq!(
            state.entity_uniform_buffer().read_back(offset),
            Some(1000 + i as u64)
        );
        assert_eq!(
            plan[4 + 2 * i + 1],
            DrawCommand::DrawAlias {
                renderer: 0,
                frame_id: 0,
                skin_id: 0
            }
        );
    }
}

#[test]
fn entity_blocks_are_reused_and_never_given_up() {
    let mut state = state();
    let mut renderer = Renderer::new(&[ModelKind::Brush, ModelKind::Alias], 0, &mut state, 0).unwrap();
    let three = [entity(1), entity(1), entity(1)];
    renderer
        .update_uniform_buffers(&mut state, 1, &three, &[11, 12, 13], &[])
        .unwrap();
    let offsets: Vec<u32> = renderer
        .entity_uniform_blocks()
        .iter()
        .map(|b| b.offset())
        .collect();
    assert_eq!(offsets, vec![256, 512, 768]);
    assert_eq!(state.entity_uniform_buffer().len(), 4);
    renderer
        .update_uniform_buffers(&mut state, 2, &three[..1], &[21], &[])
        .unwrap();
    assert_eq!(renderer.entity_uniform_blocks().len(), 3);
    assert_eq!(state.entity_uniform_buffer().len(), 4);
    assert_eq!(state.entity_uniform_buffer().flushed(), &[2, 21, 12, 13]);
    let five = [entity(1); 5];
    renderer
        .update_uniform_buffers(&mut state, 3, &five, &[31, 32, 33, 34, 35], &[])
        .unwrap();
    let offsets: Vec<u32> = renderer
        .entity_uniform_blocks()
        .iter()
        .map(|b| b.offset())
        .collect();
    assert_eq!(offsets, vec![256, 512, 768, 1024, 1280]);
    assert_eq!(state.entity_uniform_buffer().flushed(), &[3, 31, 32, 33, 34, 35]);
    assert!(renderer.is_attached(&state));
}

#[test]
fn glyph_blocks_are_made_anew_every_frame() {
    let mut state = state();
    let mut renderer = Renderer::new(&[ModelKind::Brush], 0, &mut state, 0).unwrap();
    renderer
        .update_uniform_buffers(&mut state, 0, &[], &[], &[1, 2, 3])
        .unwrap();
    assert_eq!(state.glyph_uniform_buffer().generation(), 1);
    assert_eq!(state.glyph_uniform_buffer().flushed(), &[1, 2, 3]);
    assert_eq!(renderer.glyph_uniform_blocks().len(), 3);
    renderer
        .update_uniform_buffers(&mut state, 0, &[], &[], &[9])
        .unwrap();
    assert_eq!(state.glyph_uniform_buffer().generation(), 2);
    assert_eq!(state.glyph_uniform_buffer().flushed(), &[9]);
    assert_eq!(state.glyph_uniform_buffer().read_back(256), None);
    assert_eq!(renderer.glyph_uniform_blocks().len(), 1);
    assert_eq!(renderer.glyph_uniform_blocks()[0].offset(), 0);
    let plan = renderer.render_pass(&state, 640, 480, &[]).unwrap();
    assert_eq!(plan.len(), 5);
    assert_eq!(plan[4], DrawCommand::DrawGlyph { block_offset: 0 });
    renderer
        .update_uniform_buffers(&mut state, 0, &[], &[], &[])
        .unwrap();
    assert!(renderer.glyph_uniform_blocks().is_empty());
    assert_eq!(state.glyph_uniform_buffer().len(), 0);
    assert_eq!(renderer.render_pass(&state, 640, 480, &[]).unwrap().len(), 4);
}

fn pass_fault(
    renderer: &mut Renderer<u64, u32>,
    state: &State,
    width: u32,
    height: u32,
    entities: &[Entity],
) -> RenderErrorKind {
    match renderer.render_pass(state, width, height, entities) {
        Ok(_) => panic!("expected an error"),
        Err(error) => error.kind(),
    }
}

#[test]
fn pass_needs_the_uniforms_of_its_frame() {
    let mut state = state();
    let models = [ModelKind::Brush, ModelKind::Alias, ModelKind::Brush];
    let mut renderer = Renderer::new(&models, 0, &mut state, 0).unwrap();
    let a = Entity {
        model_id: 1,
        frame_id: 1,
        skin_id: 0,
    };
    let b = Entity {
        model_id: 2,
        frame_id: 2,
        skin_id: 0,
    };
    assert_eq!(
        pass_fault(&mut renderer, &state, 640, 480, &[]),
        RenderErrorKind::UniformsNotUpdated
    );
    renderer
        .update_uniform_buffers(&mut state, 0, &[a, b], &[1, 2], &[])
        .unwrap();
    assert_eq!(
        pass_fault(&mut renderer, &state, 640, 480, &[b, a]),
        RenderErrorKind::UniformsNotUpdated
    );
    assert_eq!(
        pass_fault(&mut renderer, &state, 640, 480, &[a]),
        RenderErrorKind::UniformsNotUpdated
    );
    assert_eq!(
        pass_fault(&mut renderer, &state, 640, 480, &[a, b, a]),
        RenderErrorKind::UniformsNotUpdated
    );
    let mut other = a;
    other.skin_id = 1;
    assert_eq!(
        pass_fault(&mut renderer, &state, 640, 480, &[other, b]),
        RenderErrorKind::UniformsNotUpdated
    );
    assert!(renderer.is_ready_for(&[a, b]));
    assert!(renderer.render_pass(&state, 640, 480, &[a, b]).is_ok());
    assert_eq!(
        pass_fault(&mut renderer, &state, 640, 480, &[a, b]),
        RenderErrorKind::UniformsNotUpdated
    );
}

#[test]
fn pass_after_a_resize_renders_to_the_new_depth_attachment() {
    let mut state = state();
    let mut renderer = Renderer::new(&[ModelKind::Brush], 0, &mut state, 0).unwrap();
    let before = state.depth_attachment();
    renderer
        .update_uniform_buffers(&mut state, 0, &[], &[], &[])
        .unwrap();
    state.recreate_depth_attachment(800, 600).unwrap();
    assert_eq!(
        pass_fault(&mut renderer, &state, 640, 480, &[]),
        RenderErrorKind::ViewportMismatch
    );
    assert_eq!(
        pass_fault(&mut renderer, &state, 800, 480, &[]),
        RenderErrorKind::ViewportMismatch
    );
    let plan = renderer.render_pass(&state, 800, 600, &[]).unwrap();
    let after = DepthAttachment {
        width: 800,
        height: 600,
        generation: 1,
    };
    assert_eq!(
        plan[0],
        DrawCommand::BeginPass {
            depth_attachment: after
        }
    );
    for command in &plan {
        assert_ne!(
            *command,
            DrawCommand::BeginPass {
                depth_attachment: before
            }
        );
    }
    renderer
        .update_uniform_buffers(&mut state, 0, &[], &[], &[])
        .unwrap();
    state.recreate_depth_attachment(640, 480).unwrap();
    let plan = renderer.render_pass(&state, 640, 480, &[]).unwrap();
    assert_eq!(
        plan[0],
        DrawCommand::BeginPass {
            depth_attachment: DepthAttachment {
                width: 640,
                height: 480,
                generation: 2
            }
        }
    );
    assert_ne!(
        plan[0],
        DrawCommand::BeginPass {
            depth_attachment: before
        }
    );
}

fn update_fault(
    renderer: &mut Renderer<u64, u32>,
    state: &mut State,
    entities: &[Entity],
    uniforms: &[u64],
    glyphs: &[u32],
) -> RenderErrorKind {
    match renderer.update_uniform_buffers(state, 0, entities, uniforms, glyphs) {
        Ok(_) => panic!("expected an error"),
        Err(error) => error.kind(),
    }
}

#[test]
fn update_needs_one_uniform_value_per_entity() {
    let mut state = state();
    let mut renderer = Renderer::new(&[ModelKind::Brush, ModelKind::Alias], 0, &mut state, 3).unwrap();
    assert_eq!(
        update_fault(&mut renderer, &mut state, &[entity(1)], &[], &[9]),
        RenderErrorKind::EntityCountMismatch
    );
    assert_eq!(
        update_fault(&mut renderer, &mut state, &[], &[1], &[9]),
        RenderErrorKind::EntityCountMismatch
    );
    assert_eq!(state.entity_uniform_buffer().staged(), &[3]);
    assert_eq!(state.glyph_uniform_buffer().generation(), 0);
    assert!(!renderer.is_ready_for(&[]));
}

#[test]
fn update_refuses_a_state_that_lost_its_blocks() {
    let mut state = state();
    let mut renderer = Renderer::new(&[ModelKind::Brush, ModelKind::Alias], 0, &mut state, 3).unwrap();
    renderer
        .update_uniform_buffers(&mut state, 0, &[entity(1)], &[1], &[])
        .unwrap();
    let mut other = self::state();
    assert!(!renderer.is_attached(&other));
    assert_eq!(
        update_fault(&mut renderer, &mut other, &[entity(1)], &[1], &[]),
        RenderErrorKind::StaleBlock
    );
    assert_eq!(other.entity_uniform_buffer().len(), 0);
    assert_eq!(
        pass_fault(&mut renderer, &other, 640, 480, &[entity(1)]),
        RenderErrorKind::StaleBlock
    );
    state.entity_uniform_buffer_mut().clear().unwrap();
    assert!(!renderer.is_attached(&state));
    assert_eq!(
        update_fault(&mut renderer, &mut state, &[entity(1)], &[1], &[]),
        RenderErrorKind::StaleBlock
    );
    assert_eq!(
        pass_fault(&mut renderer, &state, 640, 480, &[entity(1)]),
        RenderErrorKind::StaleBlock
    );
}

#[test]
fn pass_refuses_glyph_blocks_that_were_cleared() {
    let mut state = state();
    let mut renderer = Renderer::new(&[ModelKind::Brush], 0, &mut state, 3).unwrap();
    renderer
        .update_uniform_buffers(&mut state, 0, &[], &[], &[1])
        .unwrap();
    state.glyph_uniform_buffer_mut().clear().unwrap();
    assert_eq!(
        pass_fault(&mut renderer, &state, 640, 480, &[]),
        RenderErrorKind::StaleBlock
    );
    assert!(renderer.is_ready_for(&[]));
}

#[test]
fn update_fails_whole_where_blocks_run_out() {
    let mut state: GraphicsState<u64, u32> =
        GraphicsState::new::<u8>(1, 1, 0x4000_0000, 0, 0, 0, 0).unwrap();
    let mut renderer = Renderer::new(&[ModelKind::Brush, ModelKind::Alias], 0, &mut state, 3).unwrap();
    let four = [entity(1); 4];
    assert_eq!(
        update_fault(&mut renderer, &mut state, &four, &[1, 2, 3, 4], &[]),
        RenderErrorKind::BufferFull
    );
    assert_eq!(state.entity_uniform_buffer().staged(), &[3]);
    assert!(renderer.entity_uniform_blocks().is_empty());
    assert_eq!(
        update_fault(&mut renderer, &mut state, &[], &[], &[1, 2, 3, 4, 5]),
        RenderErrorKind::BufferFull
    );
    assert_eq!(state.glyph_uniform_buffer().generation(), 0);
    renderer
        .update_uniform_buffers(&mut state, 9, &four[..3], &[1, 2, 3], &[1, 2, 3, 4])
        .unwrap();
    assert_eq!(state.entity_uniform_buffer().flushed(), &[9, 1, 2, 3]);
    assert_eq!(renderer.entity_uniform_blocks()[2].offset(), 0xC000_0000);
    assert_eq!(renderer.glyph_uniform_blocks()[3].offset(), 0xC000_0000);
    assert_eq!(
        update_fault(&mut renderer, &mut state, &four, &[1, 2, 3, 4], &[]),
        RenderErrorKind::BufferFull
    );
    assert_eq!(state.entity_uniform_buffer().flushed(), &[9, 1, 2, 3]);
}

#[test]
fn lightstyle_table_holds_the_first_values() {
    assert_eq!(LIGHTSTYLE_COUNT, 64);
    let values: Vec<f32> = (0..70).map(|i| i as f32 * 0.5).collect();
    let frames = lightmap_anim_frames(&values).unwrap();
    assert_eq!(frames.len(), 64);
    assert_eq!(frames, values[..64].to_vec());
    assert_eq!(frames[63], 31.5);
    let exact: Vec<f32> = (0..64).map(|i| i as f32).collect();
    assert_eq!(lightmap_anim_frames(&exact).unwrap(), exact);
}

#[test]
fn lightstyle_table_needs_all_its_values() {
    let values = [1.0f32; 63];
    assert_eq!(
        lightmap_anim_frames(&values).unwrap_err().kind(),
        RenderErrorKind::MissingLightstyles
    );
    let none: [f32; 0] = [];
    assert_eq!(
        lightmap_anim_frames(&none).unwrap_err().kind(),
        RenderErrorKind::MissingLightstyles
    );
}
