//! The renderer of one loaded set of models: which sub-renderer draws
//! which entity, which uniform block belongs to which entity, and what a
//! frame consists of, first the uniforms and then the draw calls.

use crate::error::{RenderError, RenderErrorKind};
use crate::state::{DepthAttachment, GraphicsState, GraphicsStateModel};
use crate::uniform::{DynamicUniformBuffer, DynamicUniformBufferBlock};
use crate::uniform_model::{
    lemma_allocate_keeps_blocks, lemma_apply_all_step, lemma_block_below_next,
    lemma_block_within_capacity,
    lemma_offset_of_index, lemma_room_after_allocate, lemma_write_keeps_others, BlockId,
    UniformBufferModel, UniformOp,
};
use vstd::prelude::*;

verus! {

/// How a sprite is oriented in the world.
#[derive(Clone, Copy, Debug, PartialEq, Eq, Structural)]
pub enum SpriteKind {
    ViewPlaneParallelUpright,
    Upright,
    ViewPlaneParallel,
    Oriented,
    ViewPlaneParallelOriented,
}

/// What kind of asset a model is.
#[derive(Clone, Copy, Debug, PartialEq, Eq, Structural)]
pub enum ModelKind {
    /// Nothing that the renderer can draw.
    Unsupported,
    /// Static geometry.
    Brush,
    /// A model animated by keyframes.
    Alias,
    /// A billboard.
    Sprite(SpriteKind),
}

/// The sub-renderer that draws the entities of one model.
#[derive(Clone, Copy, Debug, PartialEq, Eq, Structural)]
pub enum EntityRenderer {
    Alias,
    Brush,
    Sprite(SpriteKind),
    /// No sub-renderer: entities of such a model are left out.
    Unsupported,
}

/// What the renderer reads of an entity in a frame.
#[derive(Clone, Copy, Debug, PartialEq, Eq, Structural)]
pub struct Entity {
    pub model_id: usize,
    pub frame_id: usize,
    pub skin_id: usize,
}

/// Where an angle of the rotation of an entity is taken from.
#[derive(Clone, Copy, Debug, PartialEq, Eq, Structural)]
pub enum AngleSource {
    /// The angle of the entity itself.
    Entity,
    /// The negated angle of the camera.
    InverseCamera,
}

/// Where the three angles of the rotation of an entity are taken from.
/// The transform of the entity is that of the camera, times the
/// translation to the origin of the entity, times this rotation.
#[derive(Clone, Copy, Debug, PartialEq, Eq, Structural)]
pub struct EulerSources {
    pub x: AngleSource,
    pub y: AngleSource,
    pub z: AngleSource,
}

/// The sub-renderer for a model of kind `kind`.
pub open spec fn spec_classify(kind: ModelKind) -> EntityRenderer {
    match kind {
        ModelKind::Alias => EntityRenderer::Alias,
        ModelKind::Brush => EntityRenderer::Brush,
        ModelKind::Sprite(sprite) => EntityRenderer::Sprite(sprite),
        ModelKind::Unsupported => EntityRenderer::Unsupported,
    }
}

#[verifier::when_used_as_spec(spec_classify)]
pub fn classify(kind: ModelKind) -> (renderer: EntityRenderer)
    ensures
        renderer == spec_classify(kind),
{
    match kind {
        ModelKind::Alias => EntityRenderer::Alias,
        ModelKind::Brush => EntityRenderer::Brush,
        ModelKind::Sprite(sprite) => EntityRenderer::Sprite(sprite),
        ModelKind::Unsupported => EntityRenderer::Unsupported,
    }
}

/// Whether `world` names a model of `models` that can be the world.
pub open spec fn spec_valid_world(models: Seq<ModelKind>, world: usize) -> bool {
    world < models.len() && models[world as int] == ModelKind::Brush
}

/// The sub-renderers for `models`, in order, without the world.
pub open spec fn spec_entity_renderers(models: Seq<ModelKind>, world: usize) -> Seq<
    EntityRenderer,
> {
    Seq::new(
        (models.len() - 1) as nat,
        |i: int|
            if i < world {
                spec_classify(models[i])
            } else {
                spec_classify(models[i + 1])
            },
    )
}

/// Where the sub-renderer of model `model_id` stands in a table of `count`
/// sub-renderers that leaves out the model `world`, if it stands there.
pub open spec fn spec_renderer_slot(model_id: usize, world: usize, count: nat) -> Option<usize> {
    if model_id < world && model_id < count {
        Some(model_id)
    } else if model_id > world && model_id - 1 < count {
        Some((model_id - 1) as usize)
    } else {
        None
    }
}

pub fn renderer_slot(model_id: usize, world: usize, count: usize) -> (slot: Option<usize>)
    ensures
        slot == spec_renderer_slot(model_id, world, count as nat),
{
    if model_id < world && model_id < count {
        Some(model_id)
    } else if model_id > world && model_id - 1 < count {
        Some(model_id - 1)
    } else {
        None
    }
}

/// The sub-renderer that a table gives for model `model_id`: none for the
/// world and for a model that the table does not know.
pub open spec fn spec_renderer_for(
    renderers: Seq<EntityRenderer>,
    world: usize,
    model_id: usize,
) -> EntityRenderer {
    match spec_renderer_slot(model_id, world, renderers.len()) {
        Some(slot) => renderers[slot as int],
        None => EntityRenderer::Unsupported,
    }
}

/// Looking a model up in the table made from `models` gives the
/// sub-renderer of the kind of that very model, for every model but the
/// world.
pub proof fn lemma_dispatch_matches_model(models: Seq<ModelKind>, world: usize, model_id: usize)
    requires
        world < models.len(),
        model_id < models.len(),
        model_id != world,
    ensures
        spec_renderer_for(spec_entity_renderers(models, world), world, model_id) == spec_classify(
            models[model_id as int],
        ),
{
}

/// The angles that rotate an entity drawn by `renderer`. A sprite faces
/// the camera and keeps its own roll, unless it is oriented; everything
/// else has its own angles.
pub open spec fn spec_euler_sources(renderer: EntityRenderer) -> EulerSources {
    match renderer {
        EntityRenderer::Sprite(SpriteKind::Oriented) => EulerSources {
            x: AngleSource::Entity,
            y: AngleSource::Entity,
            z: AngleSource::Entity,
        },
        EntityRenderer::Sprite(_) => EulerSources {
            x: AngleSource::InverseCamera,
            y: AngleSource::InverseCamera,
            z: AngleSource::Entity,
        },
        _ => EulerSources {
            x: AngleSource::Entity,
            y: AngleSource::Entity,
            z: AngleSource::Entity,
        },
    }
}

/// The number of lightstyle values that the frame uniforms hold.
pub const LIGHTSTYLE_COUNT: usize = 64;

/// The table of lightmap animation frames for the frame uniforms: the
/// first `LIGHTSTYLE_COUNT` of the given values. Fails where there are
/// fewer.
pub fn lightmap_anim_frames<V: Copy>(lightstyle_values: &[V]) -> (result: Result<
    Vec<V>,
    RenderError,
>)
    ensures
        match result {
            Ok(frames) => lightstyle_values@.len() >= LIGHTSTYLE_COUNT && frames@
                == lightstyle_values@.subrange(0, LIGHTSTYLE_COUNT as int),
            Err(error) => lightstyle_values@.len() < LIGHTSTYLE_COUNT && error.kind
                == RenderErrorKind::MissingLightstyles,
        },
{
    if lightstyle_values.len() < LIGHTSTYLE_COUNT {
        return Err(RenderError::new(RenderErrorKind::MissingLightstyles));
    }
    let mut frames: Vec<V> = Vec::new();
    let mut i: usize = 0;
    while i < LIGHTSTYLE_COUNT
        invariant
            i <= LIGHTSTYLE_COUNT,
            lightstyle_values@.len() >= LIGHTSTYLE_COUNT,
            frames@ == lightstyle_values@.subrange(0, i as int),
        decreases LIGHTSTYLE_COUNT - i,
    {
        frames.push(lightstyle_values[i]);
        assert(frames@ =~= lightstyle_values@.subrange(0, i + 1));
        i = i + 1;
    }
    Ok(frames)
}

/// What a `Renderer` is, apart from how it is stored.
pub struct RendererModel {
    /// The index of the world among the models.
    pub worldmodel_id: usize,
    /// The sub-renderers of the models, in order, without the world.
    pub entity_renderers: Seq<EntityRenderer>,
    /// The block that holds the uniforms of the world.
    pub world_block: BlockId,
    /// The blocks that hold the uniforms of the entities: the `n`th block
    /// belongs to the `n`th entity of a frame.
    pub entity_blocks: Seq<BlockId>,
    /// The blocks that hold the uniforms of the glyphs of the last frame.
    pub glyph_blocks: Seq<BlockId>,
    /// The entities that the uniforms were written for and that have not
    /// been drawn yet, if a pass is due.
    pub pending: Option<Seq<Entity>>,
}

/// Whether `world` and `blocks` are blocks of `buffer`, each its own: the
/// block of the world lies first and the others follow in order.
pub open spec fn spec_blocks_attached<E>(
    world: BlockId,
    blocks: Seq<BlockId>,
    buffer: UniformBufferModel<E>,
) -> bool {
    &&& buffer.holds_block(world)
    &&& forall|i: int|
        0 <= i < blocks.len() ==> buffer.holds_block(#[trigger] blocks[i]) && world.offset
            < blocks[i].offset
    &&& forall|i: int, j: int|
        0 <= i < j < blocks.len() ==> (#[trigger] blocks[i]).offset < (#[trigger] blocks[j]).offset
}

/// The staging steps of the entity uniforms in one frame: the world is
/// written first; then, entity by entity, the block of the entity is
/// written where there is one, and allocated where there is none yet.
pub open spec fn spec_entity_ops<E>(
    world: BlockId,
    blocks: Seq<BlockId>,
    world_uniforms: E,
    uniforms: Seq<E>,
) -> Seq<UniformOp<E>> {
    Seq::new(
        uniforms.len() + 1,
        |k: int|
            if k == 0 {
                UniformOp::Write(world.offset as nat, world_uniforms)
            } else if k - 1 < blocks.len() {
                UniformOp::Write(blocks[k - 1].offset as nat, uniforms[k - 1])
            } else {
                UniformOp::Allocate(uniforms[k - 1])
            },
    )
}

/// The staging steps of the glyph uniforms in one frame: one new block
/// after the other.
pub open spec fn spec_glyph_ops<G>(uniforms: Seq<G>) -> Seq<UniformOp<G>> {
    Seq::new(uniforms.len(), |k: int| UniformOp::Allocate(uniforms[k]))
}

/// Whether each of `blocks` is a block of `buffer`.
pub open spec fn spec_blocks_held<G>(blocks: Seq<BlockId>, buffer: UniformBufferModel<G>) -> bool {
    forall|i: int| 0 <= i < blocks.len() ==> buffer.holds_block(#[trigger] blocks[i])
}

/// The number of blocks that are missing for `count` entities where there
/// are `blocks` already.
pub open spec fn spec_missing_blocks(count: nat, blocks: nat) -> nat {
    if count > blocks {
        (count - blocks) as nat
    } else {
        0
    }
}

/// One step of a render pass.
#[derive(Clone, Copy, Debug, PartialEq, Eq, Structural)]
pub enum DrawCommand {
    /// Begin the pass, with this depth attachment, cleared.
    BeginPass { depth_attachment: DepthAttachment },
    /// Bind the group of the frame uniforms.
    BindFrameGroup,
    /// Bind the group of the entity uniforms, at this dynamic offset.
    BindEntityGroup { dynamic_offset: u32 },
    /// Draw the world, whose uniforms lie at `block_offset`.
    DrawWorld { block_offset: u32 },
    /// Draw a piece of static geometry with the sub-renderer at `renderer`.
    DrawBrush { renderer: usize, block_offset: u32 },
    /// Draw a keyframe model with the sub-renderer at `renderer`.
    DrawAlias { renderer: usize, frame_id: usize, skin_id: usize },
    /// Draw a sprite with the sub-renderer at `renderer`.
    DrawSprite { renderer: usize, frame_id: usize },
    /// Leave out the entity at `entity`, with a warning: nothing draws it.
    Skip { entity: usize },
    /// Draw the glyph whose uniforms lie at `block_offset`.
    DrawGlyph { block_offset: u32 },
}

impl RendererModel {
    /// Whether a pass over `entities` is due: their uniforms are the ones
    /// written last, and nothing has been drawn since.
    pub open spec fn ready_for(self, entities: Seq<Entity>) -> bool {
        self.pending == Some(entities) && entities.len() <= self.entity_blocks.len()
    }

    /// The draw call for the entity at `index` of a frame.
    pub open spec fn entity_draw(self, entity: Entity, index: int) -> DrawCommand {
        match spec_renderer_slot(entity.model_id, self.worldmodel_id, self.entity_renderers.len()) {
            Some(slot) => match self.entity_renderers[slot as int] {
                EntityRenderer::Brush => DrawCommand::DrawBrush {
                    renderer: slot,
                    block_offset: self.entity_blocks[index].offset,
                },
                EntityRenderer::Alias => DrawCommand::DrawAlias {
                    renderer: slot,
                    frame_id: entity.frame_id,
                    skin_id: entity.skin_id,
                },
                EntityRenderer::Sprite(_) => DrawCommand::DrawSprite {
                    renderer: slot,
                    frame_id: entity.frame_id,
                },
                EntityRenderer::Unsupported => DrawCommand::Skip { entity: index as usize },
            },
            None => DrawCommand::Skip { entity: index as usize },
        }
    }

    /// What begins every pass: the frame group is bound once, then the
    /// world is drawn.
    pub open spec fn pass_head(self, depth_attachment: DepthAttachment) -> Seq<DrawCommand> {
        seq![
            DrawCommand::BeginPass { depth_attachment },
            DrawCommand::BindFrameGroup,
            DrawCommand::BindEntityGroup { dynamic_offset: self.world_block.offset },
            DrawCommand::DrawWorld { block_offset: self.world_block.offset },
        ]
    }

    /// The steps for the entities: for each in turn, its block is bound and
    /// its sub-renderer draws it.
    pub open spec fn pass_entities(self, entities: Seq<Entity>) -> Seq<DrawCommand> {
        Seq::new(
            2 * entities.len(),
            |k: int|
                if k % 2 == 0 {
                    DrawCommand::BindEntityGroup { dynamic_offset: self.entity_blocks[k / 2].offset }
                } else {
                    self.entity_draw(entities[k / 2], k / 2)
                },
        )
    }

    /// The steps for the glyphs, one each.
    pub open spec fn pass_glyphs(self) -> Seq<DrawCommand> {
        Seq::new(
            self.glyph_blocks.len(),
            |k: int| DrawCommand::DrawGlyph { block_offset: self.glyph_blocks[k].offset },
        )
    }

    /// The whole pass: the head, the entities in their order, the glyphs.
    pub open spec fn render_plan(
        self,
        depth_attachment: DepthAttachment,
        entities: Seq<Entity>,
    ) -> Seq<DrawCommand> {
        self.pass_head(depth_attachment) + self.pass_entities(entities) + self.pass_glyphs()
    }

    /// Whether the blocks of the renderer are blocks of the buffer
    /// `entity`, each its own: the block of the world lies first and those
    /// of the entities follow in order.
    pub open spec fn attached<E>(self, entity: UniformBufferModel<E>) -> bool {
        spec_blocks_attached(self.world_block, self.entity_blocks, entity)
    }

    /// The sub-renderer that draws `entity`.
    pub open spec fn renderer_for(self, entity: Entity) -> EntityRenderer {
        spec_renderer_for(self.entity_renderers, self.worldmodel_id, entity.model_id)
    }
}

/// The top-level renderer of one set of models. `E` is the type of the
/// uniforms of an entity and `G` that of a glyph.
pub struct Renderer<E: Copy, G: Copy> {
    worldmodel_id: usize,
    entity_renderers: Vec<EntityRenderer>,
    world_uniform_block: DynamicUniformBufferBlock<E>,
    entity_uniform_blocks: Vec<DynamicUniformBufferBlock<E>>,
    glyph_uniform_blocks: Vec<DynamicUniformBufferBlock<G>>,
    pending: Option<Vec<Entity>>,
}

/// What the handles `blocks` say, in order.
pub open spec fn spec_block_ids<T>(blocks: Seq<DynamicUniformBufferBlock<T>>) -> Seq<BlockId> {
    Seq::new(blocks.len(), |i: int| blocks[i]@)
}

impl<E: Copy, G: Copy> View for Renderer<E, G> {
    type V = RendererModel;

    closed spec fn view(&self) -> RendererModel {
        RendererModel {
            worldmodel_id: self.worldmodel_id,
            entity_renderers: self.entity_renderers@,
            world_block: self.world_uniform_block@,
            entity_blocks: spec_block_ids(self.entity_uniform_blocks@),
            glyph_blocks: spec_block_ids(self.glyph_uniform_blocks@),
            pending: match self.pending {
                Some(entities) => Some(entities@),
                None => None,
            },
        }
    }
}

impl<E: Copy, G: Copy> Renderer<E, G> {
    /// Makes the renderer for `models`, of which the one at `worldmodel_id`
    /// is the world. Every other model is given its sub-renderer, once and
    /// for all. The world gets a block of the entity uniforms of `state`,
    /// which holds `world_uniforms` to begin with. Fails, and leaves
    /// `state` as it is, where there is no model at `worldmodel_id` or it
    /// is not static geometry, and where the block cannot be had.
    pub fn new(
        models: &[ModelKind],
        worldmodel_id: usize,
        state: &mut GraphicsState<E, G>,
        world_uniforms: E,
    ) -> (result: Result<Renderer<E, G>, RenderError>)
        ensures
            match result {
                Ok(renderer) => {
                    &&& spec_valid_world(models@, worldmodel_id)
                    &&& old(state)@.entity_uniforms.can_allocate()
                    &&& final(state)@ == (GraphicsStateModel {
                        entity_uniforms: old(state)@.entity_uniforms.allocate(world_uniforms),
                        ..old(state)@
                    })
                    &&& renderer@ == (RendererModel {
                        worldmodel_id,
                        entity_renderers: spec_entity_renderers(models@, worldmodel_id),
                        world_block: BlockId {
                            offset: old(state)@.entity_uniforms.next_offset() as u32,
                            generation: old(state)@.entity_uniforms.generation as u64,
                        },
                        entity_blocks: Seq::empty(),
                        glyph_blocks: Seq::empty(),
                        pending: None,
                    })
                    &&& renderer@.attached(final(state)@.entity_uniforms)
                },
                Err(error) => {
                    &&& final(state)@ == old(state)@
                    &&& error.kind == if !spec_valid_world(models@, worldmodel_id) {
                        RenderErrorKind::InvalidWorldModel
                    } else {
                        RenderErrorKind::BufferFull
                    }
                    &&& (!spec_valid_world(models@, worldmodel_id)
                        || !old(state)@.entity_uniforms.can_allocate())
                },
            },
    {
        if worldmodel_id >= models.len() {
            return Err(RenderError::new(RenderErrorKind::InvalidWorldModel));
        }
        match models[worldmodel_id] {
            ModelKind::Brush => {},
            _ => {
                return Err(RenderError::new(RenderErrorKind::InvalidWorldModel));
            },
        }
        let buffer = state.entity_uniform_buffer();
        proof {
            use_type_invariant(buffer);
            buffer.lemma_inv();
            lemma_allocate_keeps_blocks(buffer@, world_uniforms);
        }
        let world_uniform_block = match state.entity_uniform_buffer_mut().allocate(world_uniforms) {
            Ok(block) => block,
            Err(error) => {
                return Err(error);
            },
        };
        let mut entity_renderers: Vec<EntityRenderer> = Vec::new();
        let mut i: usize = 0;
        while i < models.len()
            invariant
                i <= models@.len(),
                worldmodel_id < models@.len(),
                entity_renderers@.len() == if i <= worldmodel_id {
                    i as int
                } else {
                    i - 1
                },
                forall|k: int|
                    0 <= k < entity_renderers@.len() ==> #[trigger] entity_renderers@[k]
                        == spec_entity_renderers(models@, worldmodel_id)[k],
            decreases models@.len() - i,
        {
            if i != worldmodel_id {
                entity_renderers.push(classify(models[i]));
            }
            i = i + 1;
        }
        assert(entity_renderers@ =~= spec_entity_renderers(models@, worldmodel_id));
        let renderer = Renderer {
            worldmodel_id,
            entity_renderers,
            world_uniform_block,
            entity_uniform_blocks: Vec::new(),
            glyph_uniform_blocks: Vec::new(),
            pending: None,
        };
        proof {
            assert(renderer@.entity_blocks =~= Seq::empty());
            assert(renderer@.glyph_blocks =~= Seq::empty());
        }
        Ok(renderer)
    }

    /// The index of the world among the models.
    pub fn worldmodel_id(&self) -> (id: usize)
        ensures
            id == self@.worldmodel_id,
    {
        self.worldmodel_id
    }

    /// The sub-renderers of the models, in order, without the world.
    pub fn entity_renderers(&self) -> (renderers: &[EntityRenderer])
        ensures
            renderers@ == self@.entity_renderers,
    {
        self.entity_renderers.as_slice()
    }

    /// The block that holds the uniforms of the world.
    pub fn world_uniform_block(&self) -> (block: &DynamicUniformBufferBlock<E>)
        ensures
            block@ == self@.world_block,
    {
        &self.world_uniform_block
    }

    /// The blocks that hold the uniforms of the entities.
    pub fn entity_uniform_blocks(&self) -> (blocks: &[DynamicUniformBufferBlock<E>])
        ensures
            spec_block_ids(blocks@) == self@.entity_blocks,
    {
        self.entity_uniform_blocks.as_slice()
    }

    /// The blocks that hold the uniforms of the glyphs.
    pub fn glyph_uniform_blocks(&self) -> (blocks: &[DynamicUniformBufferBlock<G>])
        ensures
            spec_block_ids(blocks@) == self@.glyph_blocks,
    {
        self.glyph_uniform_blocks.as_slice()
    }

    /// The sub-renderer that draws `ent`: that of its model. The world and
    /// models that were not loaded have none.
    pub fn renderer_for_entity(&self, ent: &Entity) -> (renderer: EntityRenderer)
        ensures
            renderer == self@.renderer_for(*ent),
    {
        match renderer_slot(ent.model_id, self.worldmodel_id, self.entity_renderers.len()) {
            Some(slot) => self.entity_renderers[slot],
            None => EntityRenderer::Unsupported,
        }
    }

    /// Says which angles make up the rotation in the transform of `entity`.
    pub fn calculate_transform(&self, entity: &Entity) -> (sources: EulerSources)
        ensures
            sources == spec_euler_sources(self@.renderer_for(*entity)),
    {
        match self.renderer_for_entity(entity) {
            EntityRenderer::Sprite(kind) => match kind {
                // used for decals
                SpriteKind::Oriented => EulerSources {
                    x: AngleSource::Entity,
                    y: AngleSource::Entity,
                    z: AngleSource::Entity,
                },
                // keep the sprite facing the viewer, but preserve roll
                _ => EulerSources {
                    x: AngleSource::InverseCamera,
                    y: AngleSource::InverseCamera,
                    z: AngleSource::Entity,
                },
            },
            _ => EulerSources {
                x: AngleSource::Entity,
                y: AngleSource::Entity,
                z: AngleSource::Entity,
            },
        }
    }
}

/// Stages the uniforms of the world and of the entities, the `n`th entity
/// in the `n`th block, and flushes. Blocks that are missing are allocated
/// and added to `blocks`.
fn stage_entities<E: Copy>(
    buffer: &mut DynamicUniformBuffer<E>,
    world: &DynamicUniformBufferBlock<E>,
    blocks: &mut Vec<DynamicUniformBufferBlock<E>>,
    world_uniforms: E,
    uniforms: &[E],
)
    requires
        spec_blocks_attached(world@, spec_block_ids(old(blocks)@), old(buffer)@),
        old(buffer)@.has_room_for(
            spec_missing_blocks(uniforms@.len(), old(blocks)@.len()),
        ),
    ensures
        final(buffer)@ == old(buffer)@.apply_all(
            spec_entity_ops(world@, spec_block_ids(old(blocks)@), world_uniforms, uniforms@),
        ).flush(),
        final(blocks)@.len() == old(blocks)@.len() + spec_missing_blocks(
            uniforms@.len(),
            old(blocks)@.len(),
        ),
        forall|i: int| 0 <= i < old(blocks)@.len() ==> final(blocks)@[i] == old(blocks)@[i],
        forall|i: int|
            old(blocks)@.len() <= i < final(blocks)@.len() ==> (#[trigger] final(blocks)@[i])@.offset
                == (old(buffer)@.staged.len() + i - old(blocks)@.len()) * old(buffer)@.stride
                && final(blocks)@[i]@.generation == old(buffer)@.generation,
        spec_blocks_attached(world@, spec_block_ids(final(blocks)@), final(buffer)@),
        final(buffer)@.read_back(world@.offset as nat) == Some(world_uniforms),
        forall|i: int|
            0 <= i < uniforms@.len() ==> final(buffer)@.read_back(
                (#[trigger] final(blocks)@[i])@.offset as nat,
            ) == Some(uniforms@[i]),
{
    let ghost start = buffer@;
    let ghost held = spec_block_ids(blocks@);
    let ghost ops = spec_entity_ops(world@, held, world_uniforms, uniforms@);
    let ghost old_len = blocks@.len();
    proof {
        use_type_invariant(&*buffer);
        buffer.lemma_inv();
        lemma_apply_all_step(start, ops, 0);
        lemma_write_keeps_others(start, world@.offset as nat, world_uniforms);
    }
    match buffer.write_block(world, world_uniforms) {
        Ok(_) => {},
        Err(error) => {
            assert(false);
        },
    }
    let reused: usize = if uniforms.len() < blocks.len() {
        uniforms.len()
    } else {
        blocks.len()
    };
    let mut i: usize = 0;
    while i < reused
        invariant
            i <= reused,
            reused <= uniforms@.len(),
            reused <= blocks@.len(),
            blocks@ == old(blocks)@,
            held == spec_block_ids(blocks@),
            old_len == blocks@.len(),
            ops == spec_entity_ops(world@, held, world_uniforms, uniforms@),
            spec_blocks_attached(world@, held, start),
            buffer@ == start.apply_all(ops.take(i + 1)),
            buffer@.stride == start.stride,
            buffer@.generation == start.generation,
            buffer@.staged.len() == start.staged.len(),
            buffer@.staged_at(world@.offset as nat) == Some(world_uniforms),
            forall|k: int|
                0 <= k < i ==> buffer@.staged_at((#[trigger] blocks@[k])@.offset as nat) == Some(
                    uniforms@[k],
                ),
        decreases reused - i,
    {
        let ghost before = buffer@;
        let ghost offset = blocks@[i as int]@.offset as nat;
        proof {
            assert(held[i as int] == blocks@[i as int]@);
            assert(start.holds_block(held[i as int]));
            lemma_apply_all_step(start, ops, i + 1);
            lemma_write_keeps_others(before, offset, uniforms@[i as int]);
            assert(ops[i + 1] == UniformOp::Write(offset, uniforms@[i as int]));
            assert(before.has_block_at(world@.offset as nat));
            assert forall|k: int| 0 <= k < i implies before.has_block_at(
                (#[trigger] blocks@[k])@.offset as nat,
            ) && blocks@[k]@.offset as nat != offset by {
                assert(held[k] == blocks@[k]@);
                assert(start.holds_block(held[k]));
                assert(held[k].offset < held[i as int].offset);
            }
        }
        match buffer.write_block(&blocks[i], uniforms[i]) {
            Ok(_) => {},
            Err(error) => {
                assert(false);
            },
        }
        i = i + 1;
    }
    proof {
        use_type_invariant(&*buffer);
        buffer.lemma_inv();
    }
    let mut j: usize = blocks.len();
    while j < uniforms.len()
        invariant
            old_len <= j,
            j == blocks@.len(),
            reused <= uniforms@.len(),
            reused == if uniforms@.len() < old_len {
                uniforms@.len()
            } else {
                old_len
            },
            old_len == old(blocks)@.len(),
            held == spec_block_ids(old(blocks)@),
            ops == spec_entity_ops(world@, held, world_uniforms, uniforms@),
            forall|k: int| 0 <= k < old_len ==> blocks@[k] == old(blocks)@[k],
            forall|k: int|
                old_len <= k < blocks@.len() ==> (#[trigger] blocks@[k])@.offset == (
                start.staged.len() + k - old_len) * start.stride && blocks@[k]@.generation
                    == start.generation,
            buffer@.wf(),
            buffer@.stride == start.stride,
            buffer@.generation == start.generation,
            buffer@.staged.len() == start.staged.len() + (j - old_len),
            j <= uniforms@.len() ==> buffer@ == start.apply_all(ops.take(j + 1)),
            j > uniforms@.len() ==> buffer@ == start.apply_all(ops.take(reused + 1)),
            j <= uniforms@.len() ==> buffer@.has_room_for((uniforms@.len() - j) as nat),
            spec_blocks_attached(world@, spec_block_ids(blocks@), buffer@),
            buffer@.staged_at(world@.offset as nat) == Some(world_uniforms),
            forall|k: int|
                0 <= k < uniforms@.len() && k < j ==> buffer@.staged_at(
                    (#[trigger] blocks@[k])@.offset as nat,
                ) == Some(uniforms@[k]),
        decreases uniforms@.len() - j,
    {
        let ghost before = buffer@;
        let ghost ids = spec_block_ids(blocks@);
        proof {
            lemma_apply_all_step(start, ops, j + 1);
            assert(ops[j + 1] == UniformOp::Allocate(uniforms@[j as int]));
            lemma_room_after_allocate(before, uniforms@[j as int], (uniforms@.len() - j) as nat);
            lemma_allocate_keeps_blocks(before, uniforms@[j as int]);
            lemma_offset_of_index(before.stride, before.staged.len());
            crate::uniform_model::lemma_allocate_wf(before, uniforms@[j as int]);
            lemma_block_below_next(before, world@.offset as nat);
            assert forall|k: int| 0 <= k < ids.len() implies (#[trigger] ids[k]).offset
                < before.next_offset() && before.has_block_at(ids[k].offset as nat) by {
                assert(before.holds_block(ids[k]));
                lemma_block_below_next(before, ids[k].offset as nat);
            }
            assert forall|k: int| 0 <= k < j implies before.has_block_at(
                (#[trigger] blocks@[k])@.offset as nat,
            ) by {
                assert(ids[k] == blocks@[k]@);
            }
        }
        match buffer.allocate(uniforms[j]) {
            Ok(block) => {
                blocks.push(block);
            },
            Err(error) => {
                assert(false);
            },
        }
        proof {
            let after = spec_block_ids(blocks@);
            assert forall|k: int| 0 <= k < after.len() implies buffer@.holds_block(
                #[trigger] after[k],
            ) && world@.offset < after[k].offset by {
                if k < j {
                    assert(after[k] == ids[k]);
                    assert(before.holds_block(ids[k]));
                }
            }
            assert forall|a: int, b: int| 0 <= a < b < after.len() implies (#[trigger] after[a]).offset
                < (#[trigger] after[b]).offset by {
                assert(after[a] == ids[a]);
                if b < j {
                    assert(after[b] == ids[b]);
                }
            }
        }
        j = j + 1;
    }
    proof {
        lemma_apply_all_step(start, ops, uniforms@.len() as int);
        if old_len >= uniforms@.len() {
            assert(reused == uniforms@.len());
        }
    }
    buffer.flush();
}

/// Forgets the blocks of the glyphs of the frame before, then stages the
/// uniforms of the glyphs of this frame, each in a block of its own, and
/// flushes. Returns the new blocks.
fn stage_glyphs<G: Copy>(buffer: &mut DynamicUniformBuffer<G>, uniforms: &[G]) -> (blocks: Vec<
    DynamicUniformBufferBlock<G>,
>)
    requires
        old(buffer)@.generation < u64::MAX,
        old(buffer)@.clear().has_room_for(uniforms@.len()),
    ensures
        final(buffer)@ == old(buffer)@.clear().apply_all(spec_glyph_ops(uniforms@)).flush(),
        final(buffer)@.staged == uniforms@,
        final(buffer)@.device == uniforms@,
        final(buffer)@.stride == old(buffer)@.stride,
        final(buffer)@.generation == old(buffer)@.generation + 1,
        blocks@.len() == uniforms@.len(),
        forall|i: int|
            0 <= i < blocks@.len() ==> (#[trigger] blocks@[i])@.offset == i * old(buffer)@.stride
                && blocks@[i]@.generation == old(buffer)@.generation + 1,
        forall|i: int|
            0 <= i < blocks@.len() ==> final(buffer)@.holds_block((#[trigger] blocks@[i])@)
                && final(buffer)@.read_back(blocks@[i]@.offset as nat) == Some(uniforms@[i]),
{
    let ghost ops = spec_glyph_ops(uniforms@);
    match buffer.clear() {
        Ok(_) => {},
        Err(error) => {
            assert(false);
        },
    }
    let ghost start = buffer@;
    proof {
        use_type_invariant(&*buffer);
        buffer.lemma_inv();
        assert(start.apply_all(ops.take(0)) == start) by {
            assert(ops.take(0).len() == 0);
        }
    }
    let mut blocks: Vec<DynamicUniformBufferBlock<G>> = Vec::new();
    let mut i: usize = 0;
    while i < uniforms.len()
        invariant
            i <= uniforms@.len(),
            i == blocks@.len(),
            ops == spec_glyph_ops(uniforms@),
            start.stride > 0,
            start.staged.len() == 0,
            buffer@.wf(),
            buffer@.stride == start.stride,
            buffer@.generation == start.generation,
            buffer@ == start.apply_all(ops.take(i as int)),
            buffer@.staged == uniforms@.take(i as int),
            buffer@.has_room_for((uniforms@.len() - i) as nat),
            forall|k: int|
                0 <= k < i ==> (#[trigger] blocks@[k])@.offset == k * start.stride
                    && blocks@[k]@.generation == start.generation,
        decreases uniforms@.len() - i,
    {
        let ghost before = buffer@;
        proof {
            lemma_apply_all_step(start, ops, i as int);
            assert(ops[i as int] == UniformOp::Allocate(uniforms@[i as int]));
            lemma_room_after_allocate(before, uniforms@[i as int], (uniforms@.len() - i) as nat);
            crate::uniform_model::lemma_allocate_wf(before, uniforms@[i as int]);
            assert(uniforms@.take(i as int).push(uniforms@[i as int]) =~= uniforms@.take(i + 1));
        }
        match buffer.allocate(uniforms[i]) {
            Ok(block) => {
                blocks.push(block);
            },
            Err(error) => {
                assert(false);
            },
        }
        i = i + 1;
    }
    proof {
        assert(ops.take(ops.len() as int) =~= ops);
        assert(uniforms@.take(uniforms@.len() as int) =~= uniforms@);
    }
    buffer.flush();
    proof {
        assert forall|k: int| 0 <= k < blocks@.len() implies buffer@.holds_block(
            (#[trigger] blocks@[k])@,
        ) && buffer@.read_back(blocks@[k]@.offset as nat) == Some(uniforms@[k]) by {
            lemma_offset_of_index(start.stride, k as nat);
        }
    }
    blocks
}

/// Whether `world` and `blocks` are blocks of `buffer`, in order.
fn blocks_attached<E: Copy>(
    buffer: &DynamicUniformBuffer<E>,
    world: &DynamicUniformBufferBlock<E>,
    blocks: &Vec<DynamicUniformBufferBlock<E>>,
) -> (attached: bool)
    ensures
        attached == spec_blocks_attached(world@, spec_block_ids(blocks@), buffer@),
{
    let ghost ids = spec_block_ids(blocks@);
    if !buffer.contains(world) {
        return false;
    }
    let mut i: usize = 0;
    while i < blocks.len()
        invariant
            i <= blocks@.len(),
            ids == spec_block_ids(blocks@),
            buffer@.holds_block(world@),
            forall|k: int|
                0 <= k < i ==> buffer@.holds_block(#[trigger] ids[k]) && world@.offset
                    < ids[k].offset,
            forall|a: int, b: int|
                0 <= a < b < i ==> (#[trigger] ids[a]).offset < (#[trigger] ids[b]).offset,
        decreases blocks@.len() - i,
    {
        assert(ids[i as int] == blocks@[i as int]@);
        if !buffer.contains(&blocks[i]) || blocks[i].offset() <= world.offset() {
            return false;
        }
        if i > 0 {
            assert(ids[i - 1] == blocks@[i - 1]@);
            if blocks[i].offset() <= blocks[i - 1].offset() {
                assert(!(ids[i - 1].offset < ids[i as int].offset));
                return false;
            }
        }
        i = i + 1;
    }
    true
}

/// Whether each of `blocks` is a block of `buffer`.
fn blocks_held<G: Copy>(
    buffer: &DynamicUniformBuffer<G>,
    blocks: &Vec<DynamicUniformBufferBlock<G>>,
) -> (held: bool)
    ensures
        held == spec_blocks_held(spec_block_ids(blocks@), buffer@),
{
    let ghost ids = spec_block_ids(blocks@);
    let mut i: usize = 0;
    while i < blocks.len()
        invariant
            i <= blocks@.len(),
            ids == spec_block_ids(blocks@),
            forall|k: int| 0 <= k < i ==> buffer@.holds_block(#[trigger] ids[k]),
        decreases blocks@.len() - i,
    {
        assert(ids[i as int] == blocks@[i as int]@);
        if !buffer.contains(&blocks[i]) {
            return false;
        }
        i = i + 1;
    }
    true
}

/// Whether `entities` are the entities `pending`, in the same order.
fn same_entities(pending: &Vec<Entity>, entities: &[Entity]) -> (same: bool)
    ensures
        same == (pending@ == entities@),
{
    if pending.len() != entities.len() {
        return false;
    }
    let mut i: usize = 0;
    while i < entities.len()
        invariant
            i <= entities@.len(),
            pending@.len() == entities@.len(),
            forall|k: int| 0 <= k < i ==> pending@[k] == entities@[k],
        decreases entities@.len() - i,
    {
        if pending[i] != entities[i] {
            return false;
        }
        i = i + 1;
    }
    assert(pending@ =~= entities@);
    true
}

/// Why the uniforms of a frame cannot be written, if they cannot.
pub open spec fn spec_update_fault<E, G>(
    renderer: RendererModel,
    state: GraphicsStateModel<E, G>,
    entities: Seq<Entity>,
    entity_uniforms: Seq<E>,
    glyph_uniforms: Seq<G>,
) -> Option<RenderErrorKind> {
    if entities.len() != entity_uniforms.len() {
        Some(RenderErrorKind::EntityCountMismatch)
    } else if !renderer.attached(state.entity_uniforms) {
        Some(RenderErrorKind::StaleBlock)
    } else if !state.entity_uniforms.has_room_for(
        spec_missing_blocks(entity_uniforms.len(), renderer.entity_blocks.len()),
    ) {
        Some(RenderErrorKind::BufferFull)
    } else if state.glyph_uniforms.generation >= u64::MAX {
        Some(RenderErrorKind::GenerationExhausted)
    } else if !state.glyph_uniforms.clear().has_room_for(glyph_uniforms.len()) {
        Some(RenderErrorKind::BufferFull)
    } else {
        None
    }
}

/// Why a pass cannot be planned, if it cannot.
pub open spec fn spec_pass_fault<E, G>(
    renderer: RendererModel,
    state: GraphicsStateModel<E, G>,
    display_width: u32,
    display_height: u32,
    entities: Seq<Entity>,
) -> Option<RenderErrorKind> {
    if !renderer.ready_for(entities) {
        Some(RenderErrorKind::UniformsNotUpdated)
    } else if !renderer.attached(state.entity_uniforms) || !spec_blocks_held(
        renderer.glyph_blocks,
        state.glyph_uniforms,
    ) {
        Some(RenderErrorKind::StaleBlock)
    } else if display_width != state.depth_attachment.width || display_height
        != state.depth_attachment.height {
        Some(RenderErrorKind::ViewportMismatch)
    } else {
        None
    }
}

impl<E: Copy, G: Copy> Renderer<E, G> {
    /// Whether the blocks of the renderer are blocks of the entity
    /// uniforms of `state`.
    pub fn is_attached(&self, state: &GraphicsState<E, G>) -> (attached: bool)
        ensures
            attached == self@.attached(state@.entity_uniforms),
    {
        blocks_attached(
            state.entity_uniform_buffer(),
            &self.world_uniform_block,
            &self.entity_uniform_blocks,
        )
    }

    /// The first phase of a frame: writes the uniforms of the world, of
    /// the entities and of the glyphs, and flushes them. The `n`th entity
    /// gets the `n`th block of the renderer; blocks that are missing are
    /// allocated, and none is ever given up. The glyphs get new blocks
    /// every time. After it a pass over `entities` is due. Where it fails
    /// nothing has changed.
    pub fn update_uniform_buffers(
        &mut self,
        state: &mut GraphicsState<E, G>,
        world_uniforms: E,
        entities: &[Entity],
        entity_uniforms: &[E],
        glyph_uniforms: &[G],
    ) -> (result: Result<(), RenderError>)
        ensures
            match result {
                Ok(_) => {
                    let entity_buffer = final(state)@.entity_uniforms;
                    let glyph_buffer = final(state)@.glyph_uniforms;
                    let old_blocks = old(self)@.entity_blocks;
                    let blocks = final(self)@.entity_blocks;
                    let glyphs = final(self)@.glyph_blocks;
                    &&& spec_update_fault(
                        old(self)@,
                        old(state)@,
                        entities@,
                        entity_uniforms@,
                        glyph_uniforms@,
                    ) is None
                    &&& final(state)@ == (GraphicsStateModel {
                        entity_uniforms: old(state)@.entity_uniforms.apply_all(
                            spec_entity_ops(
                                old(self)@.world_block,
                                old_blocks,
                                world_uniforms,
                                entity_uniforms@,
                            ),
                        ).flush(),
                        glyph_uniforms: old(state)@.glyph_uniforms.clear().apply_all(
                            spec_glyph_ops(glyph_uniforms@),
                        ).flush(),
                        ..old(state)@
                    })
                    &&& final(self)@ == (RendererModel {
                        entity_blocks: blocks,
                        glyph_blocks: glyphs,
                        pending: Some(entities@),
                        ..old(self)@
                    })
                    &&& final(self)@.ready_for(entities@)
                    &&& final(self)@.attached(entity_buffer)
                    &&& spec_blocks_held(glyphs, glyph_buffer)
                    &&& blocks.len() == old_blocks.len() + spec_missing_blocks(
                        entities@.len(),
                        old_blocks.len(),
                    )
                    &&& blocks.subrange(0, old_blocks.len() as int) == old_blocks
                    &&& forall|i: int|
                        old_blocks.len() <= i < blocks.len() ==> {
                            let before = old(state)@.entity_uniforms;
                            &&& (#[trigger] blocks[i]).offset == (before.staged.len() + i
                                - old_blocks.len()) * before.stride
                            &&& blocks[i].generation == before.generation
                        }
                    &&& entity_buffer.read_back(old(self)@.world_block.offset as nat) == Some(
                        world_uniforms,
                    )
                    &&& forall|i: int|
                        0 <= i < entities@.len() ==> entity_buffer.read_back(
                            (#[trigger] blocks[i]).offset as nat,
                        ) == Some(entity_uniforms@[i])
                    &&& glyphs.len() == glyph_uniforms@.len()
                    &&& glyph_buffer.staged == glyph_uniforms@
                    &&& forall|i: int|
                        0 <= i < glyphs.len() ==> (#[trigger] glyphs[i]).offset == i
                            * glyph_buffer.stride && glyphs[i].generation
                            == glyph_buffer.generation && glyph_buffer.read_back(
                            glyphs[i].offset as nat,
                        ) == Some(glyph_uniforms@[i])
                },
                Err(error) => {
                    &&& spec_update_fault(
                        old(self)@,
                        old(state)@,
                        entities@,
                        entity_uniforms@,
                        glyph_uniforms@,
                    ) == Some(error.kind)
                    &&& final(state)@ == old(state)@
                    &&& final(self)@ == old(self)@
                },
            },
    {
        if entities.len() != entity_uniforms.len() {
            return Err(RenderError::new(RenderErrorKind::EntityCountMismatch));
        }
        if !self.is_attached(state) {
            return Err(RenderError::new(RenderErrorKind::StaleBlock));
        }
        let missing: usize = if entity_uniforms.len() > self.entity_uniform_blocks.len() {
            entity_uniforms.len() - self.entity_uniform_blocks.len()
        } else {
            0
        };
        if !state.entity_uniform_buffer().has_room_for(missing) {
            return Err(RenderError::new(RenderErrorKind::BufferFull));
        }
        let glyph_buffer = state.glyph_uniform_buffer();
        proof {
            use_type_invariant(glyph_buffer);
            glyph_buffer.lemma_inv();
            crate::uniform_model::lemma_room_is_max_blocks(
                glyph_buffer@.clear(),
                glyph_uniforms@.len(),
            );
        }
        if glyph_buffer.generation() == u64::MAX {
            return Err(RenderError::new(RenderErrorKind::GenerationExhausted));
        }
        if glyph_uniforms.len() as u64 > glyph_buffer.max_blocks() {
            return Err(RenderError::new(RenderErrorKind::BufferFull));
        }
        let ghost old_ids = spec_block_ids(self.entity_uniform_blocks@);
        stage_entities(
            state.entity_uniform_buffer_mut(),
            &self.world_uniform_block,
            &mut self.entity_uniform_blocks,
            world_uniforms,
            entity_uniforms,
        );
        self.glyph_uniform_blocks = stage_glyphs(state.glyph_uniform_buffer_mut(), glyph_uniforms);
        self.pending = Some(vstd::slice::slice_to_vec(entities));
        proof {
            let blocks = self@.entity_blocks;
            assert(blocks.subrange(0, old_ids.len() as int) =~= old_ids);
            assert forall|i: int| 0 <= i < entities@.len() implies state@.entity_uniforms.read_back((#[trigger] blocks[i]).offset as nat) == Some(
                entity_uniforms@[i],
            ) by {
                assert(blocks[i] == self.entity_uniform_blocks@[i]@);
            }
            let glyphs = self@.glyph_blocks;
            assert forall|i: int| 0 <= i < glyphs.len() implies state@.glyph_uniforms.holds_block(#[trigger] glyphs[i]) by {
                assert(glyphs[i] == self.glyph_uniform_blocks@[i]@);
            }
            let before = old(state)@.entity_uniforms;
            assert forall|i: int| old_ids.len() <= i < blocks.len() implies (#[trigger] blocks[i]).offset
                == (before.staged.len() + i - old_ids.len()) * before.stride
                && blocks[i].generation == before.generation by {
                assert(blocks[i] == self.entity_uniform_blocks@[i]@);
            }
            assert forall|i: int| 0 <= i < glyphs.len() implies (#[trigger] glyphs[i]).offset == i
                * state@.glyph_uniforms.stride && glyphs[i].generation
                == state@.glyph_uniforms.generation && state@.glyph_uniforms.read_back(
                glyphs[i].offset as nat,
            ) == Some(glyph_uniforms@[i]) by {
                assert(glyphs[i] == self.glyph_uniform_blocks@[i]@);
            }
        }
        Ok(())
    }
}

impl<E: Copy, G: Copy> Renderer<E, G> {
    /// The draw call for the entity at `index` of a frame.
    fn entity_draw(&self, entity: &Entity, index: usize) -> (command: DrawCommand)
        requires
            index < self@.entity_blocks.len(),
        ensures
            command == self@.entity_draw(*entity, index as int),
    {
        assert(self@.entity_blocks[index as int] == self.entity_uniform_blocks@[index as int]@);
        match renderer_slot(entity.model_id, self.worldmodel_id, self.entity_renderers.len()) {
            Some(slot) => match self.entity_renderers[slot] {
                EntityRenderer::Brush => DrawCommand::DrawBrush {
                    renderer: slot,
                    block_offset: self.entity_uniform_blocks[index].offset(),
                },
                EntityRenderer::Alias => DrawCommand::DrawAlias {
                    renderer: slot,
                    frame_id: entity.frame_id,
                    skin_id: entity.skin_id,
                },
                EntityRenderer::Sprite(_) => DrawCommand::DrawSprite {
                    renderer: slot,
                    frame_id: entity.frame_id,
                },
                EntityRenderer::Unsupported => DrawCommand::Skip { entity: index },
            },
            None => DrawCommand::Skip { entity: index },
        }
    }

    /// Whether a pass over `entities` is due.
    pub fn is_ready_for(&self, entities: &[Entity]) -> (ready: bool)
        ensures
            ready == self@.ready_for(entities@),
    {
        match &self.pending {
            Some(pending) => same_entities(pending, entities) && entities.len()
                <= self.entity_uniform_blocks.len(),
            None => false,
        }
    }

    /// The second phase of a frame: plans the pass that draws the world,
    /// then `entities` in their order, each with its own block bound, then
    /// the glyphs. The pass must be the one that is due: the uniforms must
    /// have been written for these very entities, in this order, and
    /// nothing drawn since. The viewport must be that of the depth
    /// attachment. After it no pass is due. Where it fails nothing has
    /// changed.
    pub fn render_pass(
        &mut self,
        state: &GraphicsState<E, G>,
        display_width: u32,
        display_height: u32,
        entities: &[Entity],
    ) -> (result: Result<Vec<DrawCommand>, RenderError>)
        ensures
            match result {
                Ok(plan) => {
                    &&& spec_pass_fault(
                        old(self)@,
                        state@,
                        display_width,
                        display_height,
                        entities@,
                    ) is None
                    &&& plan@ == old(self)@.render_plan(state@.depth_attachment, entities@)
                    &&& final(self)@ == (RendererModel { pending: None, ..old(self)@ })
                },
                Err(error) => {
                    &&& spec_pass_fault(
                        old(self)@,
                        state@,
                        display_width,
                        display_height,
                        entities@,
                    ) == Some(error.kind)
                    &&& final(self)@ == old(self)@
                },
            },
    {
        if !self.is_ready_for(entities) {
            return Err(RenderError::new(RenderErrorKind::UniformsNotUpdated));
        }
        if !self.is_attached(state) || !blocks_held(
            state.glyph_uniform_buffer(),
            &self.glyph_uniform_blocks,
        ) {
            return Err(RenderError::new(RenderErrorKind::StaleBlock));
        }
        let depth_attachment: DepthAttachment = state.depth_attachment();
        if display_width != depth_attachment.width || display_height != depth_attachment.height {
            return Err(RenderError::new(RenderErrorKind::ViewportMismatch));
        }
        let ghost model = self@;
        let ghost head = model.pass_head(depth_attachment);
        let ghost body = model.pass_entities(entities@);
        let ghost tail = model.pass_glyphs();
        let mut plan: Vec<DrawCommand> = Vec::new();
        plan.push(DrawCommand::BeginPass { depth_attachment });
        plan.push(DrawCommand::BindFrameGroup);
        plan.push(
            DrawCommand::BindEntityGroup { dynamic_offset: self.world_uniform_block.offset() },
        );
        plan.push(DrawCommand::DrawWorld { block_offset: self.world_uniform_block.offset() });
        assert(plan@ =~= head);
        let mut i: usize = 0;
        while i < entities.len()
            invariant
                i <= entities@.len(),
                entities@.len() <= self@.entity_blocks.len(),
                model == self@,
                head == model.pass_head(depth_attachment),
                body == model.pass_entities(entities@),
                plan@ == head + body.take(2 * i),
            decreases entities@.len() - i,
        {
            assert(self@.entity_blocks[i as int] == self.entity_uniform_blocks@[i as int]@);
            let bind = DrawCommand::BindEntityGroup {
                dynamic_offset: self.entity_uniform_blocks[i].offset(),
            };
            let draw = self.entity_draw(&entities[i], i);
            proof {
                assert(body[2 * i] == bind);
                assert(body[2 * i + 1] == draw);
                assert((head + body.take(2 * i)).push(bind).push(draw) =~= head + body.take(
                    2 * (i + 1),
                ));
            }
            plan.push(bind);
            plan.push(draw);
            i = i + 1;
        }
        assert(body.take(2 * (entities@.len() as int)) =~= body);
        let mut j: usize = 0;
        while j < self.glyph_uniform_blocks.len()
            invariant
                j <= self.glyph_uniform_blocks@.len(),
                model == self@,
                tail == model.pass_glyphs(),
                plan@ == head + body + tail.take(j as int),
            decreases self.glyph_uniform_blocks@.len() - j,
        {
            assert(self@.glyph_blocks[j as int] == self.glyph_uniform_blocks@[j as int]@);
            let draw = DrawCommand::DrawGlyph {
                block_offset: self.glyph_uniform_blocks[j].offset(),
            };
            proof {
                assert(tail[j as int] == draw);
                assert((head + body + tail.take(j as int)).push(draw) =~= head + body + tail.take(
                    j + 1,
                ));
            }
            plan.push(draw);
            j = j + 1;
        }
        assert(tail.take(tail.len() as int) =~= tail);
        self.pending = None;
        Ok(plan)
    }
}

/// After the depth attachment has been made anew for a viewport, a pass
/// at that viewport is not refused for its size, it renders to the new
/// depth attachment, and no step of it names the one before.
pub proof fn lemma_pass_after_resize<E, G>(
    renderer: RendererModel,
    state: GraphicsStateModel<E, G>,
    resized: GraphicsStateModel<E, G>,
    width: u32,
    height: u32,
    entities: Seq<Entity>,
)
    requires
        state.depth_attachment.generation < u64::MAX,
        resized == (GraphicsStateModel {
            depth_attachment: DepthAttachment {
                width,
                height,
                generation: (state.depth_attachment.generation + 1) as u64,
            },
            ..state
        }),
    ensures
        spec_pass_fault(renderer, resized, width, height, entities) != Some(
            RenderErrorKind::ViewportMismatch,
        ),
        spec_pass_fault(renderer, resized, width, height, entities) == spec_pass_fault(
            renderer,
            state,
            state.depth_attachment.width,
            state.depth_attachment.height,
            entities,
        ),
        renderer.render_plan(resized.depth_attachment, entities)[0] == (DrawCommand::BeginPass {
            depth_attachment: resized.depth_attachment,
        }),
        forall|k: int|
            0 <= k < renderer.render_plan(resized.depth_attachment, entities).len()
                ==> #[trigger] renderer.render_plan(resized.depth_attachment, entities)[k] != (
            DrawCommand::BeginPass { depth_attachment: state.depth_attachment }),
{
}

/// Every entity of a pass is drawn with its own block bound: the step
/// before the draw call of the `i`th entity binds the `i`th block of the
/// renderer, and the draw call is that of the sub-renderer of its model.
pub proof fn lemma_pass_binds_each_entity(
    renderer: RendererModel,
    depth_attachment: DepthAttachment,
    entities: Seq<Entity>,
    i: int,
)
    requires
        0 <= i < entities.len(),
    ensures
        renderer.render_plan(depth_attachment, entities).len() == 4 + 2 * entities.len()
            + renderer.glyph_blocks.len(),
        renderer.render_plan(depth_attachment, entities)[4 + 2 * i] == (
        DrawCommand::BindEntityGroup { dynamic_offset: renderer.entity_blocks[i].offset }),
        renderer.render_plan(depth_attachment, entities)[4 + 2 * i + 1] == renderer.entity_draw(
            entities[i],
            i,
        ),
{
    let body = renderer.pass_entities(entities);
    assert(body[2 * i] == DrawCommand::BindEntityGroup {
        dynamic_offset: renderer.entity_blocks[i].offset,
    });
    assert(body[2 * i + 1] == renderer.entity_draw(entities[i], i));
}

/// The dynamic offsets of a pass stay within the buffer of the entity
/// uniforms: where the blocks of the renderer are blocks of that buffer,
/// the block bound for the world, and for each entity, starts at a
/// multiple of the binding alignment and ends within the capacity.
pub proof fn lemma_pass_offsets_within_buffer<E>(
    renderer: RendererModel,
    buffer: UniformBufferModel<E>,
    depth_attachment: DepthAttachment,
    entities: Seq<Entity>,
    i: int,
)
    requires
        buffer.wf(),
        renderer.attached(buffer),
        entities.len() <= renderer.entity_blocks.len(),
        0 <= i < entities.len(),
    ensures
        renderer.render_plan(depth_attachment, entities)[2] == (DrawCommand::BindEntityGroup {
            dynamic_offset: renderer.world_block.offset,
        }),
        renderer.world_block.offset + buffer.stride <= buffer.capacity * buffer.stride,
        renderer.world_block.offset as nat % buffer.alignment == 0,
        renderer.render_plan(depth_attachment, entities)[4 + 2 * i] == (
        DrawCommand::BindEntityGroup { dynamic_offset: renderer.entity_blocks[i].offset }),
        renderer.entity_blocks[i].offset + buffer.stride <= buffer.capacity * buffer.stride,
        renderer.entity_blocks[i].offset as nat % buffer.alignment == 0,
{
    lemma_pass_binds_each_entity(renderer, depth_attachment, entities, i);
    assert(buffer.holds_block(renderer.entity_blocks[i]));
    lemma_block_within_capacity(buffer, renderer.world_block.offset as nat);
    lemma_block_within_capacity(buffer, renderer.entity_blocks[i].offset as nat);
}

} // verus!
