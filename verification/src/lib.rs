//! Verified core of a real-time scene renderer: the bookkeeping that decides
//! what is uploaded to the graphics device and what is drawn, in which order
//! and at which offsets. Talking to the device itself is left to the caller.

pub mod coords;
pub mod error;
pub mod layout;
pub mod pipeline;
pub mod renderer;
pub mod screen;
pub mod state;
pub mod texture;
pub mod uniform;
pub mod uniform_model;

pub use error::{RenderError, RenderErrorKind};
pub use layout::BindGroupLayoutId;
pub use pipeline::{create_pipeline, create_render_pipeline};
pub use renderer::Renderer;
pub use screen::screen_space_vertex_transform;
pub use state::GraphicsState;
pub use texture::{
    create_texture, texture_descriptor, DiffuseData, FullbrightData, LightmapData, TextureData,
    COLOR_ATTACHMENT_FORMAT,
};
pub use uniform::{block_stride, DynamicUniformBuffer, DynamicUniformBufferBlock};
