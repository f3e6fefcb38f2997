//! Core of a renderer that turns the draw lists of an immediate-mode GUI
//! into buffer uploads and render-pass commands.
//!
//! A frame is drawn in two steps. [`Renderer::prepare`] works out the offsets
//! of the frame's draw lists, the payloads of the vertex and the index buffer
//! and what is to be done with the buffers. [`Renderer::split_render`] then
//! issues the frame's commands on a [`RenderPass`]: for each draw command the
//! scissor rectangle, the texture and the draw of its indices. Textures are
//! kept in a [`TextureRegistry`] and named by [`TextureId`] handles.
//!
//! Coordinates are whole numbers of sub-pixel steps, so that all arithmetic
//! on them is exact; see [`clip`].

pub mod buffer;
pub mod clip;
pub mod draw;
pub mod error;
pub mod offsets;
pub mod pass;
pub mod payload;
pub mod registry;
pub mod render_data;
pub mod renderer;
pub mod texture;

pub use crate::error::{RendererError, RendererResult};
pub use crate::pass::RenderPass;
pub use crate::registry::TextureRegistry;
pub use crate::render_data::RenderData;
pub use crate::renderer::Renderer;
pub use crate::texture::{Texture, TextureId};
