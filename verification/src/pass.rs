//! The commands of a render pass, recorded in the order in which they are
//! issued.

use vstd::prelude::*;
use crate::texture::TextureId;

verus! {

/// The binding slot of the projection.
pub const UNIFORM_SLOT: u32 = 0;

/// The binding slot of a command's texture.
pub const TEXTURE_SLOT: u32 = 1;

/// What a bind group holds.
#[derive(Clone, Copy, Debug, PartialEq, Eq)]
pub enum BindGroup {
    /// The projection of the frame.
    Uniforms,
    /// The registered texture behind a handle.
    Texture(TextureId),
}

/// One command of a render pass.
#[derive(Clone, Copy, Debug, PartialEq, Eq)]
pub enum RenderCommand {
    /// Selects the renderer's pipeline.
    SetPipeline,
    /// Binds a group at a binding slot.
    SetBindGroup { index: u32, group: BindGroup },
    /// Binds the whole vertex buffer of the frame at a slot.
    SetVertexBuffer { slot: u32 },
    /// Binds the whole index buffer of the frame, with 16-bit indices.
    SetIndexBuffer,
    /// Limits drawing to a rectangle of the framebuffer.
    SetScissorRect { x: u32, y: u32, width: u32, height: u32 },
    /// Draws one instance of the indices from `start` up to `end`, each
    /// counted from `base_vertex`.
    DrawIndexed { start: u32, end: u32, base_vertex: i32 },
}

/// An open render pass: the commands issued on it so far.
#[derive(Debug)]
pub struct RenderPass {
    commands: Vec<RenderCommand>,
}

impl View for RenderPass {
    type V = Seq<RenderCommand>;

    closed spec fn view(&self) -> Seq<RenderCommand> {
        self.commands@
    }
}

impl RenderPass {
    /// A pass on which nothing was issued yet.
    pub fn new() -> (pass: RenderPass)
        ensures
            pass@ == Seq::<RenderCommand>::empty(),
    {
        RenderPass { commands: Vec::new() }
    }

    /// The commands issued so far, first to last.
    pub fn commands(&self) -> (r: &Vec<RenderCommand>)
        ensures
            r@ == self@,
    {
        &self.commands
    }

    /// Issues `SetPipeline`.
    pub fn set_pipeline(&mut self)
        ensures
            final(self)@ == old(self)@.push(RenderCommand::SetPipeline),
    {
        self.commands.push(RenderCommand::SetPipeline);
    }

    /// Issues `SetBindGroup`.
    pub fn set_bind_group(&mut self, index: u32, group: BindGroup)
        ensures
            final(self)@ == old(self)@.push(RenderCommand::SetBindGroup { index, group }),
    {
        self.commands.push(RenderCommand::SetBindGroup { index, group });
    }

    /// Issues `SetVertexBuffer`.
    pub fn set_vertex_buffer(&mut self, slot: u32)
        ensures
            final(self)@ == old(self)@.push(RenderCommand::SetVertexBuffer { slot }),
    {
        self.commands.push(RenderCommand::SetVertexBuffer { slot });
    }

    /// Issues `SetIndexBuffer`.
    pub fn set_index_buffer(&mut self)
        ensures
            final(self)@ == old(self)@.push(RenderCommand::SetIndexBuffer),
    {
        self.commands.push(RenderCommand::SetIndexBuffer);
    }

    /// Issues `SetScissorRect`.
    pub fn set_scissor_rect(&mut self, x: u32, y: u32, width: u32, height: u32)
        ensures
            final(self)@ == old(self)@.push(RenderCommand::SetScissorRect { x, y, width, height }),
    {
        self.commands.push(RenderCommand::SetScissorRect { x, y, width, height });
    }

    /// Issues `DrawIndexed`.
    pub fn draw_indexed(&mut self, start: u32, end: u32, base_vertex: i32)
        ensures
            final(self)@ == old(self)@.push(RenderCommand::DrawIndexed { start, end, base_vertex }),
    {
        self.commands.push(RenderCommand::DrawIndexed { start, end, base_vertex });
    }
}

} // verus!
