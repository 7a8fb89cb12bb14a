//! The commands the renderer asks the graphics device to carry out.
//!
//! The renderer decides what is drawn and when; it never touches the device.
//! Each decision is recorded as a command, in the order in which the device
//! must see them.

use crate::buffer::VertexAttribute;
use crate::vertex::Color;
use vstd::prelude::*;

verus! {

/// One request to the graphics device.
#[derive(Clone, Debug, PartialEq, Eq)]
pub enum RenderCommand {
    /// Allocate the vertex buffer, `size` bytes.
    CreateVertexBuffer { size: usize },
    /// Bind the vertex buffer's attributes to the vertex array.
    ConfigureAttributes { attributes: Vec<VertexAttribute> },
    /// Create the index buffer with these indices and attach it.
    CreateIndexBuffer { indices: Vec<u32> },
    /// Compile and link the quad shader.
    CreateShader,
    /// Allocate the camera's uniform buffer and bind it to `binding`.
    CreateUniformBuffer { size: usize, binding: u32 },
    SetViewport { x: i32, y: i32, width: i32, height: i32 },
    SetClearColor { color: Color },
    /// Clear the render target to the clear colour.
    Clear,
    /// Write `bytes` into the camera's uniform buffer at `offset`.
    UploadCamera { bytes: Vec<u8>, offset: usize },
    /// Write `bytes` at the start of the vertex buffer.
    UploadVertices { bytes: Vec<u8> },
    BindTexture { slot: u32, texture: u32 },
    BindShader,
    /// Draw triangles from the first `index_count` indices.
    DrawIndexed { index_count: u32 },
}

/// A command as plain values.
pub enum CommandView {
    CreateVertexBuffer { size: usize },
    ConfigureAttributes { attributes: Seq<VertexAttribute> },
    CreateIndexBuffer { indices: Seq<u32> },
    CreateShader,
    CreateUniformBuffer { size: usize, binding: u32 },
    SetViewport { x: i32, y: i32, width: i32, height: i32 },
    SetClearColor { color: Color },
    Clear,
    UploadCamera { bytes: Seq<u8>, offset: usize },
    UploadVertices { bytes: Seq<u8> },
    BindTexture { slot: u32, texture: u32 },
    BindShader,
    DrawIndexed { index_count: u32 },
}

impl View for RenderCommand {
    type V = CommandView;

    open spec fn view(&self) -> CommandView {
        match *self {
            RenderCommand::CreateVertexBuffer { size } => CommandView::CreateVertexBuffer { size },
            RenderCommand::ConfigureAttributes { attributes } => CommandView::ConfigureAttributes {
                attributes: attributes@,
            },
            RenderCommand::CreateIndexBuffer { indices } => CommandView::CreateIndexBuffer {
                indices: indices@,
            },
            RenderCommand::CreateShader => CommandView::CreateShader,
            RenderCommand::CreateUniformBuffer { size, binding } => {
                CommandView::CreateUniformBuffer { size, binding }
            },
            RenderCommand::SetViewport { x, y, width, height } => CommandView::SetViewport {
                x,
                y,
                width,
                height,
            },
            RenderCommand::SetClearColor { color } => CommandView::SetClearColor { color },
            RenderCommand::Clear => CommandView::Clear,
            RenderCommand::UploadCamera { bytes, offset } => CommandView::UploadCamera {
                bytes: bytes@,
                offset,
            },
            RenderCommand::UploadVertices { bytes } => CommandView::UploadVertices {
                bytes: bytes@,
            },
            RenderCommand::BindTexture { slot, texture } => CommandView::BindTexture {
                slot,
                texture,
            },
            RenderCommand::BindShader => CommandView::BindShader,
            RenderCommand::DrawIndexed { index_count } => CommandView::DrawIndexed { index_count },
        }
    }
}

/// The commands of a queue as plain values.
pub open spec fn command_views(commands: Seq<RenderCommand>) -> Seq<CommandView> {
    commands.map_values(|c: RenderCommand| c@)
}

/// Number of draw calls among the commands.
pub open spec fn draw_call_count(commands: Seq<CommandView>) -> nat
    decreases commands.len(),
{
    if commands.len() == 0 {
        0
    } else {
        draw_call_count(commands.drop_last()) + if commands.last() is DrawIndexed {
            1nat
        } else {
            0nat
        }
    }
}

/// Number of bytes of vertex data the commands upload.
pub open spec fn uploaded_vertex_bytes(commands: Seq<CommandView>) -> nat
    decreases commands.len(),
{
    if commands.len() == 0 {
        0
    } else {
        uploaded_vertex_bytes(commands.drop_last()) + match commands.last() {
            CommandView::UploadVertices { bytes } => bytes.len(),
            _ => 0nat,
        }
    }
}

/// Number of indices the draw calls among the commands cover.
pub open spec fn drawn_index_count(commands: Seq<CommandView>) -> nat
    decreases commands.len(),
{
    if commands.len() == 0 {
        0
    } else {
        drawn_index_count(commands.drop_last()) + match commands.last() {
            CommandView::DrawIndexed { index_count } => index_count as nat,
            _ => 0nat,
        }
    }
}

/// Draw calls of two runs of commands add up.
pub proof fn lemma_draw_call_count_concat(first: Seq<CommandView>, second: Seq<CommandView>)
    ensures
        draw_call_count(first + second) == draw_call_count(first) + draw_call_count(second),
    decreases second.len(),
{
    if second.len() == 0 {
        assert(first + second =~= first);
    } else {
        lemma_draw_call_count_concat(first, second.drop_last());
        assert((first + second).drop_last() =~= first + second.drop_last());
        assert((first + second).last() == second.last());
    }
}

/// Uploaded vertex bytes of two runs of commands add up.
pub proof fn lemma_uploaded_vertex_bytes_concat(
    first: Seq<CommandView>,
    second: Seq<CommandView>,
)
    ensures
        uploaded_vertex_bytes(first + second) == uploaded_vertex_bytes(first)
            + uploaded_vertex_bytes(second),
    decreases second.len(),
{
    if second.len() == 0 {
        assert(first + second =~= first);
    } else {
        lemma_uploaded_vertex_bytes_concat(first, second.drop_last());
        assert((first + second).drop_last() =~= first + second.drop_last());
        assert((first + second).last() == second.last());
    }
}

/// Drawn indices of two runs of commands add up.
pub proof fn lemma_drawn_index_count_concat(first: Seq<CommandView>, second: Seq<CommandView>)
    ensures
        drawn_index_count(first + second) == drawn_index_count(first) + drawn_index_count(second),
    decreases second.len(),
{
    if second.len() == 0 {
        assert(first + second =~= first);
    } else {
        lemma_drawn_index_count_concat(first, second.drop_last());
        assert((first + second).drop_last() =~= first + second.drop_last());
        assert((first + second).last() == second.last());
    }
}

/// What one more command adds to the three counts.
pub proof fn lemma_counts_push(commands: Seq<CommandView>, command: CommandView)
    ensures
        draw_call_count(commands.push(command)) == draw_call_count(commands) + if command
            is DrawIndexed {
            1nat
        } else {
            0nat
        },
        uploaded_vertex_bytes(commands.push(command)) == uploaded_vertex_bytes(commands)
            + match command {
            CommandView::UploadVertices { bytes } => bytes.len(),
            _ => 0nat,
        },
        drawn_index_count(commands.push(command)) == drawn_index_count(commands) + match command {
            CommandView::DrawIndexed { index_count } => index_count as nat,
            _ => 0nat,
        },
{
    assert(commands.push(command).drop_last() =~= commands);
}

} // verus!
