//! The batching 2D renderer.
//!
//! Quads submitted between `begin_scene` and `end_scene` collect in a
//! scratch buffer of fixed capacity. When the buffer is full, or the scene
//! ends, the written part is flushed: uploaded and drawn with one indexed
//! draw call. Any number of quads can be drawn per scene; the device buffer
//! never grows.

use crate::buffer::{
    BufferElement, BufferLayout, BufferLayoutBuilder, ElementView, LayoutView, ShaderDataType,
    layout_attributes,
};
use crate::command::{CommandView, RenderCommand, command_views};
use crate::texture::Texture;
use crate::vertex::{
    Color, Position, QuadVertex, ONE, QUAD_VERTEX_COUNT, VERTEX_SIZE, ZERO, corner_tex_coord,
    quad_index, quad_indices, texture_coords, to_bytes, vertices_bytes, words_bytes,
    words_to_bytes,
};
use vstd::prelude::*;
use vstd::slice::slice_subrange;

verus! {

/// Quads per batch.
pub const MAX_QUADS: usize = 20;

/// Vertices per batch.
pub const MAX_VERTICES: usize = 80;

/// Indices per batch.
pub const MAX_INDICES: usize = 120;

/// Texture units a batch can refer to.
pub const MAX_TEXTURE_SLOTS: usize = 32;

/// Bytes of the camera's uniform block: one 4x4 matrix.
pub const CAMERA_DATA_SIZE: usize = 64;

/// Whether a target of the given size can be drawn to. A target without
/// width or height cannot, and a resize to such a size is to be ignored.
pub fn accepts_size(width: u32, height: u32) -> (r: bool)
    ensures
        r == (width != 0 && height != 0),
{
    width != 0 && height != 0
}

/// The devices a renderer can drive.
#[derive(Clone, Copy, Debug, PartialEq, Eq, Structural)]
pub enum RendererBackend {
    OpenGL,
    Null,
}

/// What the renderer has drawn so far.
#[derive(Clone, Copy, Debug, PartialEq, Eq)]
pub struct RenderStats {
    pub draw_calls: usize,
    pub quad_count: usize,
}

impl RenderStats {
    pub fn new() -> (r: Self)
        ensures
            r.draw_calls == 0,
            r.quad_count == 0,
    {
        RenderStats { draw_calls: 0, quad_count: 0 }
    }

    pub fn increment_draw_calls(&mut self)
        requires
            old(self).draw_calls < usize::MAX,
        ensures
            final(self).draw_calls == old(self).draw_calls + 1,
            final(self).quad_count == old(self).quad_count,
    {
        self.draw_calls = self.draw_calls + 1;
    }

    pub fn increment_quad_count(&mut self)
        requires
            old(self).quad_count < usize::MAX,
        ensures
            final(self).quad_count == old(self).quad_count + 1,
            final(self).draw_calls == old(self).draw_calls,
    {
        self.quad_count = self.quad_count + 1;
    }

    pub fn total_vertex_count(&self) -> (r: usize)
        requires
            self.quad_count * 4 <= usize::MAX,
        ensures
            r == self.quad_count * 4,
    {
        self.quad_count * 4
    }

    pub fn total_index_count(&self) -> (r: usize)
        requires
            self.quad_count * 6 <= usize::MAX,
        ensures
            r == self.quad_count * 6,
    {
        self.quad_count * 6
    }

    /// The statistics after one more draw call; the count stays at the
    /// largest number it can hold.
    pub open spec fn with_draw_call(self) -> RenderStats {
        RenderStats {
            draw_calls: if self.draw_calls < usize::MAX {
                (self.draw_calls + 1) as usize
            } else {
                self.draw_calls
            },
            quad_count: self.quad_count,
        }
    }

    /// The statistics after one more quad; the count stays at the largest
    /// number it can hold.
    pub open spec fn with_quad(self) -> RenderStats {
        RenderStats {
            draw_calls: self.draw_calls,
            quad_count: if self.quad_count < usize::MAX {
                (self.quad_count + 1) as usize
            } else {
                self.quad_count
            },
        }
    }
}

/// The camera's uniform block: the view-projection matrix, its sixteen
/// scalars as single-precision bits in the order the device reads them.
#[derive(Clone, Copy, Debug, PartialEq, Eq)]
pub struct CameraData {
    pub view_projection: [u32; 16],
}

/// The sixteen scalars of the 4x4 identity matrix.
pub open spec fn identity_matrix() -> Seq<u32> {
    Seq::new(
        16,
        |i: int|
            if i % 5 == 0 {
                ONE
            } else {
                ZERO
            },
    )
}

impl CameraData {
    /// The 4x4 identity matrix.
    pub fn identity() -> (r: Self)
        ensures
            r.view_projection@ == identity_matrix(),
    {
        let r = CameraData {
            view_projection: [
                ONE,
                ZERO,
                ZERO,
                ZERO,
                ZERO,
                ONE,
                ZERO,
                ZERO,
                ZERO,
                ZERO,
                ONE,
                ZERO,
                ZERO,
                ZERO,
                ZERO,
                ONE,
            ],
        };
        assert(r.view_projection@ =~= identity_matrix());
        r
    }

    /// The block as the bytes that go to the device.
    pub fn as_bytes(&self) -> (r: Vec<u8>)
        ensures
            r@ == words_bytes(self.view_projection@),
            r@.len() == CAMERA_DATA_SIZE,
    {
        words_to_bytes(self.view_projection.as_slice())
    }
}

/// The four vertices of a quad with the given corners: corner `i` gets
/// texture coordinate `i` and a tiling factor of one.
pub open spec fn quad_vertices(
    corners: Seq<Position>,
    color: Color,
    tex_index: u32,
    entity_id: i32,
) -> Seq<QuadVertex> {
    Seq::new(
        4,
        |i: int|
            QuadVertex {
                position: corners[i],
                color,
                tex_coord: corner_tex_coord(i),
                tex_index,
                tiling_factor: ONE,
                entity_id,
            },
    )
}

/// The command that binds each texture to the slot of its position.
pub open spec fn texture_binds(slots: Seq<u32>) -> Seq<CommandView> {
    Seq::new(slots.len(), |i: int| CommandView::BindTexture { slot: i as u32, texture: slots[i] })
}

/// The colour a scene is cleared to.
pub open spec fn scene_clear_color() -> Color {
    Color { r: 0x3e4c_cccd, g: 0x3e99_999a, b: 0x3f00_0000, a: ONE }
}

/// The clear colour a new renderer sets.
pub open spec fn initial_clear_color() -> Color {
    Color { r: 0x3e4c_cccd, g: 0x3f00_0000, b: 0x3e4c_cccd, a: ONE }
}

/// A renderer as plain values.
pub struct RendererView {
    /// The vertices written since the batch was started.
    pub pending: Seq<QuadVertex>,
    /// The indices that draw `pending`.
    pub quad_index_count: nat,
    pub texture_slots: Seq<u32>,
    pub texture_slot_idx: nat,
    pub camera: Seq<u32>,
    /// The device the renderer drives.
    pub backend: RendererBackend,
    pub stats: RenderStats,
    /// The commands issued and not yet taken.
    pub commands: Seq<CommandView>,
}

impl RendererView {
    /// Each quad of the batch has four vertices and six indices, the
    /// batch is within capacity, and there is a device to draw it.
    pub open spec fn wf(self) -> bool {
        &&& self.backend == RendererBackend::OpenGL
        &&& 2 * self.quad_index_count == 3 * self.pending.len()
        &&& self.quad_index_count % 6 == 0
        &&& self.quad_index_count <= MAX_INDICES
        &&& self.texture_slots.len() <= MAX_TEXTURE_SLOTS
        &&& self.camera.len() == 16
    }

    pub open spec fn batch_is_empty(self) -> bool {
        self.quad_index_count == 0
    }

    /// The commands that flush the batch: upload exactly the written
    /// vertices, bind the textures and the shader, draw the batch's indices.
    pub open spec fn flush_commands(self) -> Seq<CommandView> {
        if self.batch_is_empty() {
            Seq::empty()
        } else {
            (seq![CommandView::UploadVertices { bytes: vertices_bytes(self.pending) }]
                + texture_binds(self.texture_slots)).push(CommandView::BindShader).push(
                CommandView::DrawIndexed { index_count: self.quad_index_count as u32 },
            )
        }
    }

    /// Nothing happens to an empty batch; any other is drawn with one draw
    /// call, which is counted.
    pub open spec fn flush(self) -> RendererView {
        if self.batch_is_empty() {
            self
        } else {
            RendererView {
                commands: self.commands + self.flush_commands(),
                stats: self.stats.with_draw_call(),
                ..self
            }
        }
    }

    pub open spec fn start_batch(self) -> RendererView {
        RendererView {
            pending: Seq::empty(),
            quad_index_count: 0,
            texture_slot_idx: 1,
            ..self
        }
    }

    pub open spec fn next_batch(self) -> RendererView {
        self.flush().start_batch()
    }

    /// Appends the four vertices of a quad, after making room if the batch
    /// is full.
    pub open spec fn push_quad(self, vertices: Seq<QuadVertex>) -> RendererView {
        let room = if self.quad_index_count >= MAX_INDICES {
            self.next_batch()
        } else {
            self
        };
        RendererView {
            pending: room.pending + vertices,
            quad_index_count: room.quad_index_count + 6,
            stats: room.stats.with_quad(),
            ..room
        }
    }

    pub open spec fn draw_quad(self, corners: Seq<Position>, color: Color, entity_id: i32)
        -> RendererView {
        self.push_quad(quad_vertices(corners, color, ZERO, entity_id))
    }

    pub open spec fn draw_quad_texture(self, corners: Seq<Position>, tint_color: Color)
        -> RendererView {
        self.push_quad(quad_vertices(corners, tint_color, ONE, -1i32))
    }

    /// Sets the clear colour, clears the target, uploads the camera and
    /// starts an empty batch.
    pub open spec fn begin_scene(self, camera: Seq<u32>) -> RendererView {
        RendererView {
            camera,
            commands: self.commands + seq![
                CommandView::SetClearColor { color: scene_clear_color() },
                CommandView::Clear,
                CommandView::UploadCamera { bytes: words_bytes(camera), offset: 0 },
            ],
            ..self
        }.start_batch()
    }

    /// Flushes what is pending and leaves the batch empty.
    pub open spec fn end_scene(self) -> RendererView {
        self.flush().start_batch()
    }

    pub open spec fn resize(self, width: i32, height: i32) -> RendererView {
        RendererView {
            commands: self.commands.push(CommandView::SetViewport { x: 0, y: 0, width, height }),
            ..self
        }
    }

    pub open spec fn take_commands(self) -> RendererView {
        RendererView { commands: Seq::empty(), ..self }
    }
}

/// The vertex format of a quad.
pub open spec fn quad_layout_view() -> LayoutView {
    LayoutView {
        stride: 48,
        elements: seq![
            ElementView {
                name: "a_Position"@,
                dtype: ShaderDataType::Float3,
                size: 12,
                offset: 0,
                normalized: false,
            },
            ElementView {
                name: "a_Color"@,
                dtype: ShaderDataType::Float4,
                size: 16,
                offset: 12,
                normalized: false,
            },
            ElementView {
                name: "a_TexCoord"@,
                dtype: ShaderDataType::Float2,
                size: 8,
                offset: 28,
                normalized: false,
            },
            ElementView {
                name: "a_TexIndex"@,
                dtype: ShaderDataType::Float,
                size: 4,
                offset: 36,
                normalized: false,
            },
            ElementView {
                name: "a_TilingFactor"@,
                dtype: ShaderDataType::Float,
                size: 4,
                offset: 40,
                normalized: false,
            },
            ElementView {
                name: "a_EntityId"@,
                dtype: ShaderDataType::Int,
                size: 4,
                offset: 44,
                normalized: false,
            },
        ],
    }
}

/// The layout of `QuadVertex` on the device: `VERTEX_SIZE` bytes a vertex.
pub fn quad_layout() -> (r: BufferLayout)
    ensures
        r@ == quad_layout_view(),
        r@.wf(),
{
    let builder = BufferLayoutBuilder::new();
    let builder = builder.element(BufferElement::new(ShaderDataType::Float3, "a_Position", false));
    let builder = builder.element(BufferElement::new(ShaderDataType::Float4, "a_Color", false));
    let builder = builder.element(BufferElement::new(ShaderDataType::Float2, "a_TexCoord", false));
    let builder = builder.element(BufferElement::new(ShaderDataType::Float, "a_TexIndex", false));
    let builder = builder.element(
        BufferElement::new(ShaderDataType::Float, "a_TilingFactor", false),
    );
    let builder = builder.element(BufferElement::new(ShaderDataType::Int, "a_EntityId", false));
    let layout = builder.build();
    assert(layout@.elements =~= quad_layout_view().elements);
    layout
}

/// What a new renderer asks of the device, in order: the vertex buffer for
/// one full batch and its attributes, the index buffer for one full batch,
/// the shader, the camera's uniform buffer, the viewport and the clear
/// colour.
pub open spec fn setup_commands(width: i32, height: i32) -> Seq<CommandView> {
    seq![
        CommandView::CreateVertexBuffer { size: 3840 },
        CommandView::ConfigureAttributes {
            attributes: layout_attributes(quad_layout_view().elements, 48, 0),
        },
        CommandView::CreateIndexBuffer {
            indices: Seq::new(MAX_INDICES as nat, |i: int| quad_index(i) as u32),
        },
        CommandView::CreateShader,
        CommandView::CreateUniformBuffer { size: CAMERA_DATA_SIZE, binding: 0 },
        CommandView::SetViewport { x: 0, y: 0, width, height },
        CommandView::SetClearColor { color: initial_clear_color() },
    ]
}

/// Appending a command appends its view.
pub proof fn lemma_command_views_push(commands: Seq<RenderCommand>, command: RenderCommand)
    ensures
        command_views(commands.push(command)) == command_views(commands).push(command@),
{
    assert(command_views(commands.push(command)) =~= command_views(commands).push(command@));
}

/// The batching renderer: the current batch, the camera, the statistics and
/// the commands waiting to be carried out.
pub struct Renderer2D {
    quad_index_count: u32,
    quad_vertex_buffer_base: Vec<QuadVertex>,
    quad_vertex_buffer_idx: usize,
    texture_slots: Vec<u32>,
    texture_slot_idx: usize,
    camera_data: CameraData,
    backend: RendererBackend,
    stats: RenderStats,
    commands: Vec<RenderCommand>,
}

impl View for Renderer2D {
    type V = RendererView;

    closed spec fn view(&self) -> RendererView {
        RendererView {
            pending: self.quad_vertex_buffer_base@.take(self.quad_vertex_buffer_idx as int),
            quad_index_count: self.quad_index_count as nat,
            texture_slots: self.texture_slots@,
            texture_slot_idx: self.texture_slot_idx as nat,
            camera: self.camera_data.view_projection@,
            backend: self.backend,
            stats: self.stats,
            commands: command_views(self.commands@),
        }
    }
}

impl Renderer2D {
    /// The view is well-formed, the scratch buffer has its full size and
    /// the batch is within it.
    pub closed spec fn wf(&self) -> bool {
        &&& self@.wf()
        &&& self.quad_vertex_buffer_base@.len() == MAX_VERTICES
        &&& self.quad_vertex_buffer_idx <= MAX_VERTICES
    }

    /// A well-formed renderer has a well-formed view.
    pub proof fn lemma_wf_view(&self)
        requires
            self.wf(),
        ensures
            self@.wf(),
    {
    }

    /// A renderer for a target of the given size, with an empty batch and
    /// the device's setup queued.
    pub fn new(width: i32, height: i32) -> (r: Self)
        ensures
            r.wf(),
            r@ == (RendererView {
                pending: Seq::empty(),
                quad_index_count: 0,
                texture_slots: Seq::empty(),
                texture_slot_idx: 0,
                camera: identity_matrix(),
                backend: RendererBackend::OpenGL,
                stats: RenderStats { draw_calls: 0, quad_count: 0 },
                commands: setup_commands(width, height),
            }),
    {
        let quad_layout = quad_layout();
        proof {
            reveal_with_fuel(crate::buffer::slot_count, 7);
        }
        let attributes = quad_layout.vertex_attributes(0);
        let indices = quad_indices(MAX_QUADS);
        assert(indices@ =~= Seq::new(MAX_INDICES as nat, |i: int| quad_index(i) as u32));

        let mut commands: Vec<RenderCommand> = Vec::new();
        commands.push(RenderCommand::CreateVertexBuffer { size: VERTEX_SIZE * MAX_VERTICES });
        commands.push(RenderCommand::ConfigureAttributes { attributes });
        commands.push(RenderCommand::CreateIndexBuffer { indices });
        commands.push(RenderCommand::CreateShader);
        commands.push(RenderCommand::CreateUniformBuffer { size: CAMERA_DATA_SIZE, binding: 0 });
        commands.push(RenderCommand::SetViewport { x: 0, y: 0, width, height });
        commands.push(
            RenderCommand::SetClearColor {
                color: Color { r: 0x3e4c_cccd, g: 0x3f00_0000, b: 0x3e4c_cccd, a: ONE },
            },
        );
        assert(command_views(commands@) =~= setup_commands(width, height));

        let mut scratch: Vec<QuadVertex> = Vec::new();
        let mut i: usize = 0;
        while i < MAX_VERTICES
            invariant
                0 <= i <= MAX_VERTICES,
                scratch@.len() == i,
            decreases MAX_VERTICES - i,
        {
            scratch.push(QuadVertex::new());
            i = i + 1;
        }
        let r = Self {
            quad_index_count: 0,
            quad_vertex_buffer_base: scratch,
            quad_vertex_buffer_idx: 0,
            texture_slots: Vec::new(),
            texture_slot_idx: 0,
            camera_data: CameraData::identity(),
            backend: RendererBackend::OpenGL,
            stats: RenderStats::new(),
            commands,
        };
        assert(r@.pending =~= Seq::empty());
        r
    }

    /// The device this renderer drives. A well-formed renderer drives
    /// the OpenGL device.
    pub fn backend(&self) -> (r: RendererBackend)
        ensures
            r == self@.backend,
            self.wf() ==> r == RendererBackend::OpenGL,
    {
        self.backend
    }

    pub fn stats(&self) -> (r: RenderStats)
        ensures
            r == self@.stats,
    {
        self.stats
    }

    /// Indices the current batch will draw.
    pub fn quad_index_count(&self) -> (r: u32)
        ensures
            r == self@.quad_index_count,
    {
        self.quad_index_count
    }

    /// Vertices written to the current batch.
    pub fn quad_vertex_buffer_idx(&self) -> (r: usize)
        requires
            self.wf(),
        ensures
            r == self@.pending.len(),
    {
        self.quad_vertex_buffer_idx
    }

    /// Hands over the commands issued since the last call, oldest first.
    pub fn take_commands(&mut self) -> (r: Vec<RenderCommand>)
        requires
            old(self).wf(),
        ensures
            final(self).wf(),
            command_views(r@) == old(self)@.commands,
            final(self)@ == old(self)@.take_commands(),
    {
        let mut taken: Vec<RenderCommand> = Vec::new();
        core::mem::swap(&mut self.commands, &mut taken);
        assert(self@.commands =~= Seq::empty());
        taken
    }

    /// Tells the device the new size of the target. The batch is untouched.
    pub fn resize(&mut self, width: i32, height: i32)
        requires
            old(self).wf(),
        ensures
            final(self).wf(),
            final(self)@ == old(self)@.resize(width, height),
    {
        match self.backend {
            RendererBackend::OpenGL => {
                proof {
                    lemma_command_views_push(
                        self.commands@,
                        RenderCommand::SetViewport { x: 0, y: 0, width, height },
                    );
                }
                self.commands.push(RenderCommand::SetViewport { x: 0, y: 0, width, height });
            },
            _ => {},
        }
    }

    fn start_batch(&mut self)
        requires
            old(self).wf(),
        ensures
            final(self).wf(),
            final(self)@ == old(self)@.start_batch(),
    {
        self.quad_index_count = 0;
        self.quad_vertex_buffer_idx = 0;
        self.texture_slot_idx = 1;
        assert(self@.pending =~= Seq::empty());
    }
}

impl Renderer2D {
    /// Queues the draw call for the current batch.
    fn draw_indexed(&mut self)
        requires
            old(self).wf(),
        ensures
            final(self).wf(),
            final(self)@ == (RendererView {
                commands: old(self)@.commands.push(
                    CommandView::DrawIndexed { index_count: old(self)@.quad_index_count as u32 },
                ),
                ..old(self)@
            }),
    {
        match self.backend {
            RendererBackend::OpenGL => {
                let command = RenderCommand::DrawIndexed { index_count: self.quad_index_count };
                proof {
                    lemma_command_views_push(self.commands@, command);
                }
                self.commands.push(command);
            },
            _ => {},
        }
    }

    /// Queues the binding of every texture slot.
    fn bind_textures(&mut self)
        requires
            old(self).wf(),
        ensures
            final(self).wf(),
            final(self)@ == (RendererView {
                commands: old(self)@.commands + texture_binds(old(self)@.texture_slots),
                ..old(self)@
            }),
    {
        let ghost before = self@;
        let n = self.texture_slots.len();
        let mut i: usize = 0;
        while i < n
            invariant
                0 <= i <= n,
                n == self.texture_slots@.len(),
                self.wf(),
                self@ == (RendererView {
                    commands: before.commands + texture_binds(before.texture_slots).take(i as int),
                    ..before
                }),
            decreases n - i,
        {
            let command = RenderCommand::BindTexture {
                slot: i as u32,
                texture: self.texture_slots[i],
            };
            proof {
                lemma_command_views_push(self.commands@, command);
                assert(before.commands + texture_binds(before.texture_slots).take(i + 1) =~= (
                before.commands + texture_binds(before.texture_slots).take(i as int)).push(
                    command@,
                ));
            }
            self.commands.push(command);
            i = i + 1;
        }
        assert(texture_binds(before.texture_slots).take(n as int) =~= texture_binds(
            before.texture_slots,
        ));
    }

    /// Draws the current batch if it holds anything: uploads exactly the
    /// written vertices, binds textures and shader, and issues one draw call.
    fn flush(&mut self)
        requires
            old(self).wf(),
        ensures
            final(self).wf(),
            final(self)@ == old(self)@.flush(),
    {
        if self.quad_index_count > 0 {
            let ghost before = self@;
            let written = slice_subrange(
                self.quad_vertex_buffer_base.as_slice(),
                0,
                self.quad_vertex_buffer_idx,
            );
            assert(written@ =~= before.pending);
            let bytes = to_bytes(written);
            let upload = RenderCommand::UploadVertices { bytes };
            proof {
                lemma_command_views_push(self.commands@, upload);
            }
            self.commands.push(upload);
            self.bind_textures();
            proof {
                lemma_command_views_push(self.commands@, RenderCommand::BindShader);
            }
            self.commands.push(RenderCommand::BindShader);
            self.draw_indexed();
            if self.stats.draw_calls < usize::MAX {
                self.stats.increment_draw_calls();
            }
            assert(self@.commands =~= before.commands + before.flush_commands());
        }
    }

    fn next_batch(&mut self)
        requires
            old(self).wf(),
        ensures
            final(self).wf(),
            final(self)@ == old(self)@.next_batch(),
    {
        self.flush();
        self.start_batch();
    }

    /// Writes the four vertices of a quad into the batch, flushing first if
    /// the batch is full.
    fn push_quad(&mut self, corners: &[Position; 4], color: Color, tex_index: u32, entity_id: i32)
        requires
            old(self).wf(),
        ensures
            final(self).wf(),
            final(self)@ == old(self)@.push_quad(
                quad_vertices(corners@, color, tex_index, entity_id),
            ),
    {
        if self.quad_index_count >= MAX_INDICES as u32 {
            self.next_batch();
        }
        let ghost room = self@;
        let ghost vertices = quad_vertices(corners@, color, tex_index, entity_id);
        let ghost start = self.quad_vertex_buffer_idx as int;
        let tex_coords = texture_coords();
        let mut i: usize = 0;
        while i < QUAD_VERTEX_COUNT
            invariant
                0 <= i <= QUAD_VERTEX_COUNT,
                0 <= start,
                start + 4 <= MAX_VERTICES,
                self.quad_vertex_buffer_base@.len() == MAX_VERTICES,
                self.quad_vertex_buffer_idx == start + i,
                self.quad_vertex_buffer_base@.take(start) == room.pending,
                forall|j: int| 0 <= j < i ==> self.quad_vertex_buffer_base@[start + j] == vertices[j],
                forall|j: int| 0 <= j < 4 ==> tex_coords[j] == corner_tex_coord(j),
                vertices == quad_vertices(corners@, color, tex_index, entity_id),
                self.quad_index_count == room.quad_index_count,
                self.texture_slots@ == room.texture_slots,
                self.texture_slot_idx == room.texture_slot_idx,
                self.camera_data.view_projection@ == room.camera,
                self.stats == room.stats,
                command_views(self.commands@) == room.commands,
                self.backend == RendererBackend::OpenGL,
                room.wf(),
            decreases QUAD_VERTEX_COUNT - i,
        {
            let vertex = QuadVertex {
                position: corners[i],
                color,
                tex_coord: tex_coords[i],
                tex_index,
                tiling_factor: ONE,
                entity_id,
            };
            let ghost old_scratch = self.quad_vertex_buffer_base@;
            self.quad_vertex_buffer_base.set(self.quad_vertex_buffer_idx, vertex);
            assert(self.quad_vertex_buffer_base@.take(start) =~= old_scratch.take(start));
            self.quad_vertex_buffer_idx = self.quad_vertex_buffer_idx + 1;
            i = i + 1;
        }
        self.quad_index_count = self.quad_index_count + 6;
        if self.stats.quad_count < usize::MAX {
            self.stats.increment_quad_count();
        }
        assert(self@.pending =~= room.pending + vertices);
    }

    /// Submits a flat-coloured quad with the given corners, which the
    /// caller has already transformed. A full batch is flushed first; the
    /// caller never sees that.
    pub fn draw_quad(&mut self, corners: &[Position; 4], color: Color, entity_id: i32)
        requires
            old(self).wf(),
        ensures
            final(self).wf(),
            final(self)@ == old(self)@.draw_quad(corners@, color, entity_id),
    {
        self.push_quad(corners, color, ZERO, entity_id);
    }

    /// Submits a quad that shows `texture` tinted with `tint_color`. The
    /// quad reads texture slot one, whichever texture is handed in, and
    /// belongs to no entity.
    pub fn draw_quad_texture(
        &mut self,
        corners: &[Position; 4],
        texture: &Texture,
        tint_color: &Color,
    )
        requires
            old(self).wf(),
        ensures
            final(self).wf(),
            final(self)@ == old(self)@.draw_quad_texture(corners@, *tint_color),
    {
        self.push_quad(corners, *tint_color, ONE, -1);
    }

    /// Queues the clear colour of a scene.
    fn clear_color(&mut self)
        requires
            old(self).wf(),
        ensures
            final(self).wf(),
            final(self)@ == (RendererView {
                commands: old(self)@.commands.push(
                    CommandView::SetClearColor { color: scene_clear_color() },
                ),
                ..old(self)@
            }),
    {
        match self.backend {
            RendererBackend::OpenGL => {
                let command = RenderCommand::SetClearColor {
                    color: Color { r: 0x3e4c_cccd, g: 0x3e99_999a, b: 0x3f00_0000, a: ONE },
                };
                proof {
                    lemma_command_views_push(self.commands@, command);
                }
                self.commands.push(command);
            },
            _ => {},
        }
    }

    /// Keeps the camera's matrix and queues its upload.
    fn set_camera_data(&mut self, camera: &CameraData)
        requires
            old(self).wf(),
        ensures
            final(self).wf(),
            final(self)@ == (RendererView {
                camera: camera.view_projection@,
                commands: old(self)@.commands.push(
                    CommandView::UploadCamera {
                        bytes: words_bytes(camera.view_projection@),
                        offset: 0,
                    },
                ),
                ..old(self)@
            }),
    {
        self.camera_data = *camera;
        let bytes = self.camera_data.as_bytes();
        let command = RenderCommand::UploadCamera { bytes, offset: 0 };
        proof {
            lemma_command_views_push(self.commands@, command);
        }
        self.commands.push(command);
    }

    /// Starts a scene seen through `camera`: clears the target, uploads the
    /// camera and starts an empty batch.
    pub fn begin_scene(&mut self, camera: &CameraData)
        requires
            old(self).wf(),
        ensures
            final(self).wf(),
            final(self)@ == old(self)@.begin_scene(camera.view_projection@),
    {
        self.clear_color();
        proof {
            lemma_command_views_push(self.commands@, RenderCommand::Clear);
        }
        self.commands.push(RenderCommand::Clear);
        self.set_camera_data(camera);
        self.start_batch();
        assert(self@.commands =~= old(self)@.begin_scene(camera.view_projection@).commands);
    }

    /// Ends the scene: what is pending is drawn, and the batch is left
    /// empty, so that ending a scene twice draws nothing more.
    pub fn end_scene(&mut self)
        requires
            old(self).wf(),
        ensures
            final(self).wf(),
            final(self)@ == old(self)@.end_scene(),
            final(self)@.batch_is_empty(),
            old(self)@.batch_is_empty() ==> final(self)@.commands == old(self)@.commands
                && final(self)@.stats == old(self)@.stats,
    {
        self.flush();
        self.start_batch();
    }
}

} // verus!
