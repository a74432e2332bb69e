//! The mesh renderer: it turns the GUI's clipped primitives into the backend's draw calls,
//! keeps track of how large the two stream buffers are, and owns the texture cache.

use crate::backend::{texture_command_views, TextureCommand, TextureCommandView};
use crate::geometry::{PixelRect, Rect, Scalar, ScissorRect, Vec2};
use crate::gui::{ImageDelta, TextureId, TexturesDelta};
use crate::mesh::{mesh16_views, narrowed, split, split_meshes, MAX_VERTICES};
use crate::mesh::{Mesh, Mesh16, Mesh16View, MeshView};
use crate::texture::{all_carried_out, distinct_ids, occupied, slot_of, Slots, TextureCache};
use crate::texture::{remove_commands, remove_slots, upsert_commands, upsert_slots};
use vstd::prelude::*;

verus! {

/// The size of the framebuffer and the scale between logical points and its pixels.
#[derive(Clone, Copy, Debug, PartialEq, Eq, Structural, Hash)]
pub struct ScreenInfo {
    pub width_px: u32,
    pub height_px: u32,
    pub pixels_per_point: Scalar,
    /// The framebuffer's size in logical points: its size in pixels over the scale.
    pub size_in_points: Vec2,
}

/// The texture that a draw call samples.
#[derive(Clone, Copy, Debug, PartialEq, Eq, Structural, Hash)]
pub enum TextureBinding {
    /// The texture that the cache keeps under this slot.
    Slot(usize),
    /// A texture that the host owns, by the backend's own number for it.
    Raw(u64),
}

/// One step in drawing a mesh.
#[derive(Clone, Debug, PartialEq, Eq)]
pub enum MeshCommand {
    /// Destroy the vertex buffer and allocate one for `len` vertices in its place.
    ReplaceVertexBuffer { len: usize },
    /// Fill the vertex buffer from its start.
    UploadVertices { vertices: Vec<egui::epaint::Vertex> },
    /// Destroy the index buffer and allocate one for `len` indices in its place.
    ReplaceIndexBuffer { len: usize },
    /// Fill the index buffer from its start.
    UploadIndices { indices: Vec<u16> },
    /// Nothing to do but report it: the mesh names a texture that the cache does not hold.
    TextureNotFound { id: TextureId },
    ApplyScissor { rect: ScissorRect },
    /// Bind the two buffers and this texture.
    ApplyBindings { texture: TextureBinding },
    Draw { base_element: usize, num_elements: usize, num_instances: usize },
}

/// A mesh command with its lists as sequences.
pub enum MeshCommandView {
    ReplaceVertexBuffer { len: usize },
    UploadVertices { vertices: Seq<egui::epaint::Vertex> },
    ReplaceIndexBuffer { len: usize },
    UploadIndices { indices: Seq<u16> },
    TextureNotFound { id: TextureId },
    ApplyScissor { rect: ScissorRect },
    ApplyBindings { texture: TextureBinding },
    Draw { base_element: usize, num_elements: usize, num_instances: usize },
}

impl View for MeshCommand {
    type V = MeshCommandView;

    open spec fn view(&self) -> MeshCommandView {
        match self {
            MeshCommand::ReplaceVertexBuffer { len } => MeshCommandView::ReplaceVertexBuffer {
                len: *len,
            },
            MeshCommand::UploadVertices { vertices } => MeshCommandView::UploadVertices {
                vertices: vertices@,
            },
            MeshCommand::ReplaceIndexBuffer { len } => MeshCommandView::ReplaceIndexBuffer {
                len: *len,
            },
            MeshCommand::UploadIndices { indices } => MeshCommandView::UploadIndices {
                indices: indices@,
            },
            MeshCommand::TextureNotFound { id } => MeshCommandView::TextureNotFound { id: *id },
            MeshCommand::ApplyScissor { rect } => MeshCommandView::ApplyScissor { rect: *rect },
            MeshCommand::ApplyBindings { texture } => MeshCommandView::ApplyBindings {
                texture: *texture,
            },
            MeshCommand::Draw {
                base_element,
                num_elements,
                num_instances,
            } => MeshCommandView::Draw {
                base_element: *base_element,
                num_elements: *num_elements,
                num_instances: *num_instances,
            },
        }
    }
}

/// The views of a list of mesh commands, in order.
pub open spec fn mesh_command_views(commands: Seq<MeshCommand>) -> Seq<MeshCommandView> {
    Seq::new(commands.len(), |i: int| commands[i]@)
}

/// How many elements each of the two stream buffers has room for.
#[derive(Clone, Copy, Debug, PartialEq, Eq, Structural, Hash)]
pub struct Capacities {
    pub vertices: usize,
    pub indices: usize,
}

/// The room that both stream buffers start with.
pub const INITIAL_CAPACITY: usize = 32768;

/// `value`, or the nearer bound where it lies outside `low..=high`.
pub open spec fn clamp(value: int, low: int, high: int) -> int {
    if value < low {
        low
    } else if value > high {
        high
    } else {
        value
    }
}

/// A framebuffer length as far as the scissor rectangle's coordinates can express it.
pub open spec fn extent(length: u32) -> int {
    if length > i32::MAX {
        i32::MAX as int
    } else {
        length as int
    }
}

/// The scissor rectangle for a clip rectangle: the clip rectangle cut to the framebuffer,
/// measured from the bottom left corner instead of the top left.
pub open spec fn scissor(clip: PixelRect, width_px: u32, height_px: u32) -> ScissorRect {
    let width = extent(width_px);
    let height = extent(height_px);
    let min_x = clamp(clip.min_x as int, 0, width);
    let min_y = clamp(clip.min_y as int, 0, height);
    let max_x = clamp(clip.max_x as int, min_x, width);
    let max_y = clamp(clip.max_y as int, min_y, height);
    ScissorRect {
        x: min_x as i32,
        y: (height - max_y) as i32,
        width: (max_x - min_x) as i32,
        height: (max_y - min_y) as i32,
    }
}

fn clamp_to(value: i64, low: i64, high: i64) -> (clamped: i64)
    requires
        low <= high,
    ensures
        clamped == clamp(value as int, low as int, high as int),
{
    if value < low {
        low
    } else if value > high {
        high
    } else {
        value
    }
}

/// Cuts a clip rectangle to the framebuffer and turns it upside down for the backend.
pub fn scissor_rect(clip: PixelRect, width_px: u32, height_px: u32) -> (rect: ScissorRect)
    ensures
        rect == scissor(clip, width_px, height_px),
        0 <= rect.x <= rect.x + rect.width <= extent(width_px),
        0 <= rect.y <= rect.y + rect.height <= extent(height_px),
{
    let width: i64 = if width_px > 0x7fff_ffff {
        0x7fff_ffff
    } else {
        width_px as i64
    };
    let height: i64 = if height_px > 0x7fff_ffff {
        0x7fff_ffff
    } else {
        height_px as i64
    };
    let min_x = clamp_to(clip.min_x, 0, width);
    let min_y = clamp_to(clip.min_y, 0, height);
    let max_x = clamp_to(clip.max_x, min_x, width);
    let max_y = clamp_to(clip.max_y, min_y, height);
    ScissorRect {
        x: min_x as i32,
        y: (height - max_y) as i32,
        width: (max_x - min_x) as i32,
        height: (max_y - min_y) as i32,
    }
}

/// A clip rectangle that lies wholly outside the framebuffer, or that is empty or inside
/// out, gives a scissor rectangle without area.
pub proof fn lemma_scissor_outside(clip: PixelRect, width_px: u32, height_px: u32)
    requires
        clip.max_x <= 0 || clip.min_x >= extent(width_px) || clip.max_y <= 0 || clip.min_y >= extent(
            height_px,
        ) || clip.max_x <= clip.min_x || clip.max_y <= clip.min_y,
    ensures
        scissor(clip, width_px, height_px).width == 0 || scissor(clip, width_px, height_px).height
            == 0,
{
}

/// A scissor rectangle lies within the framebuffer and is never negative in width or
/// height.
pub proof fn lemma_scissor_within(clip: PixelRect, width_px: u32, height_px: u32)
    ensures
        ({
            let rect = scissor(clip, width_px, height_px);
            &&& 0 <= rect.width && 0 <= rect.height
            &&& 0 <= rect.x && rect.x + rect.width <= extent(width_px)
            &&& 0 <= rect.y && rect.y + rect.height <= extent(height_px)
        }),
{
}

/// A clip rectangle inside the framebuffer keeps its size, and its distance from the top
/// becomes the scissor rectangle's distance from the top.
pub proof fn lemma_scissor_inside(clip: PixelRect, width_px: u32, height_px: u32)
    requires
        0 <= clip.min_x <= clip.max_x <= extent(width_px),
        0 <= clip.min_y <= clip.max_y <= extent(height_px),
    ensures
        ({
            let rect = scissor(clip, width_px, height_px);
            &&& rect.x == clip.min_x
            &&& rect.width == clip.max_x - clip.min_x
            &&& rect.height == clip.max_y - clip.min_y
            &&& rect.y + rect.height == extent(height_px) - clip.min_y
        }),
{
}

/// The texture that a mesh draws with: a managed texture is looked up in the cache, a
/// texture of the host's is passed on by its number.
pub open spec fn resolve(slots: Slots, id: TextureId) -> Option<TextureBinding> {
    match id {
        TextureId::Managed(_) => match slot_of(slots, id) {
            Some(slot) => Some(TextureBinding::Slot(slot as usize)),
            None => None,
        },
        TextureId::User(raw) => Some(TextureBinding::Raw(raw)),
    }
}

/// The room of a buffer after `needed` elements were asked of it: buffers grow to what is
/// needed and never shrink.
pub open spec fn grown(capacity: usize, needed: nat) -> usize {
    if capacity < needed {
        needed as usize
    } else {
        capacity
    }
}

/// The room of the two buffers after a mesh was drawn.
pub open spec fn capacities_after_mesh(capacities: Capacities, mesh: Mesh16View) -> Capacities {
    Capacities {
        vertices: grown(capacities.vertices, mesh.vertices.len()),
        indices: grown(capacities.indices, mesh.indices.len()),
    }
}

/// The commands that replace a buffer, if it is too small for `needed` elements.
pub open spec fn growth(capacity: usize, needed: nat, replace: MeshCommandView) -> Seq<
    MeshCommandView,
> {
    if capacity < needed {
        seq![replace]
    } else {
        seq![]
    }
}

/// The commands that draw one mesh.
///
/// Each buffer is replaced if it is too small, then filled. A mesh whose texture the cache
/// does not hold is reported and not drawn. Else the scissor rectangle is set, the buffers
/// and the texture are bound, and all of the mesh's indices are drawn once.
pub open spec fn mesh_commands(
    capacities: Capacities,
    slots: Slots,
    mesh: Mesh16View,
    clip: PixelRect,
    screen: ScreenInfo,
) -> Seq<MeshCommandView> {
    growth(
        capacities.vertices,
        mesh.vertices.len(),
        MeshCommandView::ReplaceVertexBuffer { len: mesh.vertices.len() as usize },
    ) + seq![MeshCommandView::UploadVertices { vertices: mesh.vertices }] + growth(
        capacities.indices,
        mesh.indices.len(),
        MeshCommandView::ReplaceIndexBuffer { len: mesh.indices.len() as usize },
    ) + seq![MeshCommandView::UploadIndices { indices: mesh.indices }] + match resolve(
        slots,
        mesh.texture_id,
    ) {
        Some(texture) => seq![
            MeshCommandView::ApplyScissor {
                rect: scissor(clip, screen.width_px, screen.height_px),
            },
            MeshCommandView::ApplyBindings { texture },
            MeshCommandView::Draw {
                base_element: 0,
                num_elements: mesh.indices.len() as usize,
                num_instances: 1,
            },
        ],
        None => seq![MeshCommandView::TextureNotFound { id: mesh.texture_id }],
    }
}

/// The room of the two buffers after the meshes were drawn in order.
pub open spec fn capacities_after_meshes(
    capacities: Capacities,
    meshes: Seq<Mesh16View>,
) -> Capacities
    decreases meshes.len(),
{
    if meshes.len() == 0 {
        capacities
    } else {
        capacities_after_mesh(
            capacities_after_meshes(capacities, meshes.drop_last()),
            meshes.last(),
        )
    }
}

/// The commands that draw the meshes in order under one clip rectangle.
pub open spec fn meshes_commands(
    capacities: Capacities,
    slots: Slots,
    meshes: Seq<Mesh16View>,
    clip: PixelRect,
    screen: ScreenInfo,
) -> Seq<MeshCommandView>
    decreases meshes.len(),
{
    if meshes.len() == 0 {
        seq![]
    } else {
        meshes_commands(capacities, slots, meshes.drop_last(), clip, screen) + mesh_commands(
            capacities_after_meshes(capacities, meshes.drop_last()),
            slots,
            meshes.last(),
            clip,
            screen,
        )
    }
}

/// The lists of every mesh are as long as lists in memory can be.
pub open spec fn in_memory(meshes: Seq<Mesh16View>) -> bool {
    forall|k: int|
        0 <= k < meshes.len() ==> (#[trigger] meshes[k]).vertices.len() <= usize::MAX
            && meshes[k].indices.len() <= usize::MAX
}

/// Drawing meshes never shrinks a buffer.
pub proof fn lemma_buffers_never_shrink(capacities: Capacities, meshes: Seq<Mesh16View>)
    requires
        in_memory(meshes),
    ensures
        capacities_after_meshes(capacities, meshes).vertices >= capacities.vertices,
        capacities_after_meshes(capacities, meshes).indices >= capacities.indices,
    decreases meshes.len(),
{
    if meshes.len() > 0 {
        let front = meshes.drop_last();
        assert forall|k: int| 0 <= k < front.len() implies (#[trigger] front[k]).vertices.len()
            <= usize::MAX && front[k].indices.len() <= usize::MAX by {
            assert(front[k] == meshes[k]);
        }
        lemma_buffers_never_shrink(capacities, front);
        assert(meshes.last() == meshes[meshes.len() - 1]);
    }
}

/// After meshes were drawn, each buffer has room for every one of them.
pub proof fn lemma_buffers_hold_every_mesh(capacities: Capacities, meshes: Seq<Mesh16View>, i: int)
    requires
        0 <= i < meshes.len(),
        in_memory(meshes),
    ensures
        capacities_after_meshes(capacities, meshes).vertices >= meshes[i].vertices.len(),
        capacities_after_meshes(capacities, meshes).indices >= meshes[i].indices.len(),
    decreases meshes.len(),
{
    let front = meshes.drop_last();
    assert forall|k: int| 0 <= k < front.len() implies (#[trigger] front[k]).vertices.len()
        <= usize::MAX && front[k].indices.len() <= usize::MAX by {
        assert(front[k] == meshes[k]);
    }
    assert(meshes.last() == meshes[meshes.len() - 1]);
    if i < meshes.len() - 1 {
        lemma_buffers_hold_every_mesh(capacities, front, i);
        assert(front[i] == meshes[i]);
    }
}

/// A buffer is replaced exactly where it is too small for the mesh, and then by one of
/// just the mesh's size.
pub proof fn lemma_replaced_when_too_small(
    capacities: Capacities,
    slots: Slots,
    mesh: Mesh16View,
    clip: PixelRect,
    screen: ScreenInfo,
)
    ensures
        ({
            let commands = mesh_commands(capacities, slots, mesh, clip, screen);
            let replace_vertices = MeshCommandView::ReplaceVertexBuffer {
                len: mesh.vertices.len() as usize,
            };
            let replace_indices = MeshCommandView::ReplaceIndexBuffer {
                len: mesh.indices.len() as usize,
            };
            &&& commands.contains(replace_vertices) <==> capacities.vertices < mesh.vertices.len()
            &&& commands.contains(replace_indices) <==> capacities.indices < mesh.indices.len()
        }),
{
    let commands = mesh_commands(capacities, slots, mesh, clip, screen);
    let replace_vertices = MeshCommandView::ReplaceVertexBuffer {
        len: mesh.vertices.len() as usize,
    };
    let replace_indices = MeshCommandView::ReplaceIndexBuffer {
        len: mesh.indices.len() as usize,
    };
    if capacities.vertices < mesh.vertices.len() {
        assert(commands[0] == replace_vertices);
    }
    if capacities.indices < mesh.indices.len() {
        let at = if capacities.vertices < mesh.vertices.len() {
            2int
        } else {
            1int
        };
        assert(commands[at] == replace_indices);
    }
}

/// The mesh renderer's state: the texture cache, and the room of the vertex and the index
/// buffer.
pub struct Painter {
    textures: TextureCache,
    capacities: Capacities,
}

impl Painter {
    /// The slot table of the texture cache.
    pub closed spec fn slots(&self) -> Slots {
        self.textures.slots()
    }

    /// The room of the two stream buffers.
    pub closed spec fn capacities(&self) -> Capacities {
        self.capacities
    }

    /// The texture cache holds no name twice.
    pub open spec fn well_formed(&self) -> bool {
        distinct_ids(self.slots())
    }

    /// A renderer with no textures, whose buffers have room for `INITIAL_CAPACITY` vertices
    /// and as many indices.
    pub fn new() -> (painter: Painter)
        ensures
            painter.well_formed(),
            painter.slots() == Seq::<Option<crate::texture::TextureRecord>>::empty(),
            painter.capacities() == (Capacities {
                vertices: INITIAL_CAPACITY,
                indices: INITIAL_CAPACITY,
            }),
    {
        Painter {
            textures: TextureCache::new(),
            capacities: Capacities { vertices: INITIAL_CAPACITY, indices: INITIAL_CAPACITY },
        }
    }

    /// The texture cache.
    pub fn textures(&self) -> (textures: &TextureCache)
        ensures
            textures.slots() == self.slots(),
    {
        &self.textures
    }

    /// Applies one texture change to the cache and says what the backend has to do for it.
    pub fn set_texture(&mut self, tex_id: TextureId, delta: &ImageDelta) -> (commands: Vec<
        TextureCommand,
    >)
        requires
            old(self).well_formed(),
            delta.image.well_formed(),
        ensures
            final(self).well_formed(),
            final(self).capacities() == old(self).capacities(),
            final(self).slots() == upsert_slots(old(self).slots(), tex_id, *delta),
            texture_command_views(commands@) == upsert_commands(old(self).slots(), tex_id, *delta),
    {
        self.textures.upsert(tex_id, delta)
    }

    /// Drops a texture from the cache and says what the backend has to do for it.
    pub fn free_texture(&mut self, tex_id: TextureId) -> (commands: Vec<TextureCommand>)
        requires
            old(self).well_formed(),
        ensures
            final(self).well_formed(),
            final(self).capacities() == old(self).capacities(),
            final(self).slots() == remove_slots(old(self).slots(), tex_id),
            texture_command_views(commands@) == remove_commands(old(self).slots(), tex_id),
    {
        self.textures.remove(tex_id)
    }

    fn resolve_texture(&self, id: TextureId) -> (texture: Option<TextureBinding>)
        requires
            self.well_formed(),
        ensures
            texture == resolve(self.slots(), id),
    {
        match id {
            TextureId::Managed(_) => match self.textures.lookup(id) {
                Some(slot) => Some(TextureBinding::Slot(slot)),
                None => None,
            },
            TextureId::User(raw) => Some(TextureBinding::Raw(raw)),
        }
    }

    fn paint_mesh(
        &mut self,
        commands: &mut Vec<MeshCommand>,
        clip_rect: PixelRect,
        mesh: Mesh16,
        screen: &ScreenInfo,
    )
        requires
            old(self).well_formed(),
        ensures
            final(self).well_formed(),
            final(self).slots() == old(self).slots(),
            final(self).capacities() == capacities_after_mesh(old(self).capacities(), mesh@),
            mesh_command_views(final(commands)@) == mesh_command_views(old(commands)@) + mesh_commands(
                old(self).capacities(),
                old(self).slots(),
                mesh@,
                clip_rect,
                *screen,
            ),
    {
        let ghost before = mesh_command_views(commands@);
        let ghost expected = mesh_commands(
            self.capacities,
            self.slots(),
            mesh@,
            clip_rect,
            *screen,
        );
        let Mesh16 { indices, vertices, texture_id } = mesh;
        let vertex_count: usize = vertices.len();
        let index_count: usize = indices.len();
        if self.capacities.vertices < vertex_count {
            commands.push(MeshCommand::ReplaceVertexBuffer { len: vertex_count });
            self.capacities.vertices = vertex_count;
        }
        commands.push(MeshCommand::UploadVertices { vertices });
        if self.capacities.indices < index_count {
            commands.push(MeshCommand::ReplaceIndexBuffer { len: index_count });
            self.capacities.indices = index_count;
        }
        commands.push(MeshCommand::UploadIndices { indices });
        match self.resolve_texture(texture_id) {
            Some(texture) => {
                let rect = scissor_rect(clip_rect, screen.width_px, screen.height_px);
                commands.push(MeshCommand::ApplyScissor { rect });
                commands.push(MeshCommand::ApplyBindings { texture });
                commands.push(
                    MeshCommand::Draw {
                        base_element: 0,
                        num_elements: index_count,
                        num_instances: 1,
                    },
                );
            },
            None => {
                commands.push(MeshCommand::TextureNotFound { id: texture_id });
            },
        }
        assert(mesh_command_views(commands@) =~= before + expected);
    }

    /// Draws meshes with 16-bit indices, in order, under one clip rectangle.
    pub fn paint_meshes(
        &mut self,
        clip_rect: PixelRect,
        meshes: Vec<Mesh16>,
        screen: &ScreenInfo,
    ) -> (commands: Vec<MeshCommand>)
        requires
            old(self).well_formed(),
            forall|i: int| 0 <= i < meshes@.len() ==> (#[trigger] meshes@[i])@.valid(),
        ensures
            final(self).well_formed(),
            final(self).slots() == old(self).slots(),
            final(self).capacities() == capacities_after_meshes(
                old(self).capacities(),
                mesh16_views(meshes@),
            ),
            mesh_command_views(commands@) == meshes_commands(
                old(self).capacities(),
                old(self).slots(),
                mesh16_views(meshes@),
                clip_rect,
                *screen,
            ),
    {
        let mut commands: Vec<MeshCommand> = Vec::new();
        let ghost all = mesh16_views(meshes@);
        let ghost start = self.capacities;
        let ghost slots = self.slots();
        for mesh in it: meshes.into_iter()
            invariant
                it.seq() == meshes@,
                all == mesh16_views(meshes@),
                self.well_formed(),
                self.slots() == slots,
                self.capacities == capacities_after_meshes(start, all.take(it.index() as int)),
                mesh_command_views(commands@) == meshes_commands(
                    start,
                    slots,
                    all.take(it.index() as int),
                    clip_rect,
                    *screen,
                ),
        {
            proof {
                assert(all.take(it.index() + 1).drop_last() =~= all.take(it.index() as int));
                assert(all.take(it.index() + 1).last() == mesh@);
            }
            self.paint_mesh(&mut commands, clip_rect, mesh, screen);
        }
        proof {
            assert(all.take(all.len() as int) =~= all);
        }
        commands
    }

    /// Draws one mesh under its clip rectangle: the mesh is split into meshes that 16-bit
    /// indices can address, and these are drawn in order.
    pub fn paint_job(
        &mut self,
        clip_rect: PixelRect,
        mesh: Mesh,
        screen: &ScreenInfo,
    ) -> (commands: Vec<MeshCommand>)
        requires
            old(self).well_formed(),
            mesh@.splittable(),
        ensures
            final(self).well_formed(),
            final(self).slots() == old(self).slots(),
            final(self).capacities() == capacities_after_meshes(
                old(self).capacities(),
                split_meshes(mesh@),
            ),
            mesh_command_views(commands@) == meshes_commands(
                old(self).capacities(),
                old(self).slots(),
                split_meshes(mesh@),
                clip_rect,
                *screen,
            ),
            mesh.vertices@.len() <= MAX_VERTICES ==> split_meshes(mesh@) == seq![narrowed(mesh@)],
    {
        let meshes = split(mesh);
        self.paint_meshes(clip_rect, meshes, screen)
    }
}

/// What a custom draw callback is told about the frame.
#[derive(Clone, Copy, Debug, PartialEq, Eq, Structural, Hash)]
pub struct PaintCallbackInfo {
    /// The rectangle that the callback was given to fill.
    pub viewport: Rect,
    pub clip_rect: Rect,
    pub pixels_per_point: Scalar,
    pub screen_width_px: u32,
    pub screen_height_px: u32,
}

/// A request for custom drawing. `callback` is `None` where what the GUI carried was not a
/// callback of the kind that the renderer runs.
#[derive(Clone, Debug, PartialEq, Eq)]
pub struct PaintCallback<C> {
    pub rect: Rect,
    pub callback: Option<C>,
}

/// What is drawn: a textured mesh or a custom draw callback.
#[derive(Clone, Debug, PartialEq, Eq)]
pub enum Primitive<C> {
    Mesh(Mesh),
    Callback(PaintCallback<C>),
}

/// One drawable unit of a frame with its clip rectangle, in logical points and in pixels.
#[derive(Clone, Debug, PartialEq, Eq)]
pub struct ClippedPrimitive<C> {
    pub clip_rect: Rect,
    pub clip_rect_px: PixelRect,
    pub primitive: Primitive<C>,
}

/// One step in drawing a frame.
#[derive(Clone, Debug, PartialEq, Eq)]
pub enum DrawCommand<C> {
    /// Begin the default render pass and clear nothing.
    BeginPass,
    ApplyPipeline,
    /// Tell the shader the size of the screen in logical points.
    ApplyUniforms { screen_size: Vec2 },
    Mesh(MeshCommand),
    /// Run a custom draw callback with the backend at its disposal.
    Callback { info: PaintCallbackInfo, callback: C },
    /// Nothing to do but report it: a callback of an unknown kind was skipped.
    UnsupportedCallback,
    EndPass,
}

/// A primitive with its lists as sequences.
pub enum PrimitiveView<C> {
    Mesh(MeshView),
    Callback(PaintCallback<C>),
}

/// A clipped primitive with its lists as sequences.
pub struct ClippedPrimitiveView<C> {
    pub clip_rect: Rect,
    pub clip_rect_px: PixelRect,
    pub primitive: PrimitiveView<C>,
}

/// A draw command with its lists as sequences.
pub enum DrawCommandView<C> {
    BeginPass,
    ApplyPipeline,
    ApplyUniforms { screen_size: Vec2 },
    Mesh(MeshCommandView),
    Callback { info: PaintCallbackInfo, callback: C },
    UnsupportedCallback,
    EndPass,
}

impl<C> View for Primitive<C> {
    type V = PrimitiveView<C>;

    open spec fn view(&self) -> PrimitiveView<C> {
        match self {
            Primitive::Mesh(mesh) => PrimitiveView::Mesh(mesh@),
            Primitive::Callback(callback) => PrimitiveView::Callback(*callback),
        }
    }
}

impl<C> View for ClippedPrimitive<C> {
    type V = ClippedPrimitiveView<C>;

    open spec fn view(&self) -> ClippedPrimitiveView<C> {
        ClippedPrimitiveView {
            clip_rect: self.clip_rect,
            clip_rect_px: self.clip_rect_px,
            primitive: self.primitive@,
        }
    }
}

impl<C> View for DrawCommand<C> {
    type V = DrawCommandView<C>;

    open spec fn view(&self) -> DrawCommandView<C> {
        match self {
            DrawCommand::BeginPass => DrawCommandView::BeginPass,
            DrawCommand::ApplyPipeline => DrawCommandView::ApplyPipeline,
            DrawCommand::ApplyUniforms { screen_size } => DrawCommandView::ApplyUniforms {
                screen_size: *screen_size,
            },
            DrawCommand::Mesh(command) => DrawCommandView::Mesh(command@),
            DrawCommand::Callback { info, callback } => DrawCommandView::Callback {
                info: *info,
                callback: *callback,
            },
            DrawCommand::UnsupportedCallback => DrawCommandView::UnsupportedCallback,
            DrawCommand::EndPass => DrawCommandView::EndPass,
        }
    }
}

/// The views of a list of clipped primitives, in order.
pub open spec fn primitive_views<C>(primitives: Seq<ClippedPrimitive<C>>) -> Seq<
    ClippedPrimitiveView<C>,
> {
    Seq::new(primitives.len(), |i: int| primitives[i]@)
}

/// The views of a list of draw commands, in order.
pub open spec fn draw_command_views<C>(commands: Seq<DrawCommand<C>>) -> Seq<DrawCommandView<C>> {
    Seq::new(commands.len(), |i: int| commands[i]@)
}

/// Mesh commands as steps of a frame.
pub open spec fn mesh_steps<C>(commands: Seq<MeshCommandView>) -> Seq<DrawCommandView<C>> {
    Seq::new(commands.len(), |i: int| DrawCommandView::Mesh(commands[i]))
}

/// The room of the two buffers after a primitive was drawn.
pub open spec fn capacities_after_primitive<C>(
    capacities: Capacities,
    primitive: ClippedPrimitiveView<C>,
) -> Capacities {
    match primitive.primitive {
        PrimitiveView::Mesh(mesh) => capacities_after_meshes(capacities, split_meshes(mesh)),
        PrimitiveView::Callback(_) => capacities,
    }
}

/// The commands that draw one primitive.
///
/// A mesh is split and drawn under the primitive's clip rectangle. A callback is run with
/// its own rectangle, the clip rectangle and the screen's measures; one of an unknown kind
/// is reported and skipped.
pub open spec fn primitive_commands<C>(
    capacities: Capacities,
    slots: Slots,
    primitive: ClippedPrimitiveView<C>,
    screen: ScreenInfo,
) -> Seq<DrawCommandView<C>> {
    match primitive.primitive {
        PrimitiveView::Mesh(mesh) => mesh_steps(
            meshes_commands(capacities, slots, split_meshes(mesh), primitive.clip_rect_px, screen),
        ),
        PrimitiveView::Callback(request) => match request.callback {
            Some(callback) => seq![
                DrawCommandView::Callback {
                    info: PaintCallbackInfo {
                        viewport: request.rect,
                        clip_rect: primitive.clip_rect,
                        pixels_per_point: screen.pixels_per_point,
                        screen_width_px: screen.width_px,
                        screen_height_px: screen.height_px,
                    },
                    callback,
                },
            ],
            None => seq![DrawCommandView::UnsupportedCallback],
        },
    }
}

/// The room of the two buffers after the primitives were drawn in order.
pub open spec fn capacities_after_primitives<C>(
    capacities: Capacities,
    primitives: Seq<ClippedPrimitiveView<C>>,
) -> Capacities
    decreases primitives.len(),
{
    if primitives.len() == 0 {
        capacities
    } else {
        capacities_after_primitive(
            capacities_after_primitives(capacities, primitives.drop_last()),
            primitives.last(),
        )
    }
}

/// The commands that draw the primitives in order.
pub open spec fn primitives_commands<C>(
    capacities: Capacities,
    slots: Slots,
    primitives: Seq<ClippedPrimitiveView<C>>,
    screen: ScreenInfo,
) -> Seq<DrawCommandView<C>>
    decreases primitives.len(),
{
    if primitives.len() == 0 {
        seq![]
    } else {
        primitives_commands(capacities, slots, primitives.drop_last(), screen) + primitive_commands(
            capacities_after_primitives(capacities, primitives.drop_last()),
            slots,
            primitives.last(),
            screen,
        )
    }
}

/// The commands of one render pass: the pass begins without clearing, the pipeline and the
/// screen size are set, the primitives are drawn in order, and the pass ends.
pub open spec fn paint_commands<C>(
    capacities: Capacities,
    slots: Slots,
    primitives: Seq<ClippedPrimitiveView<C>>,
    screen: ScreenInfo,
) -> Seq<DrawCommandView<C>> {
    seq![
        DrawCommandView::BeginPass,
        DrawCommandView::ApplyPipeline,
        DrawCommandView::ApplyUniforms { screen_size: screen.size_in_points },
    ] + primitives_commands(capacities, slots, primitives, screen) + seq![DrawCommandView::EndPass]
}

/// Every mesh among the primitives can be split.
pub open spec fn all_splittable<C>(primitives: Seq<ClippedPrimitiveView<C>>) -> bool {
    forall|i: int|
        0 <= i < primitives.len() ==> match (#[trigger] primitives[i]).primitive {
            PrimitiveView::Mesh(mesh) => mesh.splittable(),
            PrimitiveView::Callback(_) => true,
        }
}

fn push_mesh_steps<C>(commands: &mut Vec<DrawCommand<C>>, steps: Vec<MeshCommand>)
    ensures
        draw_command_views(final(commands)@) == draw_command_views(old(commands)@) + mesh_steps(
            mesh_command_views(steps@),
        ),
{
    let ghost before = draw_command_views(commands@);
    let ghost all = mesh_steps::<C>(mesh_command_views(steps@));
    for step in it: steps.into_iter()
        invariant
            it.seq() == steps@,
            all == mesh_steps::<C>(mesh_command_views(steps@)),
            draw_command_views(commands@) == before + all.take(it.index() as int),
    {
        let ghost done = draw_command_views(commands@);
        proof {
            assert(all[it.index() as int] == DrawCommandView::<C>::Mesh(step@));
            assert(all.take(it.index() + 1) =~= all.take(it.index() as int).push(
                DrawCommandView::Mesh(step@),
            ));
        }
        commands.push(DrawCommand::Mesh(step));
        assert(draw_command_views(commands@) =~= done.push(DrawCommandView::Mesh(step@)));
        assert(done.push(DrawCommandView::Mesh(step@)) =~= before + all.take(it.index() + 1));
    }
    proof {
        assert(all.take(all.len() as int) =~= all);
    }
}

impl Painter {
    fn paint_primitive<C>(
        &mut self,
        commands: &mut Vec<DrawCommand<C>>,
        primitive: ClippedPrimitive<C>,
        screen: &ScreenInfo,
    )
        requires
            old(self).well_formed(),
            match primitive@.primitive {
                PrimitiveView::Mesh(mesh) => mesh.splittable(),
                PrimitiveView::Callback(_) => true,
            },
        ensures
            final(self).well_formed(),
            final(self).slots() == old(self).slots(),
            final(self).capacities() == capacities_after_primitive(
                old(self).capacities(),
                primitive@,
            ),
            draw_command_views(final(commands)@) == draw_command_views(old(commands)@)
                + primitive_commands(
                old(self).capacities(),
                old(self).slots(),
                primitive@,
                *screen,
            ),
    {
        let ghost before = draw_command_views(commands@);
        let ClippedPrimitive { clip_rect, clip_rect_px, primitive } = primitive;
        match primitive {
            Primitive::Mesh(mesh) => {
                let steps = self.paint_job(clip_rect_px, mesh, screen);
                push_mesh_steps(commands, steps);
            },
            Primitive::Callback(request) => {
                let PaintCallback { rect, callback } = request;
                match callback {
                    Some(callback) => {
                        let info = PaintCallbackInfo {
                            viewport: rect,
                            clip_rect,
                            pixels_per_point: screen.pixels_per_point,
                            screen_width_px: screen.width_px,
                        screen_height_px: screen.height_px,
                        };
                        commands.push(DrawCommand::Callback { info, callback });
                    },
                    None => {
                        commands.push(DrawCommand::UnsupportedCallback);
                    },
                }
                assert(draw_command_views(commands@) =~= before + primitive_commands(
                    old(self).capacities(),
                    old(self).slots(),
                    ClippedPrimitiveView {
                        clip_rect,
                        clip_rect_px,
                        primitive: PrimitiveView::Callback(request),
                    },
                    *screen,
                ));
            },
        }
    }

    /// Draws the primitives of one frame, strictly in the order of the list, in one render
    /// pass that clears nothing.
    pub fn paint<C>(
        &mut self,
        primitives: Vec<ClippedPrimitive<C>>,
        screen: &ScreenInfo,
    ) -> (commands: Vec<DrawCommand<C>>)
        requires
            old(self).well_formed(),
            all_splittable(primitive_views(primitives@)),
        ensures
            final(self).well_formed(),
            final(self).slots() == old(self).slots(),
            final(self).capacities() == capacities_after_primitives(
                old(self).capacities(),
                primitive_views(primitives@),
            ),
            draw_command_views(commands@) == paint_commands(
                old(self).capacities(),
                old(self).slots(),
                primitive_views(primitives@),
                *screen,
            ),
    {
        let mut commands: Vec<DrawCommand<C>> = Vec::new();
        commands.push(DrawCommand::BeginPass);
        commands.push(DrawCommand::ApplyPipeline);
        commands.push(DrawCommand::ApplyUniforms { screen_size: screen.size_in_points });
        let ghost head = draw_command_views(commands@);
        let ghost all = primitive_views(primitives@);
        let ghost start = self.capacities;
        let ghost slots = self.slots();
        for primitive in it: primitives.into_iter()
            invariant
                it.seq() == primitives@,
                all == primitive_views(primitives@),
                all_splittable(all),
                self.well_formed(),
                self.slots() == slots,
                self.capacities == capacities_after_primitives(start, all.take(it.index() as int)),
                draw_command_views(commands@) == head + primitives_commands(
                    start,
                    slots,
                    all.take(it.index() as int),
                    *screen,
                ),
        {
            proof {
                assert(all.take(it.index() + 1).drop_last() =~= all.take(it.index() as int));
                assert(all.take(it.index() + 1).last() == primitive@);
                assert(all[it.index() as int] == primitive@);
            }
            self.paint_primitive(&mut commands, primitive, screen);
        }
        proof {
            assert(all.take(all.len() as int) =~= all);
        }
        let ghost body = draw_command_views(commands@);
        commands.push(DrawCommand::EndPass);
        assert(draw_command_views(commands@) =~= body + seq![DrawCommandView::EndPass]);
        assert(head =~= seq![
            DrawCommandView::BeginPass,
            DrawCommandView::ApplyPipeline,
            DrawCommandView::ApplyUniforms { screen_size: screen.size_in_points },
        ]);
        commands
    }
}

/// What the backend has to do for one frame, in this order: the texture changes, the
/// render pass, the texture deletions.
#[derive(Clone, Debug, PartialEq, Eq)]
pub struct FrameCommands<C> {
    pub set: Vec<TextureCommand>,
    pub draw: Vec<DrawCommand<C>>,
    pub free: Vec<TextureCommand>,
}

/// Every image among the texture changes holds as many texels as its size says.
pub open spec fn all_well_formed(set: Seq<(TextureId, ImageDelta)>) -> bool {
    forall|i: int| 0 <= i < set.len() ==> (#[trigger] set[i]).1.image.well_formed()
}

/// The slot table after the texture changes were applied in order.
pub open spec fn slots_after_set(slots: Slots, set: Seq<(TextureId, ImageDelta)>) -> Slots
    decreases set.len(),
{
    if set.len() == 0 {
        slots
    } else {
        upsert_slots(slots_after_set(slots, set.drop_last()), set.last().0, set.last().1)
    }
}

/// The backend commands for the texture changes, applied in order.
pub open spec fn set_commands(slots: Slots, set: Seq<(TextureId, ImageDelta)>) -> Seq<
    TextureCommandView,
>
    decreases set.len(),
{
    if set.len() == 0 {
        seq![]
    } else {
        set_commands(slots, set.drop_last()) + upsert_commands(
            slots_after_set(slots, set.drop_last()),
            set.last().0,
            set.last().1,
        )
    }
}

/// The slot table after the textures were freed in order.
pub open spec fn slots_after_free(slots: Slots, free: Seq<TextureId>) -> Slots
    decreases free.len(),
{
    if free.len() == 0 {
        slots
    } else {
        remove_slots(slots_after_free(slots, free.drop_last()), free.last())
    }
}

/// The backend commands that free the textures in order.
pub open spec fn free_commands(slots: Slots, free: Seq<TextureId>) -> Seq<TextureCommandView>
    decreases free.len(),
{
    if free.len() == 0 {
        seq![]
    } else {
        free_commands(slots, free.drop_last()) + remove_commands(
            slots_after_free(slots, free.drop_last()),
            free.last(),
        )
    }
}

/// Tells whether every image among the texture changes holds as many texels as its size
/// says.
pub fn changes_well_formed(set: &Vec<(TextureId, ImageDelta)>) -> (ok: bool)
    ensures
        ok == all_well_formed(set@),
{
    let mut i: usize = 0;
    while i < set.len()
        invariant
            i <= set.len(),
            forall|k: int| 0 <= k < i ==> (#[trigger] set@[k]).1.image.well_formed(),
        decreases set.len() - i,
    {
        if !set[i].1.image.is_well_formed() {
            assert(!set@[i as int].1.image.well_formed());
            return false;
        }
        i += 1;
    }
    true
}

/// Tells whether every mesh among the primitives can be split.
pub fn primitives_splittable<C>(primitives: &Vec<ClippedPrimitive<C>>) -> (ok: bool)
    ensures
        ok == all_splittable(primitive_views(primitives@)),
{
    let mut i: usize = 0;
    while i < primitives.len()
        invariant
            i <= primitives.len(),
            forall|k: int|
                0 <= k < i ==> match (#[trigger] primitive_views(primitives@)[k]).primitive {
                    PrimitiveView::Mesh(mesh) => mesh.splittable(),
                    PrimitiveView::Callback(_) => true,
                },
        decreases primitives.len() - i,
    {
        assert(primitive_views(primitives@)[i as int] == primitives@[i as int]@);
        if let Primitive::Mesh(mesh) = &primitives[i].primitive {
            if !mesh.is_splittable() {
                return false;
            }
        }
        i += 1;
    }
    true
}

impl Painter {
    /// Applies the texture changes of a frame, in order.
    pub fn set_textures(&mut self, set: &Vec<(TextureId, ImageDelta)>) -> (commands: Vec<
        TextureCommand,
    >)
        requires
            old(self).well_formed(),
            all_well_formed(set@),
        ensures
            final(self).well_formed(),
            final(self).capacities() == old(self).capacities(),
            final(self).slots() == slots_after_set(old(self).slots(), set@),
            texture_command_views(commands@) == set_commands(old(self).slots(), set@),
    {
        let mut commands: Vec<TextureCommand> = Vec::new();
        let ghost start = self.slots();
        let mut i: usize = 0;
        while i < set.len()
            invariant
                i <= set.len(),
                all_well_formed(set@),
                self.well_formed(),
                self.capacities() == old(self).capacities(),
                self.slots() == slots_after_set(start, set@.take(i as int)),
                texture_command_views(commands@) == set_commands(start, set@.take(i as int)),
            decreases set.len() - i,
        {
            proof {
                assert(set@.take(i + 1).drop_last() =~= set@.take(i as int));
                assert(set@.take(i + 1).last() == set@[i as int]);
            }
            let ghost done = texture_command_views(commands@);
            let mut step = self.set_texture(set[i].0, &set[i].1);
            let ghost added = texture_command_views(step@);
            commands.append(&mut step);
            assert(texture_command_views(commands@) =~= done + added);
            i += 1;
        }
        proof {
            assert(set@.take(i as int) =~= set@);
        }
        commands
    }

    /// Frees the textures that a frame has done with, in order.
    pub fn free_textures(&mut self, free: &Vec<TextureId>) -> (commands: Vec<TextureCommand>)
        requires
            old(self).well_formed(),
        ensures
            final(self).well_formed(),
            final(self).capacities() == old(self).capacities(),
            final(self).slots() == slots_after_free(old(self).slots(), free@),
            texture_command_views(commands@) == free_commands(old(self).slots(), free@),
    {
        let mut commands: Vec<TextureCommand> = Vec::new();
        let ghost start = self.slots();
        let mut i: usize = 0;
        while i < free.len()
            invariant
                i <= free.len(),
                self.well_formed(),
                self.capacities() == old(self).capacities(),
                self.slots() == slots_after_free(start, free@.take(i as int)),
                texture_command_views(commands@) == free_commands(start, free@.take(i as int)),
            decreases free.len() - i,
        {
            proof {
                assert(free@.take(i + 1).drop_last() =~= free@.take(i as int));
                assert(free@.take(i + 1).last() == free@[i as int]);
            }
            let ghost done = texture_command_views(commands@);
            let mut step = self.free_texture(free[i]);
            let ghost added = texture_command_views(step@);
            commands.append(&mut step);
            assert(texture_command_views(commands@) =~= done + added);
            i += 1;
        }
        proof {
            assert(free@.take(i as int) =~= free@);
        }
        commands
    }

    /// One whole frame: the texture changes are applied, the primitives are drawn with the
    /// textures as they are then, and only after that the textures that the frame has done
    /// with are freed.
    pub fn paint_and_update_textures<C>(
        &mut self,
        primitives: Vec<ClippedPrimitive<C>>,
        textures_delta: &TexturesDelta,
        screen: &ScreenInfo,
    ) -> (commands: FrameCommands<C>)
        requires
            old(self).well_formed(),
            all_well_formed(textures_delta.set@),
            all_splittable(primitive_views(primitives@)),
        ensures
            final(self).well_formed(),
            final(self).slots() == slots_after_free(
                slots_after_set(old(self).slots(), textures_delta.set@),
                textures_delta.free@,
            ),
            final(self).capacities() == capacities_after_primitives(
                old(self).capacities(),
                primitive_views(primitives@),
            ),
            texture_command_views(commands.set@) == set_commands(
                old(self).slots(),
                textures_delta.set@,
            ),
            draw_command_views(commands.draw@) == paint_commands(
                old(self).capacities(),
                slots_after_set(old(self).slots(), textures_delta.set@),
                primitive_views(primitives@),
                *screen,
            ),
            texture_command_views(commands.free@) == free_commands(
                slots_after_set(old(self).slots(), textures_delta.set@),
                textures_delta.free@,
            ),
    {
        let set = self.set_textures(&textures_delta.set);
        let draw = self.paint(primitives, screen);
        let free = self.free_textures(&textures_delta.free);
        FrameCommands { set, draw, free }
    }
}

/// A mesh is only ever drawn with a texture that lives: where its commands bind the
/// texture of a slot, the slot is taken.
pub proof fn lemma_bound_slots_are_taken(
    capacities: Capacities,
    slots: Slots,
    mesh: Mesh16View,
    clip: PixelRect,
    screen: ScreenInfo,
    slot: usize,
)
    requires
        slots.len() <= usize::MAX,
        mesh_commands(capacities, slots, mesh, clip, screen).contains(
            MeshCommandView::ApplyBindings { texture: TextureBinding::Slot(slot) },
        ),
    ensures
        occupied(slots).contains(slot as int),
        slot_of(slots, mesh.texture_id) == Some(slot as int),
{
    crate::texture::lemma_slot_of_holds(slots, mesh.texture_id);
    let commands = mesh_commands(capacities, slots, mesh, clip, screen);
    let bind = MeshCommandView::ApplyBindings { texture: TextureBinding::Slot(slot) };
    let i = choose|i: int| 0 <= i < commands.len() && commands[i] == bind;
    assert(commands[i] == bind);
    match resolve(slots, mesh.texture_id) {
        Some(texture) => {
            assert(texture == TextureBinding::Slot(slot));
        },
        None => {},
    }
}

/// On a backend whose live textures are those of the taken slots, the texture changes
/// of a frame can all be carried out in order, and the live textures are then again
/// those of the taken slots.
pub proof fn lemma_set_keeps_backend_in_step(slots: Slots, set: Seq<(TextureId, ImageDelta)>)
    requires
        distinct_ids(slots),
        slots.len() + set.len() <= usize::MAX,
    ensures
        distinct_ids(slots_after_set(slots, set)),
        slots_after_set(slots, set).len() <= slots.len() + set.len(),
        all_carried_out(occupied(slots), set_commands(slots, set)) == Some(
            occupied(slots_after_set(slots, set)),
        ),
    decreases set.len(),
{
    if set.len() > 0 {
        let front = set.drop_last();
        let before = slots_after_set(slots, front);
        lemma_set_keeps_backend_in_step(slots, front);
        crate::texture::lemma_upsert_distinct(before, set.last().0, set.last().1);
        crate::texture::lemma_upsert_length(before, set.last().0, set.last().1);
        crate::texture::lemma_upsert_keeps_backend_in_step(before, set.last().0, set.last().1);
        crate::texture::lemma_carried_out_in_turn(
            occupied(slots),
            set_commands(slots, front),
            upsert_commands(before, set.last().0, set.last().1),
        );
    }
}

/// On a backend whose live textures are those of the taken slots, the deletions of a
/// frame can all be carried out in order, and the live textures are then again those of
/// the taken slots.
pub proof fn lemma_free_keeps_backend_in_step(slots: Slots, free: Seq<TextureId>)
    requires
        distinct_ids(slots),
        slots.len() <= usize::MAX,
    ensures
        distinct_ids(slots_after_free(slots, free)),
        slots_after_free(slots, free).len() == slots.len(),
        all_carried_out(occupied(slots), free_commands(slots, free)) == Some(
            occupied(slots_after_free(slots, free)),
        ),
    decreases free.len(),
{
    if free.len() > 0 {
        let front = free.drop_last();
        let before = slots_after_free(slots, front);
        lemma_free_keeps_backend_in_step(slots, front);
        crate::texture::lemma_remove_forgets(before, free.last());
        crate::texture::lemma_slot_of_holds(before, free.last());
        crate::texture::lemma_remove_keeps_backend_in_step(before, free.last());
        crate::texture::lemma_carried_out_in_turn(
            occupied(slots),
            free_commands(slots, front),
            remove_commands(before, free.last()),
        );
    }
}

/// Primitives are drawn strictly in the order of their list: the commands for a list are
/// those for its front part followed by those for the rest, with the buffers as the front
/// part left them.
pub proof fn lemma_primitives_in_order<C>(
    capacities: Capacities,
    slots: Slots,
    front: Seq<ClippedPrimitiveView<C>>,
    rest: Seq<ClippedPrimitiveView<C>>,
    screen: ScreenInfo,
)
    ensures
        capacities_after_primitives(capacities, front + rest) == capacities_after_primitives(
            capacities_after_primitives(capacities, front),
            rest,
        ),
        primitives_commands(capacities, slots, front + rest, screen) == primitives_commands(
            capacities,
            slots,
            front,
            screen,
        ) + primitives_commands(capacities_after_primitives(capacities, front), slots, rest, screen),
    decreases rest.len(),
{
    if rest.len() == 0 {
        assert(front + rest =~= front);
        assert(primitives_commands(capacities, slots, front, screen) + Seq::empty()
            =~= primitives_commands(capacities, slots, front, screen));
    } else {
        assert((front + rest).drop_last() =~= front + rest.drop_last());
        assert((front + rest).last() == rest.last());
        lemma_primitives_in_order(capacities, slots, front, rest.drop_last(), screen);
        let a = primitives_commands(capacities, slots, front, screen);
        let b = primitives_commands(
            capacities_after_primitives(capacities, front),
            slots,
            rest.drop_last(),
            screen,
        );
        let c = primitive_commands(
            capacities_after_primitives(capacities, (front + rest).drop_last()),
            slots,
            rest.last(),
            screen,
        );
        assert((a + b) + c =~= a + (b + c));
    }
}

} // verus!
