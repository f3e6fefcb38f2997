//! The renderer: prepares a frame, then issues its draw commands on a render
//! pass.

use vstd::prelude::*;
use crate::clip::{clamped_scissor, command_scissor, framebuffer_rect, scissor, FrameSpace};
use crate::draw::{
    cmd_count, count_sum, index_total, lemma_count_sum_monotone, lemma_totals_monotone, lists_fit,
    vertex_total, DrawCmd, DrawData, DrawList,
};
use crate::error::{RendererError, RendererResult};
use crate::pass::{BindGroup, RenderCommand, RenderPass, TEXTURE_SLOT, UNIFORM_SLOT};
use crate::registry::{RegistryView, TextureRegistry};
use crate::render_data::{FrameUpload, RenderData, RenderDataView};
use crate::texture::{Texture, TextureId};

verus! {

/// How the GUI space of a frame lies on a framebuffer of the given size.
pub open spec fn frame_space(data: &DrawData, fb_size: (int, int)) -> FrameSpace {
    FrameSpace {
        fb_size,
        clip_off: (data.pos()[0] as int, data.pos()[1] as int),
        clip_scale: (data.scale()[0] as int, data.scale()[1] as int),
    }
}

/// The index position that the cursor of a draw list stands at after the
/// first `n` commands, whether they were drawn or not.
pub open spec fn cursor_after(cmds: Seq<DrawCmd>, index_base: int, n: int) -> int {
    index_base + count_sum(cmds, n)
}

/// The commands that one draw command issues on the render pass, with the
/// cursor at `start`: the scissor, the command's texture and the draw of its
/// indices; nothing where the command draws no elements or is not drawn.
pub open spec fn command_ops(cmd: DrawCmd, start: int, vertex_base: i32, space: FrameSpace) -> Seq<
    RenderCommand,
> {
    match cmd {
        DrawCmd::Elements { count, cmd_params } => match command_scissor(
            cmd_params.clip_rect,
            space,
        ) {
            Some(s) => seq![
                RenderCommand::SetScissorRect { x: s.x, y: s.y, width: s.width, height: s.height },
                RenderCommand::SetBindGroup {
                    index: 1,
                    group: BindGroup::Texture(cmd_params.texture_id),
                },
                RenderCommand::DrawIndexed {
                    start: start as u32,
                    end: (start + count) as u32,
                    base_vertex: vertex_base,
                },
            ],
            None => Seq::empty(),
        },
        _ => Seq::empty(),
    }
}

/// The commands that the first `n` commands of a draw list issue.
pub open spec fn list_ops(
    cmds: Seq<DrawCmd>,
    n: int,
    index_base: int,
    vertex_base: i32,
    space: FrameSpace,
) -> Seq<RenderCommand>
    decreases n,
{
    if n <= 0 {
        Seq::empty()
    } else {
        list_ops(cmds, n - 1, index_base, vertex_base, space) + command_ops(
            cmds[n - 1],
            cursor_after(cmds, index_base, n - 1),
            vertex_base,
            space,
        )
    }
}

/// Whether a command names a texture that is not registered.
pub open spec fn is_missing(cmd: DrawCmd, textures: RegistryView) -> bool {
    cmd matches DrawCmd::Elements { cmd_params, .. } && !textures.contains(cmd_params.texture_id)
}

/// The position of the first command at or after `from` that names a
/// texture that is not registered, or the number of commands if there is
/// none.
pub open spec fn first_missing(cmds: Seq<DrawCmd>, textures: RegistryView, from: int) -> int
    decreases cmds.len() - from,
{
    if from >= cmds.len() {
        cmds.len() as int
    } else if from >= 0 && is_missing(cmds[from], textures) {
        from
    } else {
        first_missing(cmds, textures, from + 1)
    }
}

/// The texture that a command names.
pub open spec fn texture_of(cmd: DrawCmd) -> TextureId {
    match cmd {
        DrawCmd::Elements { cmd_params, .. } => cmd_params.texture_id,
        _ => arbitrary(),
    }
}

/// How drawing a list of commands ends: well, or at the first command that
/// names a texture that is not registered.
pub open spec fn list_result(cmds: Seq<DrawCmd>, textures: RegistryView) -> RendererResult<()> {
    let stop = first_missing(cmds, textures, 0);
    if stop >= cmds.len() {
        Ok(())
    } else {
        Err(RendererError::BadTexture(texture_of(cmds[stop])))
    }
}

/// The commands that bind what the whole frame is drawn with.
pub open spec fn setup_ops() -> Seq<RenderCommand> {
    seq![
        RenderCommand::SetPipeline,
        RenderCommand::SetBindGroup { index: 0, group: BindGroup::Uniforms },
        RenderCommand::SetVertexBuffer { slot: 0 },
        RenderCommand::SetIndexBuffer,
    ]
}

/// The commands that the draw list at `k` issues: those of its commands
/// before the first that names a texture that is not registered.
pub open spec fn draw_list_ops(
    lists: Seq<DrawList>,
    k: int,
    textures: RegistryView,
    space: FrameSpace,
) -> Seq<RenderCommand> {
    list_ops(
        lists[k].cmds(),
        first_missing(lists[k].cmds(), textures, 0),
        index_total(lists, k) as int,
        vertex_total(lists, k) as i32,
        space,
    )
}

/// The commands that the first `n` draw lists issue.
pub open spec fn lists_ops(lists: Seq<DrawList>, n: int, textures: RegistryView, space: FrameSpace)
    -> Seq<RenderCommand>
    decreases n,
{
    if n <= 0 {
        Seq::empty()
    } else {
        lists_ops(lists, n - 1, textures, space) + draw_list_ops(lists, n - 1, textures, space)
    }
}

/// The position of the first draw list at or after `from` with a command
/// that names a texture that is not registered, or the number of lists if
/// there is none.
pub open spec fn first_failing(lists: Seq<DrawList>, textures: RegistryView, from: int) -> int
    decreases lists.len() - from,
{
    if from >= lists.len() {
        lists.len() as int
    } else if from >= 0 && list_result(lists[from].cmds(), textures) is Err {
        from
    } else {
        first_failing(lists, textures, from + 1)
    }
}

/// The commands that drawing a frame issues: the setup, then the commands of
/// the draw lists in order, up to the first command that names a texture that
/// is not registered.
pub open spec fn frame_ops(lists: Seq<DrawList>, textures: RegistryView, space: FrameSpace) -> Seq<
    RenderCommand,
> {
    let stop = first_failing(lists, textures, 0);
    let reached = if stop < lists.len() {
        stop + 1
    } else {
        stop
    };
    setup_ops() + lists_ops(lists, reached, textures, space)
}

/// How drawing a frame ends: well, or with the first command that names a
/// texture that is not registered.
pub open spec fn frame_result(lists: Seq<DrawList>, textures: RegistryView) -> RendererResult<()> {
    let stop = first_failing(lists, textures, 0);
    if stop >= lists.len() {
        Ok(())
    } else {
        list_result(lists[stop].cmds(), textures)
    }
}

/// Where the search for a command without its texture ends: no command
/// before that position is without its texture, and the command at the
/// position is, if there is one.
pub proof fn lemma_first_missing(cmds: Seq<DrawCmd>, textures: RegistryView, from: int)
    requires
        0 <= from <= cmds.len(),
    ensures
        from <= first_missing(cmds, textures, from) <= cmds.len(),
        forall|i: int|
            from <= i < first_missing(cmds, textures, from) ==> !is_missing(
                #[trigger] cmds[i],
                textures,
            ),
        first_missing(cmds, textures, from) < cmds.len() ==> is_missing(
            cmds[first_missing(cmds, textures, from)],
            textures,
        ),
    decreases cmds.len() - from,
{
    if from < cmds.len() && !is_missing(cmds[from], textures) {
        lemma_first_missing(cmds, textures, from + 1);
    }
}

/// A list of commands is drawn to its end if and only if every texture that
/// a command names is registered.
pub proof fn lemma_list_result(cmds: Seq<DrawCmd>, textures: RegistryView)
    ensures
        list_result(cmds, textures) is Ok <==> forall|i: int|
            0 <= i < cmds.len() ==> !is_missing(#[trigger] cmds[i], textures),
{
    lemma_first_missing(cmds, textures, 0);
}

/// Where the search for a draw list that fails ends: no list before that
/// position fails, and the list at the position does, if there is one.
pub proof fn lemma_first_failing(lists: Seq<DrawList>, textures: RegistryView, from: int)
    requires
        0 <= from <= lists.len(),
    ensures
        from <= first_failing(lists, textures, from) <= lists.len(),
        forall|k: int|
            from <= k < first_failing(lists, textures, from) ==> list_result(
                (#[trigger] lists[k]).cmds(),
                textures,
            ) is Ok,
        first_failing(lists, textures, from) < lists.len() ==> list_result(
            lists[first_failing(lists, textures, from)].cmds(),
            textures,
        ) is Err,
    decreases lists.len() - from,
{
    if from < lists.len() && list_result(lists[from].cmds(), textures) is Ok {
        lemma_first_failing(lists, textures, from + 1);
    }
}

/// A frame is drawn to its end if and only if every texture that a command
/// of the frame names is registered.
pub proof fn lemma_frame_result(lists: Seq<DrawList>, textures: RegistryView)
    ensures
        frame_result(lists, textures) is Ok <==> forall|k: int, i: int|
            0 <= k < lists.len() && 0 <= i < lists[k].cmds().len() ==> !is_missing(
                #[trigger] lists[k].cmds()[i],
                textures,
            ),
{
    lemma_first_failing(lists, textures, 0);
    let stop = first_failing(lists, textures, 0);
    if stop < lists.len() {
        lemma_list_result(lists[stop].cmds(), textures);
    } else {
        assert forall|k: int, i: int|
            0 <= k < lists.len() && 0 <= i < lists[k].cmds().len() implies !is_missing(
            #[trigger] lists[k].cmds()[i],
            textures,
        ) by {
            assert(list_result(lists[k].cmds(), textures) is Ok);
            lemma_list_result(lists[k].cmds(), textures);
        }
    }
}

/// A command that draws elements is drawn if and only if its clip rectangle
/// reaches into the framebuffer on every side and the clamped rectangle is
/// some pixels wide and high. A command that is drawn issues its scissor,
/// its texture and one draw of its indices from the cursor on; any other
/// command issues nothing.
pub proof fn lemma_drawn_iff_overlapping(
    cmd: DrawCmd,
    start: int,
    vertex_base: i32,
    space: FrameSpace,
)
    ensures
        ({
            let ops = command_ops(cmd, start, vertex_base, space);
            match cmd {
                DrawCmd::Elements { count, cmd_params } => {
                    let rect = framebuffer_rect(cmd_params.clip_rect, space);
                    let s = clamped_scissor(rect, space.fb_size);
                    if rect.left < space.fb_size.0 && rect.top < space.fb_size.1 && rect.right > 0
                        && rect.bottom > 0 && s.width > 0 && s.height > 0 {
                        &&& ops.len() == 3
                        &&& ops[0] == (RenderCommand::SetScissorRect {
                            x: s.x,
                            y: s.y,
                            width: s.width,
                            height: s.height,
                        })
                        &&& ops[1] == (RenderCommand::SetBindGroup {
                            index: 1,
                            group: BindGroup::Texture(cmd_params.texture_id),
                        })
                        &&& ops[2] == (RenderCommand::DrawIndexed {
                            start: start as u32,
                            end: (start + count) as u32,
                            base_vertex: vertex_base,
                        })
                    } else {
                        ops.len() == 0
                    }
                },
                _ => ops.len() == 0,
            }
        }),
{
}

/// The command at `k` is issued with the cursor moved on by the counts of
/// all commands before it, those that were not drawn too, and after the
/// commands of all of them.
pub proof fn lemma_list_ops_step(
    cmds: Seq<DrawCmd>,
    k: int,
    index_base: int,
    vertex_base: i32,
    space: FrameSpace,
)
    requires
        0 <= k < cmds.len(),
    ensures
        list_ops(cmds, k + 1, index_base, vertex_base, space) == list_ops(
            cmds,
            k,
            index_base,
            vertex_base,
            space,
        ) + command_ops(cmds[k], index_base + count_sum(cmds, k), vertex_base, space),
        cursor_after(cmds, index_base, k + 1) == cursor_after(cmds, index_base, k) + cmd_count(
            cmds[k],
        ),
{
}

/// What the first `n` commands issue does not depend on the commands after
/// them: it is what the list issues that ends there.
pub proof fn lemma_list_ops_of_prefix(
    cmds: Seq<DrawCmd>,
    n: int,
    index_base: int,
    vertex_base: i32,
    space: FrameSpace,
)
    requires
        0 <= n <= cmds.len(),
    ensures
        list_ops(cmds, n, index_base, vertex_base, space) == list_ops(
            cmds.take(n),
            n,
            index_base,
            vertex_base,
            space,
        ),
{
    lemma_list_ops_agree(cmds, cmds.take(n), n, index_base, vertex_base, space);
}

proof fn lemma_count_sum_agree(a: Seq<DrawCmd>, b: Seq<DrawCmd>, n: int)
    requires
        0 <= n <= a.len(),
        n <= b.len(),
        forall|i: int| 0 <= i < n ==> a[i] == b[i],
    ensures
        count_sum(a, n) == count_sum(b, n),
    decreases n,
{
    if n > 0 {
        lemma_count_sum_agree(a, b, n - 1);
    }
}

proof fn lemma_list_ops_agree(
    a: Seq<DrawCmd>,
    b: Seq<DrawCmd>,
    n: int,
    index_base: int,
    vertex_base: i32,
    space: FrameSpace,
)
    requires
        0 <= n <= a.len(),
        n <= b.len(),
        forall|i: int| 0 <= i < n ==> a[i] == b[i],
    ensures
        list_ops(a, n, index_base, vertex_base, space) == list_ops(
            b,
            n,
            index_base,
            vertex_base,
            space,
        ),
    decreases n,
{
    if n > 0 {
        lemma_list_ops_agree(a, b, n - 1, index_base, vertex_base, space);
        lemma_count_sum_agree(a, b, n - 1);
    }
}

/// Drawing a list ends at the first command without its texture, with that
/// texture as the error, whatever the clip rectangle of the command.
pub proof fn lemma_list_stops_at(cmds: Seq<DrawCmd>, textures: RegistryView, k: int)
    requires
        0 <= k < cmds.len(),
        is_missing(cmds[k], textures),
        forall|i: int| 0 <= i < k ==> !is_missing(#[trigger] cmds[i], textures),
    ensures
        first_missing(cmds, textures, 0) == k,
        list_result(cmds, textures) == Err::<(), RendererError>(
            RendererError::BadTexture(texture_of(cmds[k])),
        ),
{
    lemma_first_missing(cmds, textures, 0);
}

/// A command that names a handle that was taken out of the registry is
/// without its texture.
pub proof fn lemma_removed_texture_is_missing(registry: RegistryView, id: TextureId, cmd: DrawCmd)
    requires
        cmd is Elements,
        texture_of(cmd) == id,
    ensures
        is_missing(cmd, registry.remove(id)),
{
}

/// A command that names a handle whose texture was swapped finds the new
/// texture behind the same handle.
pub proof fn lemma_replaced_texture_is_found(
    registry: RegistryView,
    id: TextureId,
    texture: Texture,
    cmd: DrawCmd,
)
    requires
        registry.contains(id),
        cmd is Elements,
        texture_of(cmd) == id,
    ensures
        !is_missing(cmd, registry.replace(id, texture)),
        registry.replace(id, texture).get(id) == Some(texture),
{
}

/// Whether a render pass went from `before` to `after`, and ended with `r`,
/// by drawing a frame from the given state.
pub open spec fn frame_drawn(
    draw_data: &DrawData,
    render_data: RenderDataView,
    textures: RegistryView,
    before: Seq<RenderCommand>,
    after: Seq<RenderCommand>,
    r: RendererResult<()>,
) -> bool {
    if render_data.render {
        &&& after =~= before + frame_ops(
            draw_data.lists(),
            textures,
            frame_space(draw_data, render_data.fb_size),
        )
        &&& r == frame_result(draw_data.lists(), textures)
    } else {
        r is Ok && after =~= before
    }
}

/// The cursor of a draw list ends where the indices of the list end, however
/// many of its commands were drawn.
pub proof fn lemma_cursor_conservation(list: DrawList, index_base: int)
    requires
        list.wf(),
    ensures
        count_sum(list.cmds(), list.cmds().len() as int) == list.indices().len(),
        cursor_after(list.cmds(), index_base, list.cmds().len() as int) == index_base
            + list.indices().len(),
{
}

/// The cursor never runs back, and never past the end of the list's indices.
pub proof fn lemma_cursor_within_list(list: DrawList, index_base: int, n: int)
    requires
        list.wf(),
        0 <= n <= list.cmds().len(),
    ensures
        index_base <= cursor_after(list.cmds(), index_base, n) <= index_base
            + list.indices().len(),
{
    lemma_count_sum_monotone(list.cmds(), 0, n);
    lemma_count_sum_monotone(list.cmds(), n, list.cmds().len() as int);
}

/// The renderer.
pub struct Renderer {
    /// Textures of the font atlas and all images.
    pub textures: TextureRegistry,
    /// The state that the last frame left, for `render`.
    pub render_data: Option<RenderData>,
}

impl Renderer {
    /// Makes a renderer and registers the texture of the font atlas, as
    /// `reload_font_texture` does; `font_tex_id` is the handle that the font
    /// atlas held so far. Returns the renderer and the handle of the texture.
    pub fn new(font_tex_id: TextureId, font_texture: Texture) -> (r: (Renderer, TextureId))
        ensures
            r.0.textures.wf(),
            r.0.textures@ == RegistryView::empty().insert(font_texture),
            r.0.render_data is None,
            r.1.value() == 0,
    {
        let mut renderer = Renderer { textures: TextureRegistry::new(), render_data: None };
        let id = renderer.reload_font_texture(font_tex_id, font_texture);
        proof {
            let empty = RegistryView::empty();
            assert(empty.remove(font_tex_id).entries =~= empty.entries);
        }
        (renderer, id)
    }

    /// Prepares the buffers for a frame. To be called before `split_render`,
    /// which takes the state that this returns.
    pub fn prepare(&self, draw_data: &DrawData, render_data: Option<RenderData>) -> (r: (
        RenderData,
        Option<FrameUpload>,
    ))
        ensures
            RenderData::prepared(draw_data, render_data, r),
    {
        RenderData::prepare(draw_data, render_data)
    }

    /// Prepares a frame from the state that the last frame left, keeps the
    /// new state, and issues the frame's commands on the render pass.
    /// Returns what is to be uploaded before the pass is run, and how issuing
    /// the commands ended.
    pub fn render(&mut self, draw_data: &DrawData, rpass: &mut RenderPass) -> (r: (
        Option<FrameUpload>,
        RendererResult<()>,
    ))
        ensures
            final(self).textures == old(self).textures,
            final(self).render_data is Some,
            RenderData::prepared(
                draw_data,
                old(self).render_data,
                (final(self).render_data.unwrap(), r.0),
            ),
            frame_drawn(
                draw_data,
                final(self).render_data.unwrap()@,
                old(self).textures@,
                old(rpass)@,
                final(rpass)@,
                r.1,
            ),
    {
        let render_data = self.render_data.take();
        let (render_data, upload) = self.prepare(draw_data, render_data);
        let result = self.split_render(draw_data, &render_data, rpass);
        self.render_data = Some(render_data);
        (upload, result)
    }

    /// Puts a new texture of the font atlas in the place of the one
    /// registered before: the handle `font_tex_id` is taken out of the
    /// registry, if it is live, and the new texture is registered. Returns
    /// the new handle, which the font atlas is to be told.
    pub fn reload_font_texture(&mut self, font_tex_id: TextureId, font_texture: Texture) -> (id:
        TextureId)
        requires
            old(self).textures.wf(),
            old(self).textures@.next < usize::MAX,
        ensures
            final(self).textures.wf(),
            final(self).textures@ == old(self).textures@.remove(font_tex_id).insert(font_texture),
            final(self).render_data == old(self).render_data,
            id.value() == old(self).textures@.next,
            !old(self).textures@.contains(id),
            final(self).textures@.get(id) == Some(font_texture),
            old(self).textures@.contains(font_tex_id) ==> !final(self).textures@.contains(
                font_tex_id,
            ),
    {
        proof {
            self.textures.lemma_wf_view();
        }
        // Remove possible font atlas texture.
        self.textures.remove(font_tex_id);
        let id = self.textures.insert(font_texture);
        proof {
            TextureId::lemma_value_decides(id, font_tex_id);
        }
        id
    }

    /// Issues the commands of one draw list on the render pass; `bases` are
    /// the list's base vertex and its first index position, which must leave
    /// the list's indices room below the end of a `u32`.
    ///
    /// The commands are taken in order, with a cursor into the index buffer
    /// that starts at the list's first index position and moves on by each
    /// command's count, drawn or not. A command is drawn where its clip
    /// rectangle reaches into the framebuffer and leaves a scissor with some
    /// area. Drawing stops with an error at the first command whose texture
    /// is not registered, whether that command would be drawn or not.
    pub fn render_draw_list(
        &self,
        rpass: &mut RenderPass,
        draw_list: &DrawList,
        fb_size: [i128; 2],
        clip_off: [i64; 2],
        clip_scale: [i32; 2],
        bases: (i32, u32),
    ) -> (r: RendererResult<()>)
        requires
            bases.1 + draw_list.indices().len() <= u32::MAX,
        ensures
            ({
                let space = FrameSpace {
                    fb_size: (fb_size[0] as int, fb_size[1] as int),
                    clip_off: (clip_off[0] as int, clip_off[1] as int),
                    clip_scale: (clip_scale[0] as int, clip_scale[1] as int),
                };
                let cmds = draw_list.cmds();
                &&& final(rpass)@ == old(rpass)@ + list_ops(
                    cmds,
                    first_missing(cmds, self.textures@, 0),
                    bases.1 as int,
                    bases.0,
                    space,
                )
                &&& r == list_result(cmds, self.textures@)
            }),
    {
        proof {
            use_type_invariant(draw_list);
        }
        let (vertex_base, index_base) = bases;
        let ghost space = FrameSpace {
            fb_size: (fb_size[0] as int, fb_size[1] as int),
            clip_off: (clip_off[0] as int, clip_off[1] as int),
            clip_scale: (clip_scale[0] as int, clip_scale[1] as int),
        };
        let cmds = draw_list.commands();
        let mut start: u32 = index_base;
        let mut i: usize = 0;
        while i < cmds.len()
            invariant
                i <= cmds@.len(),
                cmds@ == draw_list.cmds(),
                bases == (vertex_base, index_base),
                draw_list.wf(),
                index_base + draw_list.indices().len() <= u32::MAX,
                start == cursor_after(cmds@, index_base as int, i as int),
                first_missing(cmds@, self.textures@, 0) == first_missing(
                    cmds@,
                    self.textures@,
                    i as int,
                ),
                rpass@ == old(rpass)@ + list_ops(
                    cmds@,
                    i as int,
                    index_base as int,
                    vertex_base,
                    space,
                ),
                space == (FrameSpace {
                    fb_size: (fb_size[0] as int, fb_size[1] as int),
                    clip_off: (clip_off[0] as int, clip_off[1] as int),
                    clip_scale: (clip_scale[0] as int, clip_scale[1] as int),
                }),
            decreases cmds@.len() - i,
        {
            let ghost issued = rpass@;
            proof {
                lemma_count_sum_monotone(cmds@, i as int + 1, cmds@.len() as int);
            }
            match cmds[i] {
                DrawCmd::Elements { count, cmd_params } => {
                    let texture_id = cmd_params.texture_id;
                    if self.textures.get(texture_id).is_none() {
                        return Err(RendererError::BadTexture(texture_id));
                    }
                    let end: u32 = start + count as u32;
                    match scissor(cmd_params.clip_rect, clip_off, clip_scale, fb_size) {
                        Some(s) => {
                            rpass.set_scissor_rect(s.x, s.y, s.width, s.height);
                            rpass.set_bind_group(TEXTURE_SLOT, BindGroup::Texture(texture_id));
                            rpass.draw_indexed(start, end, vertex_base);
                        },
                        None => {},
                    }
                    start = end;
                },
                _ => {},
            }
            proof {
                assert(rpass@ =~= issued + command_ops(
                    cmds@[i as int],
                    cursor_after(cmds@, index_base as int, i as int),
                    vertex_base,
                    space,
                ));
            }
            i = i + 1;
        }
        Ok(())
    }

    /// Issues the commands of a prepared frame on an open render pass.
    ///
    /// A frame that was found to have nothing to render issues nothing.
    /// Otherwise the pipeline, the projection and the two buffers are bound
    /// once, and the draw lists are drawn in order, each from its offsets.
    /// The first command whose texture is not registered ends the frame with
    /// an error; what was issued before it stays issued.
    pub fn split_render(&self, draw_data: &DrawData, render_data: &RenderData, rpass: &mut RenderPass)
        -> (r: RendererResult<()>)
        requires
            render_data@.render ==> render_data@.prepared_for(draw_data),
        ensures
            frame_drawn(draw_data, render_data@, self.textures@, old(rpass)@, final(rpass)@, r),
    {
        if !render_data.render() {
            return Ok(());
        }
        proof {
            use_type_invariant(draw_data);
        }
        rpass.set_pipeline();
        rpass.set_bind_group(UNIFORM_SLOT, BindGroup::Uniforms);
        rpass.set_vertex_buffer(0);
        rpass.set_index_buffer();
        assert(rpass@ =~= old(rpass)@ + setup_ops());

        let fb_size = render_data.fb_size();
        let clip_off = draw_data.display_pos();
        let clip_scale = draw_data.framebuffer_scale();
        let ghost space = frame_space(draw_data, render_data@.fb_size);
        let lists = draw_data.draw_lists();
        let n = lists.len();
        let mut k: usize = 0;
        while k < n
            invariant
                k <= n,
                n == lists@.len(),
                lists@ == draw_data.lists(),
                lists_fit(lists@),
                render_data@.render,
                render_data@.prepared_for(draw_data),
                space == frame_space(draw_data, render_data@.fb_size),
                space == (FrameSpace {
                    fb_size: (fb_size[0] as int, fb_size[1] as int),
                    clip_off: (clip_off[0] as int, clip_off[1] as int),
                    clip_scale: (clip_scale[0] as int, clip_scale[1] as int),
                }),
                first_failing(lists@, self.textures@, 0) == first_failing(
                    lists@,
                    self.textures@,
                    k as int,
                ),
                rpass@ == old(rpass)@ + setup_ops() + lists_ops(
                    lists@,
                    k as int,
                    self.textures@,
                    space,
                ),
            decreases n - k,
        {
            let bases = render_data.offset_at(k);
            proof {
                lemma_totals_monotone(lists@, k as int, n as int);
                lemma_totals_monotone(lists@, k as int + 1, n as int);
            }
            let drawn = self.render_draw_list(
                rpass,
                &lists[k],
                fb_size,
                clip_off,
                clip_scale,
                bases,
            );
            proof {
                assert(rpass@ =~= old(rpass)@ + setup_ops() + lists_ops(
                    lists@,
                    k as int + 1,
                    self.textures@,
                    space,
                ));
            }
            match drawn {
                Ok(()) => {},
                Err(e) => {
                    return Err(e);
                },
            }
            k = k + 1;
        }
        Ok(())
    }
}

} // verus!
