//! What the renderer carries from preparing a frame to drawing it, and from
//! one frame to the next.

use vstd::prelude::*;
use crate::buffer::{copy_buffer_alignment, padded_len, BufferAction, BufferSlot};
use crate::clip::framebuffer_extent;
use crate::draw::{
    index_total, lemma_totals_monotone, lists_fit, vertex_total, DrawData, DrawIdx, DrawList,
    VERTEX_SIZE,
};
use crate::offsets::OffsetTable;
use crate::payload::{
    all_indices, all_vertices, cast_indices, cast_vertices, is_native_bytes, lemma_all_lengths,
    lemma_vertex_bytes_concat, vertex_bytes,
};

verus! {

/// The state of the renderer after a frame was prepared.
pub struct RenderData {
    fb_size: [i128; 2],
    last_size: [i64; 2],
    last_pos: [i64; 2],
    vertex_buffer: BufferSlot,
    index_buffer: BufferSlot,
    draw_list_offsets: OffsetTable,
    render: bool,
}

/// What a `RenderData` holds.
pub struct RenderDataView {
    /// Width and height of the framebuffer that scissors are clamped to, in
    /// fine steps.
    pub fb_size: (int, int),
    /// The display size for which the projection was last set.
    pub last_size: (int, int),
    /// The display position for which the projection was last set.
    pub last_pos: (int, int),
    pub vertex_buffer: BufferSlot,
    pub index_buffer: BufferSlot,
    /// Base vertex and first index position of each draw list.
    pub offsets: Seq<(i32, u32)>,
    /// Whether there is anything to draw.
    pub render: bool,
}

/// The offsets of the draw lists of a frame: for each list, the number of
/// vertices and the number of indices in the lists before it.
pub open spec fn offset_table(lists: Seq<DrawList>) -> Seq<(i32, u32)> {
    Seq::new(
        lists.len(),
        |k: int| (vertex_total(lists, k) as i32, index_total(lists, k) as u32),
    )
}

/// Whether `bytes` is the index payload for `indices`: the indices in the
/// machine's byte order, then as many zero bytes as bring the length to a
/// multiple of the copy alignment, none where it is one already.
pub open spec fn is_index_payload(bytes: Seq<u8>, indices: Seq<DrawIdx>) -> bool {
    &&& bytes.len() == padded_len(2 * indices.len())
    &&& is_native_bytes(bytes.subrange(0, 2 * indices.len() as int), indices)
    &&& forall|i: int| 2 * indices.len() <= i < bytes.len() ==> bytes[i] == 0
}

/// The offsets of a frame that fits are the running totals themselves: no
/// total is cut short by the width of an offset.
pub proof fn lemma_offsets_are_running_totals(lists: Seq<DrawList>, k: int)
    requires
        lists_fit(lists),
        0 <= k < lists.len(),
    ensures
        offset_table(lists).len() == lists.len(),
        offset_table(lists)[k].0 == vertex_total(lists, k),
        offset_table(lists)[k].1 == index_total(lists, k),
        k + 1 < lists.len() ==> offset_table(lists)[k + 1].0 == offset_table(lists)[k].0
            + lists[k].vertices().len(),
        k + 1 < lists.len() ==> offset_table(lists)[k + 1].1 == offset_table(lists)[k].1
            + lists[k].indices().len(),
{
    lemma_totals_monotone(lists, k, lists.len() as int);
    lemma_totals_monotone(lists, k + 1, lists.len() as int);
}

/// Every draw list of a frame that fits lies within the payloads: its
/// vertices and its indices end at or before the end of all of them.
pub proof fn lemma_offsets_within_payload(lists: Seq<DrawList>, k: int)
    requires
        lists_fit(lists),
        0 <= k < lists.len(),
    ensures
        offset_table(lists)[k].0 + lists[k].vertices().len() <= vertex_total(
            lists,
            lists.len() as int,
        ),
        offset_table(lists)[k].1 + lists[k].indices().len() <= index_total(
            lists,
            lists.len() as int,
        ),
        vertex_bytes(all_vertices(lists, lists.len() as int)).len() == VERTEX_SIZE * vertex_total(
            lists,
            lists.len() as int,
        ),
        all_indices(lists, lists.len() as int).len() == index_total(lists, lists.len() as int),
{
    lemma_totals_monotone(lists, k, lists.len() as int);
    lemma_totals_monotone(lists, k + 1, lists.len() as int);
    lemma_all_lengths(lists, lists.len() as int);
}

/// The size of the framebuffer for a frame, in fine steps: the display size
/// times the framebuffer scale.
pub open spec fn framebuffer_size(data: &DrawData) -> (int, int) {
    (data.size()[0] * data.scale()[0], data.size()[1] * data.scale()[1])
}

/// Whether a frame has no area to draw into.
pub open spec fn nothing_to_render(data: &DrawData) -> bool {
    framebuffer_size(data).0 <= 0 || framebuffer_size(data).1 <= 0
}

impl RenderDataView {
    /// The state before the first frame, for a framebuffer of the given size.
    pub open spec fn fresh(fb_size: (int, int)) -> RenderDataView {
        RenderDataView {
            fb_size,
            last_size: (0, 0),
            last_pos: (0, 0),
            vertex_buffer: BufferSlot { allocated: false, size: 0 },
            index_buffer: BufferSlot { allocated: false, size: 0 },
            offsets: Seq::empty(),
            render: false,
        }
    }

    /// Whether the display of the frame differs from the one that the
    /// projection was last set for.
    pub open spec fn display_changed(self, data: &DrawData) -> bool {
        self.last_size != (data.size()[0] as int, data.size()[1] as int) || self.last_pos != (
            data.pos()[0] as int,
            data.pos()[1] as int,
        )
    }

    /// Whether this state was prepared for the given frame: it has the
    /// frame's offsets.
    pub open spec fn prepared_for(self, data: &DrawData) -> bool {
        self.offsets == offset_table(data.lists())
    }
}

impl View for RenderData {
    type V = RenderDataView;

    closed spec fn view(&self) -> RenderDataView {
        RenderDataView {
            fb_size: (self.fb_size[0] as int, self.fb_size[1] as int),
            last_size: (self.last_size[0] as int, self.last_size[1] as int),
            last_pos: (self.last_pos[0] as int, self.last_pos[1] as int),
            vertex_buffer: self.vertex_buffer,
            index_buffer: self.index_buffer,
            offsets: self.draw_list_offsets@,
            render: self.render,
        }
    }
}

/// What is to be sent to the graphics device before the frame is drawn.
#[derive(Debug)]
pub struct FrameUpload {
    /// Whether the projection is to be set again for the frame's display.
    pub update_projection: bool,
    /// The payload of the vertex buffer.
    pub vertices: Vec<u8>,
    pub vertex_action: BufferAction,
    /// The payload of the index buffer.
    pub indices: Vec<u8>,
    pub index_action: BufferAction,
}

impl RenderData {
    /// The state before the first frame.
    pub(crate) fn fresh(fb_size: [i128; 2]) -> (r: RenderData)
        ensures
            r@ == RenderDataView::fresh((fb_size[0] as int, fb_size[1] as int)),
    {
        RenderData {
            fb_size,
            last_size: [0, 0],
            last_pos: [0, 0],
            vertex_buffer: BufferSlot::empty(),
            index_buffer: BufferSlot::empty(),
            draw_list_offsets: OffsetTable::new(),
            render: false,
        }
    }

    /// Whether `r` is what preparing a frame gives, from the state that the
    /// frame before left: the new state, and what is to be uploaded.
    pub open spec fn prepared(
        draw_data: &DrawData,
        render_data: Option<RenderData>,
        r: (RenderData, Option<FrameUpload>),
    ) -> bool {
        let before = match render_data {
            Some(given) => given@,
            None => RenderDataView::fresh(framebuffer_size(draw_data)),
        };
        let after = r.0@;
        let lists = draw_data.lists();
        let indices = all_indices(lists, lists.len() as int);
        let vertices = all_vertices(lists, lists.len() as int);
        if nothing_to_render(draw_data) {
            &&& r.1 is None
            &&& after == (RenderDataView { render: false, ..before })
        } else {
            &&& r.1 matches Some(upload)
            &&& upload.update_projection == before.display_changed(draw_data)
            &&& upload.vertices@ == vertex_bytes(vertices)
            &&& is_index_payload(upload.indices@, indices)
            &&& upload.vertex_action == before.vertex_buffer.action_for(upload.vertices.len())
            &&& upload.index_action == before.index_buffer.action_for(upload.indices.len())
            &&& after == (RenderDataView {
                fb_size: framebuffer_size(draw_data),
                last_size: (draw_data.size()[0] as int, draw_data.size()[1] as int),
                last_pos: (draw_data.pos()[0] as int, draw_data.pos()[1] as int),
                vertex_buffer: before.vertex_buffer.after(upload.vertices.len()),
                index_buffer: before.index_buffer.after(upload.indices.len()),
                offsets: offset_table(lists),
                render: true,
            })
        }
    }

    /// Prepares a frame: works out the state for drawing it, starting from
    /// the state that the frame before left, and what is to be uploaded
    /// before it is drawn.
    ///
    /// A frame without area is not drawn and uploads nothing; the state stays
    /// as it was. Otherwise the framebuffer size is the frame's, the
    /// projection is set again where the display has moved or changed its
    /// size, the offsets of the draw lists are the running totals of their
    /// vertices and indices, the payloads are the vertices and the indices of
    /// all lists in order, and each buffer is written into where it is large
    /// enough and made anew with the payload's length where it is not.
    pub fn prepare(draw_data: &DrawData, render_data: Option<RenderData>) -> (r: (
        RenderData,
        Option<FrameUpload>,
    ))
        ensures
            RenderData::prepared(draw_data, render_data, r),
    {
        let display_size = draw_data.display_size();
        let display_pos = draw_data.display_pos();
        let scale = draw_data.framebuffer_scale();
        let fb_width = framebuffer_extent(display_size[0], scale[0]);
        let fb_height = framebuffer_extent(display_size[1], scale[1]);

        let given = match render_data {
            Some(given) => given,
            None => RenderData::fresh([fb_width, fb_height]),
        };
        let RenderData {
            mut fb_size,
            mut last_size,
            mut last_pos,
            mut vertex_buffer,
            mut index_buffer,
            mut draw_list_offsets,
            render: _,
        } = given;

        // A frame without area is left alone.
        if fb_width <= 0 || fb_height <= 0 {
            let left = RenderData {
                fb_size,
                last_size,
                last_pos,
                vertex_buffer,
                index_buffer,
                draw_list_offsets,
                render: false,
            };
            return (left, None);
        }
        fb_size = [fb_width, fb_height];

        // The projection follows the display.
        let update_projection = last_size[0] != display_size[0] || last_size[1] != display_size[1]
            || last_pos[0] != display_pos[0] || last_pos[1] != display_pos[1];
        if update_projection {
            last_size = display_size;
            last_pos = display_pos;
        }

        let lists = draw_data.draw_lists();
        let n = lists.len();
        proof {
            use_type_invariant(draw_data);
        }

        draw_list_offsets.clear();
        let mut vertex_count: usize = 0;
        let mut index_count: usize = 0;
        let mut k: usize = 0;
        while k < n
            invariant
                k <= n,
                n == lists@.len(),
                lists_fit(lists@),
                vertex_count == vertex_total(lists@, k as int),
                index_count == index_total(lists@, k as int),
                draw_list_offsets@.len() == k,
                forall|j: int| 0 <= j < k ==> draw_list_offsets@[j] == offset_table(lists@)[j],
            decreases n - k,
        {
            proof {
                lemma_totals_monotone(lists@, k as int, n as int);
                lemma_totals_monotone(lists@, k as int + 1, n as int);
            }
            draw_list_offsets.push((vertex_count as i32, index_count as u32));
            vertex_count = vertex_count + lists[k].vtx_buffer().len();
            index_count = index_count + lists[k].idx_buffer().len();
            k = k + 1;
        }
        assert(draw_list_offsets@ =~= offset_table(lists@));

        let mut vertices: Vec<u8> = Vec::new();
        let mut gathered: Vec<DrawIdx> = Vec::new();
        let mut k: usize = 0;
        while k < n
            invariant
                k <= n,
                n == lists@.len(),
                vertices@ == vertex_bytes(all_vertices(lists@, k as int)),
                gathered@ == all_indices(lists@, k as int),
            decreases n - k,
        {
            let list = &lists[k];
            let ghost had_vertices = vertices@;
            let ghost had_indices = gathered@;
            vertices.extend_from_slice(cast_vertices(list.vtx_buffer().as_slice()));
            gathered.extend_from_slice(list.idx_buffer().as_slice());
            proof {
                lemma_vertex_bytes_concat(all_vertices(lists@, k as int), list.vertices());
                assert(vertices@ =~= had_vertices + vertex_bytes(list.vertices()));
                assert(gathered@ =~= had_indices + list.indices());
            }
            k = k + 1;
        }
        proof {
            lemma_all_lengths(lists@, n as int);
        }

        // Copies to a buffer are padded to the copy alignment.
        let mut indices: Vec<u8> = Vec::new();
        let cast = cast_indices(gathered.as_slice());
        indices.extend_from_slice(cast);
        let ghost unpadded = indices@;
        assert(unpadded =~= cast@);
        let alignment = copy_buffer_alignment() as usize;
        let over = indices.len() % alignment;
        if over != 0 {
            let padded = indices.len() + alignment - over;
            indices.resize(padded, 0);
        }
        assert(indices@.subrange(0, 2 * gathered@.len() as int) == unpadded);

        let index_action = index_buffer.ensure_capacity(indices.len());
        let vertex_action = vertex_buffer.ensure_capacity(vertices.len());

        let prepared = RenderData {
            fb_size,
            last_size,
            last_pos,
            vertex_buffer,
            index_buffer,
            draw_list_offsets,
            render: true,
        };
        (
            prepared,
            Some(FrameUpload { update_projection, vertices, vertex_action, indices, index_action }),
        )
    }

    /// Whether there is anything to draw.
    pub fn render(&self) -> (r: bool)
        ensures
            r == self@.render,
    {
        self.render
    }

    /// Width and height of the framebuffer that scissors are clamped to.
    pub fn fb_size(&self) -> (r: [i128; 2])
        ensures
            r[0] == self@.fb_size.0,
            r[1] == self@.fb_size.1,
    {
        self.fb_size
    }

    /// The display size for which the projection was last set.
    pub fn last_size(&self) -> (r: [i64; 2])
        ensures
            r[0] == self@.last_size.0,
            r[1] == self@.last_size.1,
    {
        self.last_size
    }

    /// The display position for which the projection was last set.
    pub fn last_pos(&self) -> (r: [i64; 2])
        ensures
            r[0] == self@.last_pos.0,
            r[1] == self@.last_pos.1,
    {
        self.last_pos
    }

    /// The vertex buffer that is kept for the next frame.
    pub fn vertex_buffer(&self) -> (r: BufferSlot)
        ensures
            r == self@.vertex_buffer,
    {
        self.vertex_buffer
    }

    /// The index buffer that is kept for the next frame.
    pub fn index_buffer(&self) -> (r: BufferSlot)
        ensures
            r == self@.index_buffer,
    {
        self.index_buffer
    }

    /// Whether this state holds the offsets of the given frame, as it does
    /// after it was prepared for that frame.
    pub fn is_prepared_for(&self, draw_data: &DrawData) -> (r: bool)
        ensures
            r == self@.prepared_for(draw_data),
    {
        proof {
            use_type_invariant(draw_data);
        }
        let lists = draw_data.draw_lists();
        let n = lists.len();
        if self.draw_list_offsets.len() != n {
            return false;
        }
        let mut vertex_count: usize = 0;
        let mut index_count: usize = 0;
        let mut k: usize = 0;
        while k < n
            invariant
                k <= n,
                n == lists@.len(),
                lists@ == draw_data.lists(),
                lists_fit(lists@),
                self@.offsets.len() == n,
                vertex_count == vertex_total(lists@, k as int),
                index_count == index_total(lists@, k as int),
                forall|j: int| 0 <= j < k ==> self@.offsets[j] == offset_table(lists@)[j],
            decreases n - k,
        {
            proof {
                lemma_totals_monotone(lists@, k as int, n as int);
                lemma_totals_monotone(lists@, k as int + 1, n as int);
            }
            let (vertex_base, index_base) = self.draw_list_offsets.get(k);
            if vertex_base != vertex_count as i32 || index_base != index_count as u32 {
                assert(self@.offsets[k as int] != offset_table(lists@)[k as int]);
                return false;
            }
            vertex_count = vertex_count + lists[k].vtx_buffer().len();
            index_count = index_count + lists[k].idx_buffer().len();
            k = k + 1;
        }
        assert(self@.offsets =~= offset_table(lists@));
        true
    }

    /// The number of draw lists that offsets are held for.
    pub fn offsets_len(&self) -> (r: usize)
        ensures
            r == self@.offsets.len(),
    {
        self.draw_list_offsets.len()
    }

    /// Base vertex and first index position of the draw list at `k`, one
    /// of those that offsets are held for.
    pub(crate) fn offset_at(&self, k: usize) -> (r: (i32, u32))
        requires
            k < self@.offsets.len(),
        ensures
            r == self@.offsets[k as int],
    {
        self.draw_list_offsets.get(k)
    }

    /// Base vertex and first index position of the draw list at `k`.
    pub fn offset(&self, k: usize) -> (r: Option<(i32, u32)>)
        ensures
            r == if k < self@.offsets.len() {
                Some(self@.offsets[k as int])
            } else {
                None
            },
    {
        if k < self.draw_list_offsets.len() {
            Some(self.offset_at(k))
        } else {
            None
        }
    }
}

} // verus!
