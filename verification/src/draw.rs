//! One frame's draw data: draw lists of vertices, indices and commands.

use vstd::prelude::*;
use crate::buffer::padded_len;
use crate::offsets::table_limit;
use crate::texture::TextureId;

verus! {

/// Bytes in one vertex record: a position and a texture coordinate of two
/// 32-bit numbers each, and a colour of four bytes.
pub const VERTEX_SIZE: usize = 20;

/// A vertex record, as the bytes that go to the vertex buffer.
pub type DrawVert = [u8; VERTEX_SIZE];

/// An index into the vertices of a draw list.
pub type DrawIdx = u16;

/// What a draw command is drawn with.
#[derive(Clone, Copy, Debug, PartialEq, Eq)]
pub struct DrawCmdParams {
    /// Left, top, right and bottom edge in GUI space, in sub-pixel steps.
    pub clip_rect: [i64; 4],
    pub texture_id: TextureId,
}

/// A command of a draw list.
#[derive(Clone, Copy, Debug, PartialEq, Eq)]
pub enum DrawCmd {
    /// Draws the next `count` indices of the list.
    Elements { count: usize, cmd_params: DrawCmdParams },
    /// Asks the renderer to set up its state again; consumes no indices.
    ResetRenderState,
    /// A callback of the GUI's user; consumes no indices.
    RawCallback,
}

/// The number of indices that a command consumes.
pub open spec fn cmd_count(cmd: DrawCmd) -> nat {
    match cmd {
        DrawCmd::Elements { count, .. } => count as nat,
        _ => 0,
    }
}

/// The number of indices that the first `n` commands consume.
pub open spec fn count_sum(cmds: Seq<DrawCmd>, n: int) -> nat
    decreases n,
{
    if n <= 0 {
        0
    } else {
        count_sum(cmds, n - 1) + cmd_count(cmds[n - 1])
    }
}

/// More commands never consume fewer indices.
pub proof fn lemma_count_sum_monotone(cmds: Seq<DrawCmd>, i: int, j: int)
    requires
        i <= j,
    ensures
        count_sum(cmds, i) <= count_sum(cmds, j),
    decreases j - i,
{
    if i < j {
        lemma_count_sum_monotone(cmds, i, j - 1);
    }
}

/// An ordered batch of vertices, indices and commands.
#[derive(Debug)]
pub struct DrawList {
    vtx_buffer: Vec<DrawVert>,
    idx_buffer: Vec<DrawIdx>,
    commands: Vec<DrawCmd>,
}

impl DrawList {
    /// The vertex records of the list.
    pub closed spec fn vertices(&self) -> Seq<DrawVert> {
        self.vtx_buffer@
    }

    /// The indices of the list.
    pub closed spec fn indices(&self) -> Seq<DrawIdx> {
        self.idx_buffer@
    }

    /// The commands of the list, in the order in which they are drawn.
    pub closed spec fn cmds(&self) -> Seq<DrawCmd> {
        self.commands@
    }

    /// The commands of a draw list consume its indices, all of them and no
    /// more.
    #[verifier::type_invariant]
    pub open spec fn wf(&self) -> bool {
        count_sum(self.cmds(), self.cmds().len() as int) == self.indices().len()
    }

    /// Makes a draw list, if the commands consume exactly the indices given.
    pub fn new(vtx_buffer: Vec<DrawVert>, idx_buffer: Vec<DrawIdx>, commands: Vec<DrawCmd>) -> (r:
        Option<DrawList>)
        ensures
            r is Some <==> count_sum(commands@, commands@.len() as int) == idx_buffer@.len(),
            r is Some ==> {
                let list = r.unwrap();
                &&& list.wf()
                &&& list.vertices() == vtx_buffer@
                &&& list.indices() == idx_buffer@
                &&& list.cmds() == commands@
            },
    {
        let mut sum: usize = 0;
        let mut i: usize = 0;
        while i < commands.len()
            invariant
                i <= commands.len(),
                sum == count_sum(commands@, i as int),
                sum <= idx_buffer.len(),
            decreases commands.len() - i,
        {
            let count: usize = match commands[i] {
                DrawCmd::Elements { count, .. } => count,
                _ => 0,
            };
            if count > idx_buffer.len() - sum {
                proof {
                    lemma_count_sum_monotone(commands@, i as int + 1, commands@.len() as int);
                }
                return None;
            }
            sum = sum + count;
            i = i + 1;
        }
        if sum == idx_buffer.len() {
            Some(DrawList { vtx_buffer, idx_buffer, commands })
        } else {
            None
        }
    }

    /// The vertices of the list.
    pub fn vtx_buffer(&self) -> (r: &Vec<DrawVert>)
        ensures
            r@ == self.vertices(),
    {
        &self.vtx_buffer
    }

    /// The indices of the list.
    pub fn idx_buffer(&self) -> (r: &Vec<DrawIdx>)
        ensures
            r@ == self.indices(),
    {
        &self.idx_buffer
    }

    /// The commands of the list, in the order in which they are drawn.
    pub fn commands(&self) -> (r: &Vec<DrawCmd>)
        ensures
            r@ == self.cmds(),
    {
        &self.commands
    }
}

/// The number of vertices in the first `n` draw lists.
pub open spec fn vertex_total(lists: Seq<DrawList>, n: int) -> nat
    decreases n,
{
    if n <= 0 {
        0
    } else {
        vertex_total(lists, n - 1) + lists[n - 1].vertices().len()
    }
}

/// The number of indices in the first `n` draw lists.
pub open spec fn index_total(lists: Seq<DrawList>, n: int) -> nat
    decreases n,
{
    if n <= 0 {
        0
    } else {
        index_total(lists, n - 1) + lists[n - 1].indices().len()
    }
}

/// More draw lists never hold fewer vertices or indices.
pub proof fn lemma_totals_monotone(lists: Seq<DrawList>, i: int, j: int)
    requires
        i <= j,
    ensures
        vertex_total(lists, i) <= vertex_total(lists, j),
        index_total(lists, i) <= index_total(lists, j),
    decreases j - i,
{
    if i < j {
        lemma_totals_monotone(lists, i, j - 1);
    }
}

/// The number of draw lists that a frame stays below: as many as the
/// table of their offsets has room for.
pub open spec fn max_draw_lists() -> int {
    table_limit()
}

/// Whether the lists of a frame fit the buffers they are drawn from: every
/// base vertex fits an `i32`, every index position a `u32`, and the byte
/// payloads a `usize`.
pub open spec fn lists_fit(lists: Seq<DrawList>) -> bool {
    let n = lists.len() as int;
    &&& n < max_draw_lists()
    &&& forall|k: int| 0 <= k < n ==> (#[trigger] lists[k]).wf()
    &&& vertex_total(lists, n) <= i32::MAX
    &&& index_total(lists, n) <= u32::MAX
    &&& VERTEX_SIZE * vertex_total(lists, n) <= usize::MAX
    &&& padded_len(2 * index_total(lists, n)) <= usize::MAX
}

/// The draw data of one frame.
#[derive(Debug)]
pub struct DrawData {
    display_pos: [i64; 2],
    display_size: [i64; 2],
    framebuffer_scale: [i32; 2],
    draw_lists: Vec<DrawList>,
}

impl DrawData {
    /// The draw lists of the frame, in the order in which they are drawn.
    pub closed spec fn lists(&self) -> Seq<DrawList> {
        self.draw_lists@
    }

    /// Top-left corner of the display in GUI space, in sub-pixel steps.
    pub closed spec fn pos(&self) -> [i64; 2] {
        self.display_pos
    }

    /// Size of the display in GUI space, in sub-pixel steps.
    pub closed spec fn size(&self) -> [i64; 2] {
        self.display_size
    }

    /// Framebuffer pixels per GUI pixel along each axis, in sub-pixel steps.
    pub closed spec fn scale(&self) -> [i32; 2] {
        self.framebuffer_scale
    }

    /// The lists of a frame fit the buffers they are drawn from.
    #[verifier::type_invariant]
    pub open spec fn wf(&self) -> bool {
        lists_fit(self.lists())
    }

    /// Makes the draw data of a frame, if its lists fit.
    pub fn new(
        display_pos: [i64; 2],
        display_size: [i64; 2],
        framebuffer_scale: [i32; 2],
        draw_lists: Vec<DrawList>,
    ) -> (r: Option<DrawData>)
        ensures
            r is Some <==> lists_fit(draw_lists@),
            r is Some ==> {
                let data = r.unwrap();
                &&& data.wf()
                &&& data.lists() == draw_lists@
                &&& data.pos() == display_pos
                &&& data.size() == display_size
                &&& data.scale() == framebuffer_scale
            },
    {
        let n = draw_lists.len();
        if n >= (isize::MAX as usize) / 16 {
            return None;
        }
        let mut vertices: usize = 0;
        let mut indices: usize = 0;
        let mut k: usize = 0;
        while k < n
            invariant
                n == draw_lists.len(),
                k <= n,
                vertices == vertex_total(draw_lists@, k as int),
                indices == index_total(draw_lists@, k as int),
                vertices <= i32::MAX,
                indices <= u32::MAX,
                VERTEX_SIZE * vertices <= usize::MAX,
                padded_len(2 * indices as nat) <= usize::MAX,
                forall|j: int| 0 <= j < k ==> (#[trigger] draw_lists@[j]).wf(),
            decreases n - k,
        {
            let list = &draw_lists[k];
            let v = list.vtx_buffer.len();
            let i = list.idx_buffer.len();
            proof {
                use_type_invariant(list);
                lemma_totals_monotone(draw_lists@, k as int + 1, n as int);
            }
            if v > 0x7fff_ffff - vertices || v > (usize::MAX / VERTEX_SIZE) - vertices {
                return None;
            }
            assert(usize::MAX % 4 == 3) by {
                assert(usize::MAX == 0xffff_ffff || usize::MAX == 0xffff_ffff_ffff_ffff);
            }
            if i > 0xffff_ffff - indices || i > (usize::MAX - 3) / 2 - indices {
                return None;
            }
            vertices = vertices + v;
            indices = indices + i;
            k = k + 1;
        }
        Some(DrawData { display_pos, display_size, framebuffer_scale, draw_lists })
    }

    /// Top-left corner of the display in GUI space, in sub-pixel steps.
    pub fn display_pos(&self) -> (r: [i64; 2])
        ensures
            r == self.pos(),
    {
        self.display_pos
    }

    /// Size of the display in GUI space, in sub-pixel steps.
    pub fn display_size(&self) -> (r: [i64; 2])
        ensures
            r == self.size(),
    {
        self.display_size
    }

    /// Framebuffer pixels per GUI pixel along each axis, in sub-pixel steps.
    pub fn framebuffer_scale(&self) -> (r: [i32; 2])
        ensures
            r == self.scale(),
    {
        self.framebuffer_scale
    }

    /// The draw lists of the frame, in the order in which they are drawn.
    pub fn draw_lists(&self) -> (r: &Vec<DrawList>)
        ensures
            r@ == self.lists(),
    {
        &self.draw_lists
    }

    /// The number of draw lists.
    pub fn draw_lists_count(&self) -> (r: usize)
        ensures
            r == self.lists().len(),
    {
        self.draw_lists.len()
    }
}

} // verus!
