//! Clip rectangles and scissor rectangles on a fixed sub-pixel grid.
//!
//! Coordinates of the GUI space are whole numbers of sub-pixel steps, sixteen
//! binary places below one pixel. A scale factor uses the same steps, so the
//! product of a coordinate and a scale factor counts steps of thirty-two
//! binary places ("fine" steps). All arithmetic is exact.

use vstd::prelude::*;

verus! {

/// Sub-pixel steps in one pixel, and the value of the scale factor one.
pub const SUBPIXEL: i64 = 65536;

/// Fine steps in one pixel.
pub const FINE: u128 = 0x1_0000_0000;

/// A scissor rectangle in whole framebuffer pixels.
#[derive(Clone, Copy, Debug, PartialEq, Eq)]
pub struct Scissor {
    pub x: u32,
    pub y: u32,
    pub width: u32,
    pub height: u32,
}

/// A rectangle in framebuffer space, in fine steps.
pub struct Rect {
    pub left: int,
    pub top: int,
    pub right: int,
    pub bottom: int,
}

/// How the GUI space of a frame lies on the framebuffer.
pub struct FrameSpace {
    /// Width and height of the framebuffer, in fine steps.
    pub fb_size: (int, int),
    /// The GUI-space position of the framebuffer's origin, in sub-pixel steps.
    pub clip_off: (int, int),
    /// Framebuffer pixels per GUI pixel along each axis, in sub-pixel steps.
    pub clip_scale: (int, int),
}

/// A GUI-space coordinate moved by the display offset and scaled to the
/// framebuffer, in fine steps.
pub open spec fn to_framebuffer(clip: int, offset: int, scale: int) -> int {
    (clip - offset) * scale
}

/// A clip rectangle of the GUI space, in framebuffer space.
pub open spec fn framebuffer_rect(clip_rect: [i64; 4], space: FrameSpace) -> Rect {
    Rect {
        left: to_framebuffer(clip_rect[0] as int, space.clip_off.0, space.clip_scale.0),
        top: to_framebuffer(clip_rect[1] as int, space.clip_off.1, space.clip_scale.1),
        right: to_framebuffer(clip_rect[2] as int, space.clip_off.0, space.clip_scale.0),
        bottom: to_framebuffer(clip_rect[3] as int, space.clip_off.1, space.clip_scale.1),
    }
}

/// Whether a rectangle misses the framebuffer `[0, width) x [0, height)`:
/// its right or bottom edge is at or before the origin, or its left or top
/// edge at or after the far edge. A rectangle that only touches an edge
/// misses.
pub open spec fn misses_framebuffer(rect: Rect, fb_size: (int, int)) -> bool {
    rect.right <= 0 || rect.bottom <= 0 || rect.left >= fb_size.0 || rect.top >= fb_size.1
}

/// The larger of two numbers.
pub open spec fn max_int(a: int, b: int) -> int {
    if a >= b {
        a
    } else {
        b
    }
}

/// The smaller of two numbers.
pub open spec fn min_int(a: int, b: int) -> int {
    if a <= b {
        a
    } else {
        b
    }
}

/// The distance of a number from zero.
pub open spec fn abs_int(a: int) -> int {
    if a >= 0 {
        a
    } else {
        -a
    }
}

/// The whole pixels below a length of `fine` steps, at most `u32::MAX`.
pub open spec fn floor_pixels(fine: int) -> int
    recommends
        fine >= 0,
{
    min_int(fine / 0x1_0000_0000, u32::MAX as int)
}

/// The whole pixels that cover a length of `fine` steps, at most `u32::MAX`.
pub open spec fn ceil_pixels(fine: int) -> int
    recommends
        fine >= 0,
{
    min_int((fine + 0xffff_ffff) / 0x1_0000_0000, u32::MAX as int)
}

/// The scissor origin along one axis: the low edge, clamped to the
/// framebuffer's start and rounded down.
pub open spec fn scissor_origin(low: int) -> int {
    floor_pixels(max_int(low, 0))
}

/// The scissor extent along one axis: the distance between the clamped
/// edges, rounded up.
pub open spec fn scissor_extent(low: int, high: int, size: int) -> int {
    ceil_pixels(abs_int(min_int(high, size) - max_int(low, 0)))
}

/// The scissor rectangle that a rectangle clamps to.
pub open spec fn clamped_scissor(rect: Rect, fb_size: (int, int)) -> Scissor {
    Scissor {
        x: scissor_origin(rect.left) as u32,
        y: scissor_origin(rect.top) as u32,
        width: scissor_extent(rect.left, rect.right, fb_size.0) as u32,
        height: scissor_extent(rect.top, rect.bottom, fb_size.1) as u32,
    }
}

/// The scissor rectangle under which a rectangle is drawn, or `None` where
/// nothing is drawn: the rectangle misses the framebuffer, or what is left of
/// it after clamping has no area.
pub open spec fn scissor_for(rect: Rect, fb_size: (int, int)) -> Option<Scissor> {
    let s = clamped_scissor(rect, fb_size);
    if misses_framebuffer(rect, fb_size) || s.width == 0 || s.height == 0 {
        None
    } else {
        Some(s)
    }
}

/// The scissor rectangle under which a command with the given clip
/// rectangle is drawn, or `None` where it is not drawn.
pub open spec fn command_scissor(clip_rect: [i64; 4], space: FrameSpace) -> Option<Scissor> {
    scissor_for(framebuffer_rect(clip_rect, space), space.fb_size)
}

/// Bound on the size of a coordinate in framebuffer space.
pub open spec fn fine_bound() -> int {
    0x8000_0000_0000_0000_0000_0000
}

/// Whether a number of fine steps is one that a coordinate and a scale
/// factor can give.
pub open spec fn within_fine_bound(v: int) -> bool {
    -fine_bound() <= v <= fine_bound()
}

proof fn lemma_product_bound(a: int, s: int)
    requires
        -0x1_0000_0000_0000_0000 <= a <= 0x1_0000_0000_0000_0000,
        -0x8000_0000 <= s <= 0x8000_0000,
    ensures
        within_fine_bound(a * s),
{
    assert(a * s <= 0x1_0000_0000_0000_0000 * 0x8000_0000 && a * s >= -(0x1_0000_0000_0000_0000
        * 0x8000_0000)) by (nonlinear_arith)
        requires
            -0x1_0000_0000_0000_0000 <= a <= 0x1_0000_0000_0000_0000,
            -0x8000_0000 <= s <= 0x8000_0000,
    ;
}

/// Moves one GUI-space coordinate into framebuffer space.
pub fn transform(clip: i64, offset: i64, scale: i32) -> (r: i128)
    ensures
        r == to_framebuffer(clip as int, offset as int, scale as int),
        within_fine_bound(r as int),
{
    let d: i128 = clip as i128 - offset as i128;
    proof {
        lemma_product_bound(d as int, scale as int);
    }
    d * (scale as i128)
}

/// The framebuffer's size along one axis: the display size times the scale.
pub fn framebuffer_extent(display_size: i64, scale: i32) -> (r: i128)
    ensures
        r == display_size * scale,
        within_fine_bound(r as int),
{
    proof {
        lemma_product_bound(display_size as int, scale as int);
    }
    (display_size as i128) * (scale as i128)
}

fn floor_px(fine: u128) -> (r: u32)
    ensures
        r == floor_pixels(fine as int),
{
    let q: u128 = fine / FINE;
    if q > 0xffff_ffff {
        0xffff_ffff
    } else {
        q as u32
    }
}

fn ceil_px(fine: u128) -> (r: u32)
    requires
        fine <= fine_bound() * 4,
    ensures
        r == ceil_pixels(fine as int),
{
    let q: u128 = (fine + 0xffff_ffff) / FINE;
    if q > 0xffff_ffff {
        0xffff_ffff
    } else {
        q as u32
    }
}

/// Works out the scissor rectangle under which a command is drawn, or finds
/// that it is not drawn.
///
/// The clip rectangle is moved by the display offset and scaled to the
/// framebuffer. Where it misses the framebuffer, nothing is drawn. Otherwise
/// it is clamped to the framebuffer; the scissor starts at the pixel that
/// holds the clamped left top corner and is as many pixels wide and high as
/// cover the clamped rectangle. Where that is no pixel at all, nothing is
/// drawn either.
pub fn scissor(clip_rect: [i64; 4], clip_off: [i64; 2], clip_scale: [i32; 2], fb_size: [i128; 2])
    -> (r: Option<Scissor>)
    ensures
        r == command_scissor(
            clip_rect,
            FrameSpace {
                fb_size: (fb_size[0] as int, fb_size[1] as int),
                clip_off: (clip_off[0] as int, clip_off[1] as int),
                clip_scale: (clip_scale[0] as int, clip_scale[1] as int),
            },
        ),
{
    let rect_left = transform(clip_rect[0], clip_off[0], clip_scale[0]);
    let rect_top = transform(clip_rect[1], clip_off[1], clip_scale[1]);
    let rect_right = transform(clip_rect[2], clip_off[0], clip_scale[0]);
    let rect_bottom = transform(clip_rect[3], clip_off[1], clip_scale[1]);
    if rect_right <= 0 || rect_bottom <= 0 || rect_left >= fb_size[0] || rect_top >= fb_size[1] {
        return None;
    }
    let left: i128 = if rect_left >= 0 { rect_left } else { 0 };
    let top: i128 = if rect_top >= 0 { rect_top } else { 0 };
    let right: i128 = if rect_right <= fb_size[0] { rect_right } else { fb_size[0] };
    let bottom: i128 = if rect_bottom <= fb_size[1] { rect_bottom } else { fb_size[1] };
    let across: i128 = if right >= left { right - left } else { left - right };
    let down: i128 = if bottom >= top { bottom - top } else { top - bottom };
    let s = Scissor {
        x: floor_px(left as u128),
        y: floor_px(top as u128),
        width: ceil_px(across as u128),
        height: ceil_px(down as u128),
    };
    if s.width > 0 && s.height > 0 {
        Some(s)
    } else {
        None
    }
}

/// A rectangle that touches the framebuffer from outside misses it: one
/// whose right or bottom edge lies on the origin, and one whose left or top
/// edge lies on the far edge.
pub proof fn lemma_touching_misses(rect: Rect, fb_size: (int, int))
    requires
        rect.right == 0 || rect.bottom == 0 || rect.left == fb_size.0 || rect.top == fb_size.1,
    ensures
        misses_framebuffer(rect, fb_size),
        scissor_for(rect, fb_size) is None,
{
}

/// A rectangle that reaches into the framebuffer by one step or more along
/// both axes does not miss it.
pub proof fn lemma_overlapping_is_kept(rect: Rect, fb_size: (int, int))
    requires
        rect.right >= 1,
        rect.bottom >= 1,
        rect.left <= fb_size.0 - 1,
        rect.top <= fb_size.1 - 1,
    ensures
        !misses_framebuffer(rect, fb_size),
{
}

/// A rectangle that lies the right way round and reaches into a framebuffer
/// with some area by one step or more is drawn, under a scissor of at least
/// one pixel each way.
pub proof fn lemma_overlapping_is_drawn(rect: Rect, fb_size: (int, int))
    requires
        fb_size.0 >= 1,
        fb_size.1 >= 1,
        rect.left < rect.right,
        rect.top < rect.bottom,
        rect.right >= 1,
        rect.bottom >= 1,
        rect.left <= fb_size.0 - 1,
        rect.top <= fb_size.1 - 1,
    ensures
        scissor_for(rect, fb_size) matches Some(s) && s.width >= 1 && s.height >= 1,
{
}

/// The scissor of a rectangle that lies the right way round stays within
/// the pixels that cover the framebuffer, where the framebuffer has some
/// area and no more pixels along an axis than a `u32` counts.
pub proof fn lemma_scissor_within_framebuffer(rect: Rect, fb_size: (int, int))
    requires
        0 < fb_size.0 <= u32::MAX * 0x1_0000_0000,
        0 < fb_size.1 <= u32::MAX * 0x1_0000_0000,
        rect.left <= rect.right,
        rect.top <= rect.bottom,
        scissor_for(rect, fb_size) is Some,
    ensures
        ({
            let s = scissor_for(rect, fb_size).unwrap();
            &&& s.x + s.width <= ceil_pixels(fb_size.0)
            &&& s.y + s.height <= ceil_pixels(fb_size.1)
        }),
{
    lemma_extent_within(rect.left, rect.right, fb_size.0);
    lemma_extent_within(rect.top, rect.bottom, fb_size.1);
}

proof fn lemma_extent_within(low: int, high: int, size: int)
    requires
        0 < size <= u32::MAX * 0x1_0000_0000,
        low <= high,
        high > 0,
        low < size,
    ensures
        scissor_origin(low) + scissor_extent(low, high, size) <= ceil_pixels(size),
{
    let a = max_int(low, 0);
    let b = min_int(high, size);
    assert(0 <= a <= b <= size);
    let unit = 0x1_0000_0000int;
    let q = a / unit;
    assert(q * unit <= a < q * unit + unit);
    assert((b - a + 0xffff_ffff) / unit <= (b + 0xffff_ffff) / unit - q) by {
        assert(b - a + 0xffff_ffff <= b + 0xffff_ffff - q * unit);
        assert((b + 0xffff_ffff - q * unit) / unit == (b + 0xffff_ffff) / unit - q) by {
            vstd::arithmetic::div_mod::lemma_fundamental_div_mod_converse(
                b + 0xffff_ffff - q * unit,
                unit,
                (b + 0xffff_ffff) / unit - q,
                (b + 0xffff_ffff) % unit,
            );
        }
        vstd::arithmetic::div_mod::lemma_div_is_ordered(
            b - a + 0xffff_ffff,
            b + 0xffff_ffff - q * unit,
            unit,
        );
    }
    assert((b + 0xffff_ffff) / unit <= (size + 0xffff_ffff) / unit) by {
        vstd::arithmetic::div_mod::lemma_div_is_ordered(b + 0xffff_ffff, size + 0xffff_ffff, unit);
    }
}

} // verus!
