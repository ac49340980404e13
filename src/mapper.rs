//! From an image's transform and the viewport to the rectangle it is painted
//! into and the part of its texture that is sampled there.
use vstd::prelude::*;
use crate::geometry::{
    clamp, clamp_i64, clamp_up, clamp_up_i64, coord_ok, Pos2, Rect, Vec2, COORD_LIMIT,
};
use crate::resource::{
    crop_or_zero, CropRect, ImageTranforms, UvRect, DIM_LIMIT, SCALE_LIMIT, SCALE_UNIT,
};

verus! {

/// Largest magnitude of a crop inset once scaled.
pub const INSET_LIMIT: i64 = 0x1000_0000_0000_0000;

/// A pixel length times two scale factors in thousandths, rounded down.
pub open spec fn scaled_len(len: int, a: int, b: int) -> int {
    len * a * b / (SCALE_UNIT * SCALE_UNIT)
}

/// `v * n / d`, rounded towards zero.
pub open spec fn mul_div(v: int, n: int, d: int) -> int {
    if v >= 0 {
        v * n / d
    } else {
        -((-v) * n / d)
    }
}

/// Where one image lands: its full extent, the part of it painted inside
/// the viewport, and the texture fraction sampled for that part.
#[derive(Clone, Copy, PartialEq, Eq, Structural, Debug, Hash)]
pub struct Placement {
    pub unclamped: Rect,
    pub render: Rect,
    pub uv: UvRect,
}

/// `p` is the placement of an image of size `(sx, sy)` centered at
/// `(cx, cy)` whose corners are pulled in by `(lx, ty)` and `(rx, by)`.
pub open spec fn maps(
    p: Placement,
    vp: Rect,
    cx: int,
    cy: int,
    sx: int,
    sy: int,
    lx: int,
    ty: int,
    rx: int,
    by: int,
) -> bool {
    &&& p.unclamped.min.x == cx - sx / 2
    &&& p.unclamped.min.y == cy - sy / 2
    &&& p.unclamped.max.x == p.unclamped.min.x + sx
    &&& p.unclamped.max.y == p.unclamped.min.y + sy
    &&& p.render.min.x == clamp(p.unclamped.min.x + lx, vp.min.x as int, vp.max.x as int)
    &&& p.render.min.y == clamp(p.unclamped.min.y + ty, vp.min.y as int, vp.max.y as int)
    &&& p.render.max.x == clamp_up(p.unclamped.max.x + rx, vp.min.x as int, vp.max.x as int)
    &&& p.render.max.y == clamp_up(p.unclamped.max.y + by, vp.min.y as int, vp.max.y as int)
    &&& p.uv.den.x == (if sx > 0 { sx } else { 1 })
    &&& p.uv.den.y == (if sy > 0 { sy } else { 1 })
    &&& p.uv.min.x == clamp(p.render.min.x - p.unclamped.min.x, 0, p.uv.den.x as int)
    &&& p.uv.min.y == clamp(p.render.min.y - p.unclamped.min.y, 0, p.uv.den.y as int)
    &&& p.uv.max.x == clamp(p.render.max.x - p.unclamped.min.x, 0, p.uv.den.x as int)
    &&& p.uv.max.y == clamp(p.render.max.y - p.unclamped.min.y, 0, p.uv.den.y as int)
}

/// `p` is where the image of transform `t` lands on the board: scaled by its
/// original and user scales, centered on the viewport's center moved by its
/// pan offset, its committed crop scaled by the user scale.
pub open spec fn placed_on_board(p: Placement, t: ImageTranforms, viewport: Rect) -> bool {
    let c = crop_or_zero(t.croped);
    maps(
        p,
        viewport,
        viewport.spec_center_x() + t.pos.x,
        viewport.spec_center_y() + t.pos.y,
        scaled_len(t.size.x as int, t.original_scale as int, t.scale as int),
        scaled_len(t.size.y as int, t.original_scale as int, t.scale as int),
        mul_div(c.left as int, t.scale as int, SCALE_UNIT as int),
        mul_div(c.top as int, t.scale as int, SCALE_UNIT as int),
        mul_div(c.right as int, t.scale as int, SCALE_UNIT as int),
        mul_div(c.bottom as int, t.scale as int, SCALE_UNIT as int),
    )
}

/// `p` is where the image of transform `t` lands in the crop editor:
/// centered on the viewport whatever its pan, scaled by its original scale
/// and the editing scale `e`, with `crop` in viewport pixels at that scale.
pub open spec fn placed_in_editor(
    p: Placement,
    t: ImageTranforms,
    viewport: Rect,
    e: int,
    crop: CropRect,
) -> bool {
    maps(
        p,
        viewport,
        viewport.spec_center_x(),
        viewport.spec_center_y(),
        scaled_len(t.size.x as int, t.original_scale as int, e),
        scaled_len(t.size.y as int, t.original_scale as int, e),
        crop.left as int,
        crop.top as int,
        crop.right as int,
        crop.bottom as int,
    )
}

/// A pixel length times two scale factors, rounded down.
pub fn scale_len(len: i64, a: i64, b: i64) -> (r: i64)
    requires
        0 <= len <= DIM_LIMIT,
        0 <= a <= SCALE_LIMIT,
        0 <= b <= SCALE_LIMIT,
    ensures
        r == scaled_len(len as int, a as int, b as int),
        0 <= r <= COORD_LIMIT,
{
    assert(0 <= len * a <= DIM_LIMIT * SCALE_LIMIT) by (nonlinear_arith)
        requires
            0 <= len <= DIM_LIMIT,
            0 <= a <= SCALE_LIMIT,
    ;
    assert(0 <= len * a * b <= DIM_LIMIT * SCALE_LIMIT * SCALE_LIMIT) by (nonlinear_arith)
        requires
            0 <= len * a <= DIM_LIMIT * SCALE_LIMIT,
            0 <= b <= SCALE_LIMIT,
    ;
    let p = len * a * b;
    assert(p / 1000000 <= COORD_LIMIT) by {
        vstd::arithmetic::div_mod::lemma_div_is_ordered(
            p as int,
            DIM_LIMIT * SCALE_LIMIT * SCALE_LIMIT,
            1000000,
        );
    }
    p / 1000000
}

/// `v * n / d`, rounded towards zero.
pub fn mul_div_i64(v: i64, n: i64, d: i64) -> (r: i64)
    requires
        coord_ok(v as int),
        0 <= n <= SCALE_LIMIT,
        1 <= d,
    ensures
        r == mul_div(v as int, n as int, d as int),
        -INSET_LIMIT <= r <= INSET_LIMIT,
        v >= 0 ==> r >= 0,
        v <= 0 ==> r <= 0,
{
    let m: i64 = if v >= 0 { v } else { -v };
    assert(0 <= m * n <= COORD_LIMIT * SCALE_LIMIT) by (nonlinear_arith)
        requires
            0 <= m <= COORD_LIMIT,
            0 <= n <= SCALE_LIMIT,
    ;
    let q = m * n / d;
    assert(m == 0 ==> m * n == 0) by (nonlinear_arith);
    assert(0 <= q <= m * n) by (nonlinear_arith)
        requires
            q == (m * n) as int / (d as int),
            0 <= m * n,
            1 <= d,
    ;
    if v >= 0 {
        q
    } else {
        -q
    }
}

/// Places an image of size `size`, centered at `center`, with its corners
/// pulled in by `inset_min` and `inset_max`, into `viewport`.
pub fn place(viewport: Rect, center: Pos2, size: Vec2, inset_min: Vec2, inset_max: Vec2) -> (p:
    Placement)
    requires
        viewport.wf(),
        -2 * COORD_LIMIT <= center.x <= 2 * COORD_LIMIT,
        -2 * COORD_LIMIT <= center.y <= 2 * COORD_LIMIT,
        0 <= size.x <= COORD_LIMIT,
        0 <= size.y <= COORD_LIMIT,
        -INSET_LIMIT <= inset_min.x <= INSET_LIMIT,
        -INSET_LIMIT <= inset_min.y <= INSET_LIMIT,
        -INSET_LIMIT <= inset_max.x <= INSET_LIMIT,
        -INSET_LIMIT <= inset_max.y <= INSET_LIMIT,
    ensures
        maps(
            p,
            viewport,
            center.x as int,
            center.y as int,
            size.x as int,
            size.y as int,
            inset_min.x as int,
            inset_min.y as int,
            inset_max.x as int,
            inset_max.y as int,
        ),
        p.render.inside(viewport),
        p.uv.wf(),
{
    let unclamped = Rect::from_center_size(center, size);
    let vmin = viewport.min;
    let vmax = viewport.max;
    let render = Rect {
        min: Pos2 {
            x: clamp_i64(unclamped.min.x + inset_min.x, vmin.x, vmax.x),
            y: clamp_i64(unclamped.min.y + inset_min.y, vmin.y, vmax.y),
        },
        max: Pos2 {
            x: clamp_up_i64(unclamped.max.x + inset_max.x, vmin.x, vmax.x),
            y: clamp_up_i64(unclamped.max.y + inset_max.y, vmin.y, vmax.y),
        },
    };
    let den = Vec2 {
        x: if size.x > 0 { size.x } else { 1 },
        y: if size.y > 0 { size.y } else { 1 },
    };
    let uv = UvRect {
        min: Pos2 {
            x: clamp_i64(render.min.x - unclamped.min.x, 0, den.x),
            y: clamp_i64(render.min.y - unclamped.min.y, 0, den.y),
        },
        max: Pos2 {
            x: clamp_i64(render.max.x - unclamped.min.x, 0, den.x),
            y: clamp_i64(render.max.y - unclamped.min.y, 0, den.y),
        },
        den,
    };
    Placement { unclamped, render, uv }
}

/// Where an image lands on the board.
pub fn board_placement(t: &ImageTranforms, viewport: Rect) -> (p: Placement)
    requires
        t.wf(),
        viewport.wf(),
    ensures
        placed_on_board(p, *t, viewport),
        p.render.inside(viewport),
        p.uv.wf(),
{
    let size = Vec2 {
        x: scale_len(t.size.x, t.original_scale, t.scale),
        y: scale_len(t.size.y, t.original_scale, t.scale),
    };
    let mid = viewport.center();
    let center = Pos2 { x: mid.x + t.pos.x, y: mid.y + t.pos.y };
    let c = match t.croped {
        Some(c) => c,
        None => CropRect::default(),
    };
    let inset_min = Vec2 {
        x: mul_div_i64(c.left, t.scale, SCALE_UNIT),
        y: mul_div_i64(c.top, t.scale, SCALE_UNIT),
    };
    let inset_max = Vec2 {
        x: mul_div_i64(c.right, t.scale, SCALE_UNIT),
        y: mul_div_i64(c.bottom, t.scale, SCALE_UNIT),
    };
    place(viewport, center, size, inset_min, inset_max)
}

/// Where an image lands in the crop editor.
pub fn crop_preview_placement(
    t: &ImageTranforms,
    viewport: Rect,
    editing_scale: i64,
    crop: CropRect,
) -> (p: Placement)
    requires
        t.wf(),
        viewport.wf(),
        0 <= editing_scale <= SCALE_LIMIT,
        crop.bounded(INSET_LIMIT as int),
    ensures
        placed_in_editor(p, *t, viewport, editing_scale as int, crop),
        p.render.inside(viewport),
        p.uv.wf(),
        -2 * COORD_LIMIT <= p.unclamped.min.x <= 2 * COORD_LIMIT,
        -2 * COORD_LIMIT <= p.unclamped.min.y <= 2 * COORD_LIMIT,
        0 <= p.unclamped.max.x - p.unclamped.min.x <= COORD_LIMIT,
        0 <= p.unclamped.max.y - p.unclamped.min.y <= COORD_LIMIT,
{
    let size = Vec2 {
        x: scale_len(t.size.x, t.original_scale, editing_scale),
        y: scale_len(t.size.y, t.original_scale, editing_scale),
    };
    let center = viewport.center();
    place(
        viewport,
        center,
        size,
        Vec2 { x: crop.left, y: crop.top },
        Vec2 { x: crop.right, y: crop.bottom },
    )
}

/// An opacity in thousandths as an 8-bit alpha, rounded to nearest.
pub fn alpha_of(opacity: i64) -> (r: u8)
    requires
        0 <= opacity <= SCALE_UNIT,
    ensures
        r == (opacity * 255 + 500) / 1000,
{
    assert((opacity * 255 + 500) / 1000 <= 255) by (nonlinear_arith)
        requires
            0 <= opacity <= 1000,
    ;
    ((opacity * 255 + 500) / 1000) as u8
}

} // verus!
