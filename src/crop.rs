//! Crop editing: the editing scale, the two corner handles, and the session
//! that converts a committed crop to editing units and back.
use vstd::prelude::*;
use crate::geometry::{
    clamp, clamp_i64, clamp_up, clamp_up_i64, Pos2, Rect, Vec2, COORD_LIMIT,
};
use crate::mapper::{mul_div, scaled_len};
use crate::resource::{
    crop_or_zero, ActiveImageSettings, CropImageDragState, CropRect, CropedImageModified,
    sub_offset_ok, ImageTranforms, DIM_LIMIT, SCALE_LIMIT, SCALE_UNIT, SESSION_LIMIT, SUBPIXEL,
    SUB_REACH,
};

verus! {

/// Side of the square the crop editor fits an image into, below the
/// viewport's shorter side.
pub const EDITOR_MARGIN: i64 = 100;

/// Side of the square an image is fitted into when it is imported.
pub const IMPORT_FIT: i64 = 600;

/// Whether an image is wider, relative to its height, than a plot.
pub open spec fn wider_than(image: Vec2, plot: Vec2) -> bool {
    image.x * plot.y > plot.x * image.y
}

/// `fit` pixels over the image's side that meets the plot first, in thousandths.
pub open spec fn fit_scale(image: Vec2, plot: Vec2, fit: int) -> int {
    if wider_than(image, plot) {
        fit * SCALE_UNIT / (image.x as int)
    } else {
        fit * SCALE_UNIT / (image.y as int)
    }
}

/// The scale, in thousandths, that fits an image into `IMPORT_FIT` pixels
/// along the side that meets the plot first.
pub fn calc_orignal_scale(image_size: Vec2, plot_size: Vec2) -> (r: i64)
    requires
        1 <= image_size.x <= DIM_LIMIT,
        1 <= image_size.y <= DIM_LIMIT,
        0 <= plot_size.x <= 2 * COORD_LIMIT,
        0 <= plot_size.y <= 2 * COORD_LIMIT,
    ensures
        r == fit_scale(image_size, plot_size, IMPORT_FIT as int),
        0 <= r <= SCALE_LIMIT,
{
    if wider(image_size, plot_size) {
        IMPORT_FIT * SCALE_UNIT / image_size.x
    } else {
        IMPORT_FIT * SCALE_UNIT / image_size.y
    }
}

/// The pixel scale, in thousandths, that fits an image into the plot's
/// shorter side less `EDITOR_MARGIN` (none when the plot is smaller).
pub fn calc_max_scale(image_size: Vec2, plot_size: Vec2) -> (r: i64)
    requires
        1 <= image_size.x <= DIM_LIMIT,
        1 <= image_size.y <= DIM_LIMIT,
        0 <= plot_size.x <= 2 * COORD_LIMIT,
        0 <= plot_size.y <= 2 * COORD_LIMIT,
    ensures
        r == fit_scale(image_size, plot_size, editor_side(plot_size)),
        r >= 0,
{
    let side = if plot_size.x < plot_size.y { plot_size.x } else { plot_size.y };
    let fit = if side > EDITOR_MARGIN { side - EDITOR_MARGIN } else { 0 };
    if wider(image_size, plot_size) {
        fit * SCALE_UNIT / image_size.x
    } else {
        fit * SCALE_UNIT / image_size.y
    }
}

/// The plot's shorter side less `EDITOR_MARGIN`, never below zero.
pub open spec fn editor_side(plot: Vec2) -> int {
    let side = if plot.x < plot.y { plot.x as int } else { plot.y as int };
    if side > EDITOR_MARGIN { side - EDITOR_MARGIN } else { 0 }
}

fn wider(image: Vec2, plot: Vec2) -> (r: bool)
    requires
        0 <= image.x <= DIM_LIMIT,
        0 <= image.y <= DIM_LIMIT,
        -2 * COORD_LIMIT <= plot.x <= 2 * COORD_LIMIT,
        -2 * COORD_LIMIT <= plot.y <= 2 * COORD_LIMIT,
    ensures
        r == wider_than(image, plot),
{
    assert(-DIM_LIMIT * 2 * COORD_LIMIT <= image.x * plot.y <= DIM_LIMIT * 2 * COORD_LIMIT)
        by (nonlinear_arith)
        requires
            0 <= image.x <= DIM_LIMIT,
            -2 * COORD_LIMIT <= plot.y <= 2 * COORD_LIMIT,
    ;
    assert(-DIM_LIMIT * 2 * COORD_LIMIT <= plot.x * image.y <= DIM_LIMIT * 2 * COORD_LIMIT)
        by (nonlinear_arith)
        requires
            0 <= image.y <= DIM_LIMIT,
            -2 * COORD_LIMIT <= plot.x <= 2 * COORD_LIMIT,
    ;
    image.x * plot.y > plot.x * image.y
}

/// The editing scale of a crop session: the editor's pixel scale relative to
/// the image's original scale, kept within `[1, SCALE_LIMIT]` (`SCALE_UNIT`
/// for an image of no size or no original scale).
pub open spec fn editing_scale_of(t: ImageTranforms, plot: Vec2) -> int {
    let raw = if t.original_scale > 0 && t.size.x >= 1 && t.size.y >= 1 {
        fit_scale(t.size, plot, editor_side(plot)) * SCALE_UNIT / (t.original_scale as int)
    } else {
        SCALE_UNIT as int
    };
    clamp(raw, 1, SCALE_LIMIT as int)
}

pub fn editing_scale(t: &ImageTranforms, plot_size: Vec2) -> (r: i64)
    requires
        t.wf(),
        0 <= plot_size.x <= 2 * COORD_LIMIT,
        0 <= plot_size.y <= 2 * COORD_LIMIT,
    ensures
        r == editing_scale_of(*t, plot_size),
        1 <= r <= SCALE_LIMIT,
{
    let raw = if t.original_scale > 0 && t.size.x >= 1 && t.size.y >= 1 {
        let m = calc_max_scale(t.size, plot_size);
        let ghost fit = editor_side(plot_size);
        assert(m <= fit * SCALE_UNIT) by (nonlinear_arith)
            requires
                m == fit * SCALE_UNIT / (t.size.x as int) || m == fit * SCALE_UNIT / (
                t.size.y as int),
                1 <= t.size.x,
                1 <= t.size.y,
                0 <= fit,
        ;
        assert(m * SCALE_UNIT <= 2 * COORD_LIMIT * SCALE_UNIT * SCALE_UNIT) by (nonlinear_arith)
            requires
                0 <= m <= fit * SCALE_UNIT,
                fit <= 2 * COORD_LIMIT,
        ;
        m * SCALE_UNIT / t.original_scale
    } else {
        SCALE_UNIT
    };
    clamp_i64(raw, 1, SCALE_LIMIT)
}

/// A pixel length times two scale factors in thousandths, in thousandths of
/// a pixel, rounded down.
pub fn scale_sub_len(len: i64, a: i64, b: i64) -> (r: i64)
    requires
        0 <= len <= DIM_LIMIT,
        0 <= a <= SCALE_LIMIT,
        0 <= b <= SCALE_LIMIT,
    ensures
        r == len * a * b / (SCALE_UNIT as int),
        0 <= r <= SUB_REACH,
{
    assert(0 <= len * a <= DIM_LIMIT * SCALE_LIMIT) by (nonlinear_arith)
        requires
            0 <= len <= DIM_LIMIT,
            0 <= a <= SCALE_LIMIT,
    ;
    assert(0 <= len * a * b <= DIM_LIMIT * SCALE_LIMIT * SCALE_LIMIT) by (nonlinear_arith)
        requires
            0 <= len * a <= DIM_LIMIT * SCALE_LIMIT,
            0 <= b <= SCALE_LIMIT,
    ;
    let p = len * a * b;
    assert(p / 1000 <= SUB_REACH) by {
        vstd::arithmetic::div_mod::lemma_div_is_ordered(p as int, DIM_LIMIT * SCALE_LIMIT * SCALE_LIMIT, 1000);
    }
    p / 1000
}

/// A crop whose corners stay inside a frame of size `(w, h)` and never
/// cross each other.
pub open spec fn crop_fits(c: CropRect, w: int, h: int) -> bool {
    &&& 0 <= c.top
    &&& 0 <= c.left
    &&& c.bottom <= 0
    &&& c.right <= 0
    &&& c.top <= h + c.bottom
    &&& c.left <= w + c.right
}

/// A crop session's frame, in thousandths of a pixel: within reach of the
/// board, of non-negative size.
pub open spec fn frame_ok(f: Rect) -> bool {
    &&& -2 * SUB_REACH <= f.min.x <= 2 * SUB_REACH
    &&& -2 * SUB_REACH <= f.min.y <= 2 * SUB_REACH
    &&& 0 <= f.max.x - f.min.x <= SUB_REACH
    &&& 0 <= f.max.y - f.min.y <= SUB_REACH
}

/// `c` with each corner moved into a frame of size `(w, h)`, the top-left
/// corner first.
pub open spec fn fitted(c: CropRect, w: int, h: int) -> CropRect {
    let top = clamp(c.top as int, 0, h);
    let left = clamp(c.left as int, 0, w);
    CropRect {
        top: top as i64,
        left: left as i64,
        bottom: clamp(c.bottom as int, top - h, 0) as i64,
        right: clamp(c.right as int, left - w, 0) as i64,
    }
}

pub fn fit_crop(c: CropRect, w: i64, h: i64) -> (r: CropRect)
    requires
        0 <= w <= SUB_REACH,
        0 <= h <= SUB_REACH,
    ensures
        r == fitted(c, w as int, h as int),
        crop_fits(r, w as int, h as int),
        r.bounded(SUB_REACH as int),
        crop_fits(c, w as int, h as int) ==> r == c,
{
    let top = clamp_i64(c.top, 0, h);
    let left = clamp_i64(c.left, 0, w);
    CropRect {
        top,
        left,
        bottom: clamp_i64(c.bottom, top - h, 0),
        right: clamp_i64(c.right, left - w, 0),
    }
}

/// `v` if it is negative, else zero.
pub open spec fn neg_part(v: int) -> int {
    if v < 0 { v } else { 0 }
}

/// `v` if it is positive, else zero.
pub open spec fn pos_part(v: int) -> int {
    if v > 0 { v } else { 0 }
}

/// The crop after the top-left handle is dragged so that the pointer is at
/// `pointer` (whole pixels), the pointer being held `offset` from the
/// handle; the frame, the crop and the offset are in thousandths of a pixel.
/// The pointer is kept between the frame's top-left corner and the
/// bottom-right handle, and the new insets never pass the bottom-right
/// handle; the bottom and right insets stay exactly as they were.
pub open spec fn top_left_moved(c: CropRect, frame: Rect, offset: Vec2, pointer: Pos2) -> CropRect {
    let w = frame.max.x - frame.min.x;
    let h = frame.max.y - frame.min.y;
    let px = clamp(pointer.x * SUBPIXEL, frame.min.x as int, frame.max.x + c.right);
    let py = clamp(pointer.y * SUBPIXEL, frame.min.y as int, frame.max.y + c.bottom);
    CropRect {
        top: clamp_up(py - frame.min.y - offset.y, 0, h + neg_part(c.bottom as int)) as i64,
        left: clamp_up(px - frame.min.x - offset.x, 0, w + neg_part(c.right as int)) as i64,
        bottom: c.bottom,
        right: c.right,
    }
}

/// The crop after the bottom-right handle is dragged, as `top_left_moved`
/// with the corners' roles exchanged; the top and left insets stay exactly
/// as they were.
pub open spec fn bottom_right_moved(
    c: CropRect,
    frame: Rect,
    offset: Vec2,
    pointer: Pos2,
) -> CropRect {
    let w = frame.max.x - frame.min.x;
    let h = frame.max.y - frame.min.y;
    let px = clamp(pointer.x * SUBPIXEL, frame.min.x + c.left, frame.max.x as int);
    let py = clamp(pointer.y * SUBPIXEL, frame.min.y + c.top, frame.max.y as int);
    CropRect {
        top: c.top,
        left: c.left,
        bottom: clamp(py - frame.max.y - offset.y, pos_part(c.top as int) - h, 0) as i64,
        right: clamp(px - frame.max.x - offset.x, pos_part(c.left as int) - w, 0) as i64,
    }
}

pub fn move_top_left(c: CropRect, frame: Rect, offset: Vec2, pointer: Pos2) -> (r: CropRect)
    requires
        frame_ok(frame),
        c.bounded(SESSION_LIMIT as int),
        sub_offset_ok(offset),
        pointer.ok(),
    ensures
        r == top_left_moved(c, frame, offset, pointer),
        r.bounded(SESSION_LIMIT as int),
        r.bottom == c.bottom && r.right == c.right,
        crop_fits(c, frame.max.x - frame.min.x, frame.max.y - frame.min.y) ==> crop_fits(
            r,
            frame.max.x - frame.min.x,
            frame.max.y - frame.min.y,
        ),
{
    let w = frame.max.x - frame.min.x;
    let h = frame.max.y - frame.min.y;
    let px = clamp_i64(pointer.x * SUBPIXEL, frame.min.x, frame.max.x + c.right);
    let py = clamp_i64(pointer.y * SUBPIXEL, frame.min.y, frame.max.y + c.bottom);
    let hb = if c.bottom < 0 { h + c.bottom } else { h };
    let wr = if c.right < 0 { w + c.right } else { w };
    CropRect {
        top: clamp_up_i64(py - frame.min.y - offset.y, 0, hb),
        left: clamp_up_i64(px - frame.min.x - offset.x, 0, wr),
        bottom: c.bottom,
        right: c.right,
    }
}

pub fn move_bottom_right(c: CropRect, frame: Rect, offset: Vec2, pointer: Pos2) -> (r: CropRect)
    requires
        frame_ok(frame),
        c.bounded(SESSION_LIMIT as int),
        sub_offset_ok(offset),
        pointer.ok(),
    ensures
        r == bottom_right_moved(c, frame, offset, pointer),
        r.bounded(SESSION_LIMIT as int),
        r.top == c.top && r.left == c.left,
        crop_fits(c, frame.max.x - frame.min.x, frame.max.y - frame.min.y) ==> crop_fits(
            r,
            frame.max.x - frame.min.x,
            frame.max.y - frame.min.y,
        ),
{
    let w = frame.max.x - frame.min.x;
    let h = frame.max.y - frame.min.y;
    let px = clamp_i64(pointer.x * SUBPIXEL, frame.min.x + c.left, frame.max.x);
    let py = clamp_i64(pointer.y * SUBPIXEL, frame.min.y + c.top, frame.max.y);
    let th = if c.top > 0 { c.top - h } else { -h };
    let lw = if c.left > 0 { c.left - w } else { -w };
    CropRect {
        top: c.top,
        left: c.left,
        bottom: clamp_i64(py - frame.max.y - offset.y, th, 0),
        right: clamp_i64(px - frame.max.x - offset.x, lw, 0),
    }
}

/// A committed crop in the units of a session at editing scale `s`:
/// thousandths of an editing pixel, which is `c * s` exactly.
pub open spec fn to_editing(c: CropRect, s: int) -> CropRect {
    CropRect {
        top: (c.top * s) as i64,
        left: (c.left * s) as i64,
        bottom: (c.bottom * s) as i64,
        right: (c.right * s) as i64,
    }
}

/// A session's inset back in the image's units: divided by the editing
/// scale `s`, rounded towards zero, kept within the board's reach.
pub open spec fn len_to_local(v: int, s: int) -> int {
    clamp(mul_div(v, 1, s), -COORD_LIMIT, COORD_LIMIT as int)
}

/// A session's crop back in the image's units.
pub open spec fn to_local(c: CropRect, s: int) -> CropRect {
    CropRect {
        top: len_to_local(c.top as int, s) as i64,
        left: len_to_local(c.left as int, s) as i64,
        bottom: len_to_local(c.bottom as int, s) as i64,
        right: len_to_local(c.right as int, s) as i64,
    }
}

/// A session's crop in whole viewport pixels, rounded towards zero: where
/// its handles stand.
pub open spec fn to_pixels(c: CropRect) -> CropRect {
    CropRect {
        top: mul_div(c.top as int, 1, SUBPIXEL as int) as i64,
        left: mul_div(c.left as int, 1, SUBPIXEL as int) as i64,
        bottom: mul_div(c.bottom as int, 1, SUBPIXEL as int) as i64,
        right: mul_div(c.right as int, 1, SUBPIXEL as int) as i64,
    }
}

/// `v / d`, rounded towards zero.
fn div_trunc(v: i64, d: i64) -> (r: i64)
    requires
        -SESSION_LIMIT <= v <= SESSION_LIMIT,
        1 <= d,
    ensures
        r == mul_div(v as int, 1, d as int),
        v >= 0 ==> 0 <= r <= v,
        v <= 0 ==> v <= r <= 0,
{
    assert(v * 1 == v && (-v) * 1 == -v) by (nonlinear_arith);
    if v >= 0 {
        assert(v / d <= v) by (nonlinear_arith)
            requires
                0 <= v,
                1 <= d,
        ;
        v / d
    } else {
        let m = -v;
        assert(m / d <= m) by (nonlinear_arith)
            requires
                0 <= m,
                1 <= d,
        ;
        -(m / d)
    }
}

fn crop_to_editing(c: CropRect, s: i64) -> (r: CropRect)
    requires
        c.ok(),
        1 <= s <= SCALE_LIMIT,
    ensures
        r == to_editing(c, s as int),
        r.bounded(SESSION_LIMIT as int),
{
    assert(forall|v: int| -COORD_LIMIT <= v <= COORD_LIMIT ==> -SESSION_LIMIT <= #[trigger] (v * s)
        <= SESSION_LIMIT) by (nonlinear_arith)
        requires
            1 <= s <= SCALE_LIMIT,
    ;
    CropRect { top: c.top * s, left: c.left * s, bottom: c.bottom * s, right: c.right * s }
}

fn crop_to_local(c: CropRect, s: i64) -> (r: CropRect)
    requires
        c.bounded(SESSION_LIMIT as int),
        1 <= s,
    ensures
        r == to_local(c, s as int),
        r.ok(),
{
    CropRect {
        top: clamp_i64(div_trunc(c.top, s), -COORD_LIMIT, COORD_LIMIT),
        left: clamp_i64(div_trunc(c.left, s), -COORD_LIMIT, COORD_LIMIT),
        bottom: clamp_i64(div_trunc(c.bottom, s), -COORD_LIMIT, COORD_LIMIT),
        right: clamp_i64(div_trunc(c.right, s), -COORD_LIMIT, COORD_LIMIT),
    }
}

/// A session's crop in whole viewport pixels.
pub fn crop_to_pixels(c: CropRect) -> (r: CropRect)
    requires
        c.bounded(SESSION_LIMIT as int),
    ensures
        r == to_pixels(c),
        r.bounded(SESSION_LIMIT as int / SUBPIXEL as int),
{
    assert(forall|v: int| 0 <= v <= SESSION_LIMIT ==> #[trigger] (v / 1000) <= SESSION_LIMIT / 1000)
        by (nonlinear_arith);
    CropRect {
        top: div_trunc(c.top, SUBPIXEL),
        left: div_trunc(c.left, SUBPIXEL),
        bottom: div_trunc(c.bottom, SUBPIXEL),
        right: div_trunc(c.right, SUBPIXEL),
    }
}

impl CropEvent {
    /// Whether the event begins a drag.
    pub fn is_start(&self) -> (r: bool)
        ensures
            r == self.is_start_spec(),
    {
        match self {
            CropEvent::TopLeftStart(_) | CropEvent::BottomRightStart(_) => true,
            _ => false,
        }
    }
}

/// A pointer event on the crop editor's corner handles.
#[derive(Clone, Copy, PartialEq, Eq, Structural, Debug)]
pub enum CropEvent {
    /// The pointer went down on the top-left handle.
    TopLeftStart(Pos2),
    /// The pointer moved while holding the top-left handle.
    TopLeftMove(Pos2),
    /// The pointer went down on the bottom-right handle.
    BottomRightStart(Pos2),
    /// The pointer moved while holding the bottom-right handle.
    BottomRightMove(Pos2),
    /// The pointer was released.
    Stop,
}

impl CropEvent {
    /// Whether the event begins a drag.
    pub open spec fn is_start_spec(self) -> bool {
        self is TopLeftStart || self is BottomRightStart
    }

    pub open spec fn ok(self) -> bool {
        match self {
            CropEvent::TopLeftStart(p) => p.ok(),
            CropEvent::TopLeftMove(p) => p.ok(),
            CropEvent::BottomRightStart(p) => p.ok(),
            CropEvent::BottomRightMove(p) => p.ok(),
            CropEvent::Stop => true,
        }
    }
}

/// The session's crop, the zero crop when it has none.
pub open spec fn current_crop(s: ActiveImageSettings) -> CropRect {
    crop_or_zero(s.croped_modified.current_modified)
}

/// The size of a crop session's frame at editing scale `e`.
pub open spec fn editing_frame_w(t: ImageTranforms, e: int) -> int {
    scaled_len(t.size.x as int, t.original_scale as int, e)
}

pub open spec fn editing_frame_h(t: ImageTranforms, e: int) -> int {
    scaled_len(t.size.y as int, t.original_scale as int, e)
}

/// The settings once a crop session is opened on a plot of size `plot`: the
/// committed crop (the zero crop when there is none) times the editing scale
/// is both the session's starting and current crop.
pub open spec fn crop_started(s: ActiveImageSettings, plot: Vec2) -> ActiveImageSettings {
    let e = editing_scale_of(s.transforms, plot);
    let c = to_editing(crop_or_zero(s.transforms.croped), e);
    ActiveImageSettings {
        croped_modified: CropedImageModified {
            is_modifying: true,
            max_scale: e as i64,
            crop_drag_state: CropImageDragState {
                is_dragging: false,
                drag_pos: Pos2 { x: 0, y: 0 },
                drag_offset: Vec2 { x: 0, y: 0 },
            },
            prev_modified: Some(c),
            current_modified: Some(c),
            dest_modified: None,
        },
        ..s
    }
}

/// The settings after one handle event in a frame `frame`, given in
/// thousandths of a pixel as the session's crop is. A drag begins by
/// recording where its handle stands (the crop fitted to the frame) and how
/// far the pointer is from it; each move then moves that handle alone.
pub open spec fn crop_after_event(s: ActiveImageSettings, frame: Rect, e: CropEvent) -> ActiveImageSettings {
    let m = s.croped_modified;
    let w = frame.max.x - frame.min.x;
    let h = frame.max.y - frame.min.y;
    let c = current_crop(s);
    let f = fitted(c, w, h);
    let d = m.crop_drag_state;
    match e {
        CropEvent::TopLeftStart(p) => {
            let at = Pos2 { x: (frame.min.x + f.left) as i64, y: (frame.min.y + f.top) as i64 };
            let st = CropImageDragState {
                is_dragging: true,
                drag_pos: at,
                drag_offset: Vec2 {
                    x: (p.x * SUBPIXEL - at.x) as i64,
                    y: (p.y * SUBPIXEL - at.y) as i64,
                },
            };
            ActiveImageSettings {
                croped_modified: CropedImageModified { crop_drag_state: st, ..m },
                ..s
            }
        },
        CropEvent::BottomRightStart(p) => {
            let at = Pos2 { x: (frame.max.x + f.right) as i64, y: (frame.max.y + f.bottom) as i64 };
            let st = CropImageDragState {
                is_dragging: true,
                drag_pos: at,
                drag_offset: Vec2 {
                    x: (p.x * SUBPIXEL - at.x) as i64,
                    y: (p.y * SUBPIXEL - at.y) as i64,
                },
            };
            ActiveImageSettings {
                croped_modified: CropedImageModified { crop_drag_state: st, ..m },
                ..s
            }
        },
        CropEvent::TopLeftMove(p) => {
            if d.is_dragging {
                ActiveImageSettings {
                    croped_modified: CropedImageModified {
                        current_modified: Some(top_left_moved(c, frame, d.drag_offset, p)),
                        ..m
                    },
                    ..s
                }
            } else {
                s
            }
        },
        CropEvent::BottomRightMove(p) => {
            if d.is_dragging {
                ActiveImageSettings {
                    croped_modified: CropedImageModified {
                        current_modified: Some(bottom_right_moved(c, frame, d.drag_offset, p)),
                        ..m
                    },
                    ..s
                }
            } else {
                s
            }
        },
        CropEvent::Stop => ActiveImageSettings {
            croped_modified: CropedImageModified {
                crop_drag_state: CropImageDragState { is_dragging: false, ..d },
                ..m
            },
            ..s
        },
    }
}

/// The settings after a sequence of handle events, in order.
pub open spec fn crop_after_events(
    s: ActiveImageSettings,
    frame: Rect,
    es: Seq<CropEvent>,
) -> ActiveImageSettings
    decreases es.len(),
{
    if es.len() == 0 {
        s
    } else {
        crop_after_events(crop_after_event(s, frame, es[0]), frame, es.drop_first())
    }
}

/// The settings once the session is applied: its crop, divided by the
/// editing scale back into the image's units, becomes the committed crop.
pub open spec fn crop_applied(s: ActiveImageSettings) -> ActiveImageSettings {
    let m = s.croped_modified;
    let dest = match m.current_modified {
        Some(c) => Some(to_local(c, m.max_scale as int)),
        None => None,
    };
    ActiveImageSettings {
        transforms: ImageTranforms { croped: dest, ..s.transforms },
        croped_modified: CropedImageModified { is_modifying: false, dest_modified: dest, ..m },
        ..s
    }
}

/// The settings once the session is cancelled: only the session closes.
pub open spec fn crop_cancelled(s: ActiveImageSettings) -> ActiveImageSettings {
    ActiveImageSettings {
        croped_modified: CropedImageModified { is_modifying: false, ..s.croped_modified },
        ..s
    }
}

/// The settings once the session is reset to the crop it started with.
pub open spec fn crop_reset(s: ActiveImageSettings) -> ActiveImageSettings {
    ActiveImageSettings {
        croped_modified: CropedImageModified {
            current_modified: s.croped_modified.prev_modified,
            ..s.croped_modified
        },
        ..s
    }
}

impl ActiveImageSettings {
    /// Opens a crop session on the selected image for a plot of size `plot_size`.
    pub fn start_crop(&mut self, plot_size: Vec2)
        requires
            old(self).wf(),
            0 <= plot_size.x <= 2 * COORD_LIMIT,
            0 <= plot_size.y <= 2 * COORD_LIMIT,
        ensures
            *final(self) == crop_started(*old(self), plot_size),
            final(self).wf(),
    {
        let e = editing_scale(&self.transforms, plot_size);
        let committed = match self.transforms.croped {
            Some(c) => c,
            None => CropRect::default(),
        };
        let c = crop_to_editing(committed, e);
        self.croped_modified = CropedImageModified {
            is_modifying: true,
            max_scale: e,
            crop_drag_state: CropImageDragState::default(),
            prev_modified: Some(c),
            current_modified: Some(c),
            dest_modified: None,
        };
    }

    /// Handles one pointer event on the crop handles of frame `frame`, the
    /// rectangle the image fills in the crop editor in thousandths of a pixel.
    /// A move of one handle leaves the other handle's insets as they were.
    pub fn crop_event(&mut self, frame: Rect, event: CropEvent)
        requires
            old(self).wf(),
            frame_ok(frame),
            event.ok(),
        ensures
            *final(self) == crop_after_event(*old(self), frame, event),
            final(self).wf(),
            old(self).croped_modified.crop_drag_state.is_dragging ==> match event {
                CropEvent::TopLeftMove(_) => {
                    &&& current_crop(*final(self)).bottom == current_crop(*old(self)).bottom
                    &&& current_crop(*final(self)).right == current_crop(*old(self)).right
                },
                CropEvent::BottomRightMove(_) => {
                    &&& current_crop(*final(self)).top == current_crop(*old(self)).top
                    &&& current_crop(*final(self)).left == current_crop(*old(self)).left
                },
                _ => current_crop(*final(self)) == current_crop(*old(self)),
            },
            !old(self).croped_modified.crop_drag_state.is_dragging ==> current_crop(*final(self))
                == current_crop(*old(self)),
    {
        let c = match self.croped_modified.current_modified {
            Some(c) => c,
            None => CropRect::default(),
        };
        let w = frame.max.x - frame.min.x;
        let h = frame.max.y - frame.min.y;
        let f = fit_crop(c, w, h);
        match event {
            CropEvent::TopLeftStart(p) => {
                let at = Pos2 { x: frame.min.x + f.left, y: frame.min.y + f.top };
                self.croped_modified.crop_drag_state = CropImageDragState {
                    is_dragging: true,
                    drag_pos: at,
                    drag_offset: Vec2 { x: p.x * SUBPIXEL - at.x, y: p.y * SUBPIXEL - at.y },
                };
            },
            CropEvent::BottomRightStart(p) => {
                let at = Pos2 { x: frame.max.x + f.right, y: frame.max.y + f.bottom };
                self.croped_modified.crop_drag_state = CropImageDragState {
                    is_dragging: true,
                    drag_pos: at,
                    drag_offset: Vec2 { x: p.x * SUBPIXEL - at.x, y: p.y * SUBPIXEL - at.y },
                };
            },
            CropEvent::TopLeftMove(p) => {
                if self.croped_modified.crop_drag_state.is_dragging {
                    let n = move_top_left(c, frame, self.croped_modified.crop_drag_state.drag_offset, p);
                    self.croped_modified.current_modified = Some(n);
                }
            },
            CropEvent::BottomRightMove(p) => {
                if self.croped_modified.crop_drag_state.is_dragging {
                    let n = move_bottom_right(c, frame, self.croped_modified.crop_drag_state.drag_offset, p);
                    self.croped_modified.current_modified = Some(n);
                }
            },
            CropEvent::Stop => {
                self.croped_modified.crop_drag_state.is_dragging = false;
            },
        }
    }

    /// Closes the crop session and commits its crop to the selected image.
    pub fn apply_crop(&mut self)
        requires
            old(self).wf(),
        ensures
            *final(self) == crop_applied(*old(self)),
            final(self).wf(),
    {
        let dest = match self.croped_modified.current_modified {
            Some(c) => Some(crop_to_local(c, self.croped_modified.max_scale)),
            None => None,
        };
        self.croped_modified.is_modifying = false;
        self.croped_modified.dest_modified = dest;
        self.transforms.croped = dest;
    }

    /// Closes the crop session, leaving the committed crop as it was.
    pub fn cancel_crop(&mut self)
        requires
            old(self).wf(),
        ensures
            *final(self) == crop_cancelled(*old(self)),
            final(self).wf(),
    {
        self.croped_modified.is_modifying = false;
    }

    /// Puts the session's crop back to the one it started with.
    pub fn reset_crop(&mut self)
        requires
            old(self).wf(),
        ensures
            *final(self) == crop_reset(*old(self)),
            final(self).wf(),
    {
        self.croped_modified.current_modified = self.croped_modified.prev_modified;
    }
}

proof fn lemma_len_round_trip(v: int, e: int)
    requires
        -COORD_LIMIT <= v <= COORD_LIMIT,
        1 <= e,
    ensures
        len_to_local(v * e, e) == v,
{
    if v >= 0 {
        assert(v * e >= 0 && (v * e * 1) / e == v) by (nonlinear_arith)
            requires
                0 <= v,
                1 <= e,
        ;
    } else {
        assert(v * e < 0 && ((-(v * e)) * 1) / e == -v) by (nonlinear_arith)
            requires
                v < 0,
                1 <= e,
        ;
    }
}

/// However the handles are dragged, the crop keeps fitting its frame: the
/// top-left handle never passes the bottom-right one on either axis.
pub proof fn lemma_crop_handles_never_cross(
    s: ActiveImageSettings,
    frame: Rect,
    es: Seq<CropEvent>,
)
    requires
        frame_ok(frame),
        crop_fits(current_crop(s), frame.max.x - frame.min.x, frame.max.y - frame.min.y),
    ensures
        ({
            let c = current_crop(crop_after_events(s, frame, es));
            &&& crop_fits(c, frame.max.x - frame.min.x, frame.max.y - frame.min.y)
            &&& frame.min.x + c.left <= frame.max.x + c.right
            &&& frame.min.y + c.top <= frame.max.y + c.bottom
        }),
    decreases es.len(),
{
    if es.len() > 0 {
        lemma_crop_handles_never_cross(crop_after_event(s, frame, es[0]), frame, es.drop_first());
    }
}

proof fn lemma_events_keep_transform(s: ActiveImageSettings, frame: Rect, es: Seq<CropEvent>)
    ensures
        crop_after_events(s, frame, es).transforms == s.transforms,
        crop_after_events(s, frame, es).croped_modified.max_scale == s.croped_modified.max_scale,
        s.croped_modified.current_modified.is_some()
            ==> crop_after_events(s, frame, es).croped_modified.current_modified.is_some(),
    decreases es.len(),
{
    if es.len() > 0 {
        lemma_events_keep_transform(crop_after_event(s, frame, es[0]), frame, es.drop_first());
    }
}

/// Opening a crop session, dragging its handles in any way and cancelling
/// it leaves the image's transform, committed crop included, exactly as it was.
pub proof fn lemma_cancel_keeps_committed_crop(
    s: ActiveImageSettings,
    plot: Vec2,
    frame: Rect,
    es: Seq<CropEvent>,
)
    ensures
        crop_cancelled(crop_after_events(crop_started(s, plot), frame, es)).transforms
            == s.transforms,
        crop_cancelled(crop_after_events(crop_started(s, plot), frame, es)).transforms.croped
            == s.transforms.croped,
{
    lemma_events_keep_transform(crop_started(s, plot), frame, es);
}

/// Opening a crop session on a committed crop `c` and applying it without
/// touching the handles commits `c` again, exactly; with no committed crop,
/// it commits the zero crop.
pub proof fn lemma_crop_round_trip(s: ActiveImageSettings, plot: Vec2)
    requires
        s.transforms.wf(),
    ensures
        s.transforms.croped.is_some() ==> crop_applied(crop_started(s, plot)).transforms.croped
            == s.transforms.croped,
        s.transforms.croped.is_none() ==> crop_applied(crop_started(s, plot)).transforms.croped
            == Some(CropRect { top: 0, left: 0, bottom: 0, right: 0 }),
        crop_applied(crop_started(s, plot)).transforms == (ImageTranforms {
            croped: crop_applied(crop_started(s, plot)).transforms.croped,
            ..s.transforms
        }),
{
    let e = editing_scale_of(s.transforms, plot);
    let c = crop_or_zero(s.transforms.croped);
    assert(1 <= e <= SCALE_LIMIT);
    assert(forall|v: int| -COORD_LIMIT <= v <= COORD_LIMIT ==> -SESSION_LIMIT <= #[trigger] (v * e)
        <= SESSION_LIMIT) by (nonlinear_arith)
        requires
            1 <= e <= SCALE_LIMIT,
    ;
    lemma_len_round_trip(c.top as int, e);
    lemma_len_round_trip(c.left as int, e);
    lemma_len_round_trip(c.bottom as int, e);
    lemma_len_round_trip(c.right as int, e);
    assert(to_local(to_editing(c, e), e) == c);
}

/// The size, in thousandths of a pixel, of the frame an image of transform
/// `t` fills at editing scale `e`.
pub open spec fn editing_subframe_w(t: ImageTranforms, e: int) -> int {
    t.size.x * t.original_scale * e / (SCALE_UNIT as int)
}

pub open spec fn editing_subframe_h(t: ImageTranforms, e: int) -> int {
    t.size.y * t.original_scale * e / (SCALE_UNIT as int)
}

proof fn lemma_insets_scale_within(a: int, b: int, len: int, o: int, e: int)
    requires
        0 <= a,
        0 <= b,
        0 <= len,
        0 <= o,
        1 <= e,
        a + b <= scaled_len(len, o, SCALE_UNIT as int),
    ensures
        a * e + b * e <= len * o * e / 1000,
{
    let l = len * o;
    assert(len * o * 1000 == l * 1000 && len * o * e == l * e) by (nonlinear_arith)
        requires
            l == len * o,
    ;
    assert(0 <= l) by (nonlinear_arith)
        requires
            l == len * o,
            0 <= len,
            0 <= o,
    ;
    let h1 = l * 1000 / 1000000;
    assert(h1 * 1000000 <= l * 1000) by (nonlinear_arith)
        requires
            h1 == l * 1000 / 1000000,
            0 <= l,
    ;
    assert((a + b) * e * 1000 <= l * e) by (nonlinear_arith)
        requires
            a + b <= h1,
            h1 * 1000000 <= l * 1000,
            0 <= a + b,
            1 <= e,
    ;
    assert(a * e + b * e <= l * e / 1000) by (nonlinear_arith)
        requires
            (a + b) * e * 1000 <= l * e,
    ;
}

proof fn lemma_insets_unscale_within(a: int, b: int, len: int, o: int, e: int)
    requires
        0 <= a,
        0 <= b,
        0 <= len,
        0 <= o,
        1 <= e,
        a + b <= len * o * e / 1000,
    ensures
        a * 1 / e + b * 1 / e <= scaled_len(len, o, SCALE_UNIT as int),
{
    let l = len * o;
    assert(len * o * 1000 == l * 1000 && len * o * e == l * e) by (nonlinear_arith)
        requires
            l == len * o,
    ;
    assert(0 <= l) by (nonlinear_arith)
        requires
            l == len * o,
            0 <= len,
            0 <= o,
    ;
    let he = l * e / 1000;
    let fa = a * 1 / e;
    let fb = b * 1 / e;
    assert(he * 1000 <= l * e) by (nonlinear_arith)
        requires
            he == l * e / 1000,
            0 <= l,
            1 <= e,
    ;
    assert(fa * e <= a && fb * e <= b && 0 <= fa && 0 <= fb && (fa + fb) * e <= a + b)
        by (nonlinear_arith)
        requires
            fa == a * 1 / e,
            fb == b * 1 / e,
            0 <= a,
            0 <= b,
            1 <= e,
    ;
    assert((fa + fb) * 1000000 <= l * 1000) by (nonlinear_arith)
        requires
            (fa + fb) * e <= a + b,
            a + b <= he,
            he * 1000 <= l * e,
            1 <= e,
            0 <= fa + fb,
    ;
    assert(fa + fb <= l * 1000 / 1000000) by (nonlinear_arith)
        requires
            (fa + fb) * 1000000 <= l * 1000,
    ;
}

/// A whole crop session, opened on a committed crop that lies inside the
/// image (or on none), with its handles dragged in any way in the frame the
/// image fills at the editing scale, commits on apply a crop that lies
/// inside the image.
pub proof fn lemma_session_commits_crop_inside_image(
    s: ActiveImageSettings,
    plot: Vec2,
    frame: Rect,
    es: Seq<CropEvent>,
)
    requires
        s.transforms.wf(),
        frame_ok(frame),
        frame.max.x - frame.min.x == editing_subframe_w(s.transforms, editing_scale_of(s.transforms, plot)),
        frame.max.y - frame.min.y == editing_subframe_h(s.transforms, editing_scale_of(s.transforms, plot)),
        crop_fits(
            crop_or_zero(s.transforms.croped),
            editing_frame_w(s.transforms, SCALE_UNIT as int),
            editing_frame_h(s.transforms, SCALE_UNIT as int),
        ),
    ensures
        ({
            let r = crop_applied(crop_after_events(crop_started(s, plot), frame, es)).transforms;
            &&& r.croped.is_some()
            &&& crop_fits(
                r.croped.unwrap(),
                editing_frame_w(s.transforms, SCALE_UNIT as int),
                editing_frame_h(s.transforms, SCALE_UNIT as int),
            )
        }),
{
    let e = editing_scale_of(s.transforms, plot);
    let t = s.transforms;
    let c = crop_or_zero(t.croped);
    let st = crop_started(s, plot);
    assert(1 <= e <= SCALE_LIMIT);
    assert(forall|v: int| 0 <= v ==> 0 <= #[trigger] (v * e)) by (nonlinear_arith)
        requires
            1 <= e,
    ;
    assert(forall|v: int| v <= 0 ==> #[trigger] (v * e) <= 0) by (nonlinear_arith)
        requires
            1 <= e,
    ;
    assert(forall|v: int| #[trigger] ((-v) * e) == -(v * e)) by (nonlinear_arith);
    assert(forall|v: int| -COORD_LIMIT <= v <= COORD_LIMIT ==> -SESSION_LIMIT <= #[trigger] (v * e)
        <= SESSION_LIMIT) by (nonlinear_arith)
        requires
            1 <= e <= SCALE_LIMIT,
    ;
    lemma_insets_scale_within(c.top as int, -c.bottom, t.size.y as int, t.original_scale as int, e);
    lemma_insets_scale_within(c.left as int, -c.right, t.size.x as int, t.original_scale as int, e);
    assert(crop_fits(current_crop(st), frame.max.x - frame.min.x, frame.max.y - frame.min.y));
    lemma_crop_handles_never_cross(st, frame, es);
    lemma_events_keep_transform(st, frame, es);
    let r = crop_after_events(st, frame, es);
    let n = current_crop(r);
    assert(forall|v: int| #[trigger] ((-v) * 1) == -v) by (nonlinear_arith);
    assert(forall|v: int| 0 <= v ==> 0 <= #[trigger] (v * 1 / e)) by (nonlinear_arith)
        requires
            1 <= e,
    ;
    lemma_insets_unscale_within(n.top as int, -n.bottom, t.size.y as int, t.original_scale as int, e);
    lemma_insets_unscale_within(n.left as int, -n.right, t.size.x as int, t.original_scale as int, e);
}

} // verus!
