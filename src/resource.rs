//! The records the board keeps per image and per interaction.
use vstd::prelude::*;
use crate::geometry::{coord_ok, offset_ok, Pos2, Rect, Vec2, COORD_LIMIT};

verus! {

/// One in fixed-point scale factors and opacities: `1000` stands for `1.0`.
pub const SCALE_UNIT: i64 = 1000;

/// Largest scale factor, in thousandths.
pub const SCALE_LIMIT: i64 = 1048576;

/// Thousandths of an editing pixel in one editing pixel: the unit of a crop
/// session's insets.
pub const SUBPIXEL: i64 = 1000;

/// Largest magnitude of a crop session's inset, in thousandths of a pixel.
pub const SESSION_LIMIT: i64 = 1152921504606846976;

/// The board's reach in thousandths of a pixel: `COORD_LIMIT * SUBPIXEL`.
pub const SUB_REACH: i64 = 1099511627776000;

/// A drag offset in thousandths of a pixel, within reach of the board.
pub open spec fn sub_offset_ok(v: Vec2) -> bool {
    -8 * SUB_REACH <= v.x <= 8 * SUB_REACH && -8 * SUB_REACH <= v.y <= 8 * SUB_REACH
}

/// Largest width or height of a bitmap, in pixels.
pub const DIM_LIMIT: i64 = 65536;

/// Crop insets: `top`/`left` pull the top-left corner inwards (`>= 0`),
/// `bottom`/`right` pull the bottom-right corner inwards (`<= 0`).
#[derive(Clone, Copy, PartialEq, Eq, Structural, Debug, Hash)]
pub struct CropRect {
    pub top: i64,
    pub left: i64,
    pub bottom: i64,
    pub right: i64,
}

impl CropRect {
    pub open spec fn ok(self) -> bool {
        coord_ok(self.top as int) && coord_ok(self.left as int) && coord_ok(self.bottom as int)
            && coord_ok(self.right as int)
    }

    /// Every inset of magnitude at most `m`.
    pub open spec fn bounded(self, m: int) -> bool {
        &&& -m <= self.top <= m
        &&& -m <= self.left <= m
        &&& -m <= self.bottom <= m
        &&& -m <= self.right <= m
    }

    pub open spec fn is_zero(self) -> bool {
        self.top == 0 && self.left == 0 && self.bottom == 0 && self.right == 0
    }
}

impl Default for CropRect {
    fn default() -> (r: CropRect)
        ensures
            r.is_zero(),
    {
        CropRect { top: 0, left: 0, bottom: 0, right: 0 }
    }
}

/// A committed crop, or none (the zero crop).
pub open spec fn crop_or_zero(c: Option<CropRect>) -> CropRect {
    match c {
        Some(r) => r,
        None => CropRect { top: 0, left: 0, bottom: 0, right: 0 },
    }
}

/// How one image is placed on the board.
///
/// `scale` multiplies `original_scale`, the fit-to-board factor fixed at import;
/// both are in thousandths. `pos` is the pan offset from the viewport's center,
/// `opacity` runs from `0` to `SCALE_UNIT`, `croped` is the committed crop in
/// the image's units at `scale == SCALE_UNIT`, `size` the bitmap's pixel size.
#[derive(Clone, Copy, PartialEq, Eq, Structural, Debug, Hash)]
pub struct ImageTranforms {
    pub scale: i64,
    pub original_scale: i64,
    pub pos: Pos2,
    pub rotation: i64,
    pub opacity: i64,
    pub croped: Option<CropRect>,
    pub size: Vec2,
}

impl ImageTranforms {
    pub open spec fn wf(self) -> bool {
        &&& 0 <= self.scale <= SCALE_LIMIT
        &&& 0 <= self.original_scale <= SCALE_LIMIT
        &&& self.pos.ok()
        &&& 0 <= self.opacity <= SCALE_UNIT
        &&& 0 <= self.size.x <= DIM_LIMIT
        &&& 0 <= self.size.y <= DIM_LIMIT
        &&& crop_or_zero(self.croped).ok()
    }
}

impl Default for ImageTranforms {
    fn default() -> (r: ImageTranforms)
        ensures
            r.scale == SCALE_UNIT,
            r.original_scale == SCALE_UNIT,
            r.pos == (Pos2 { x: 0, y: 0 }),
            r.rotation == 0,
            r.opacity == SCALE_UNIT,
            r.croped.is_none(),
            r.size == (Vec2 { x: 0, y: 0 }),
            r.wf(),
    {
        ImageTranforms {
            scale: SCALE_UNIT,
            original_scale: SCALE_UNIT,
            pos: Pos2 { x: 0, y: 0 },
            rotation: 0,
            opacity: SCALE_UNIT,
            croped: None,
            size: Vec2 { x: 0, y: 0 },
        }
    }
}

/// A normalised texture rectangle: each coordinate is a fraction whose
/// numerator stands in `min` or `max` and whose denominator stands in `den`
/// (`min.x / den.x`, ...).
#[derive(Clone, Copy, PartialEq, Eq, Structural, Debug, Hash)]
pub struct UvRect {
    pub min: Pos2,
    pub max: Pos2,
    pub den: Vec2,
}

impl UvRect {
    /// Every coordinate within `[0, 1]`.
    pub open spec fn wf(self) -> bool {
        &&& self.den.x > 0
        &&& self.den.y > 0
        &&& 0 <= self.min.x <= self.den.x
        &&& 0 <= self.min.y <= self.den.y
        &&& 0 <= self.max.x <= self.den.x
        &&& 0 <= self.max.y <= self.den.y
    }

    /// `[(0, 0) - (1, 1)]`, the whole texture.
    pub fn full() -> (r: UvRect)
        ensures
            r.wf(),
            r.min == (Pos2 { x: 0, y: 0 }),
            r.max == (Pos2 { x: 1, y: 1 }),
            r.den == (Vec2 { x: 1, y: 1 }),
    {
        UvRect { min: Pos2 { x: 0, y: 0 }, max: Pos2 { x: 1, y: 1 }, den: Vec2 { x: 1, y: 1 } }
    }
}

/// What was last sampled of an image's texture.
#[derive(Clone, Copy, PartialEq, Eq, Structural, Debug, Hash)]
pub struct ImageProps {
    pub uv_rect: UvRect,
}

impl Default for ImageProps {
    fn default() -> (r: ImageProps)
        ensures
            r.uv_rect.wf(),
            r.uv_rect.min == (Pos2 { x: 0, y: 0 }),
            r.uv_rect.max.x == r.uv_rect.den.x,
            r.uv_rect.max.y == r.uv_rect.den.y,
    {
        ImageProps { uv_rect: UvRect::full() }
    }
}

/// The selected image, by the id of its texture.
#[derive(Clone, Copy, PartialEq, Eq, Structural, Debug, Hash)]
pub struct ActiveImage {
    pub id: u64,
}

impl ActiveImage {
    pub fn new(id: u64) -> (r: ActiveImage)
        ensures
            r.id == id,
    {
        ActiveImage { id }
    }

    pub fn get_texture_id(&self) -> (r: u64)
        ensures
            r == self.id,
    {
        self.id
    }
}

/// One image on the board: the id of its texture, its pixel size, how it is
/// placed and what was last sampled of it.
#[derive(Clone, Copy, PartialEq, Eq, Structural, Debug, Hash)]
pub struct OutputTexture {
    pub id: u64,
    pub is_active: bool,
    pub transform: ImageTranforms,
    pub image_props: ImageProps,
}

impl Default for OutputTexture {
    fn default() -> (r: OutputTexture)
        ensures
            r.id == 0,
            r.is_active,
            r.transform.wf(),
            r.transform.scale == SCALE_UNIT,
            r.transform.croped.is_none(),
            r.image_props.uv_rect.wf(),
    {
        OutputTexture {
            id: 0,
            is_active: true,
            transform: ImageTranforms::default(),
            image_props: ImageProps::default(),
        }
    }
}

/// A thumbnail slot in the image list.
#[derive(Clone, Copy, PartialEq, Eq, Structural, Debug, Hash)]
pub struct ImagePreviewPad {
    pub width: i64,
    pub height: i64,
    pub texture: OutputTexture,
}

impl Default for ImagePreviewPad {
    fn default() -> (r: ImagePreviewPad)
        ensures
            r.width == 50,
            r.height == 40,
            r.texture.id == 0,
    {
        ImagePreviewPad { width: 50, height: 40, texture: OutputTexture::default() }
    }
}

/// The board's viewport and the state of its edge-resize drags.
#[derive(Clone, Copy, PartialEq, Eq, Structural, Debug, Hash)]
pub struct MainImageRectSetting {
    pub is_dragging: bool,
    pub image_plot_rect: Rect,
    pub right_side_drag_pos: Pos2,
    pub right_side_drag_offset: i64,
    pub bottom_side_drag_pos: Pos2,
    pub bottom_side_drag_offset: i64,
}

impl MainImageRectSetting {
    pub open spec fn wf(self) -> bool {
        &&& self.image_plot_rect.wf()
        &&& -2 * COORD_LIMIT <= self.right_side_drag_offset <= 2 * COORD_LIMIT
        &&& -2 * COORD_LIMIT <= self.bottom_side_drag_offset <= 2 * COORD_LIMIT
    }
}

impl Default for MainImageRectSetting {
    /// A 1000 by 600 viewport whose top-left corner is at `(10, 30)`.
    fn default() -> (r: MainImageRectSetting)
        ensures
            r.wf(),
            !r.is_dragging,
            r.image_plot_rect == (Rect { min: Pos2 { x: 10, y: 30 }, max: Pos2 { x: 1010, y: 630 } }),
    {
        MainImageRectSetting {
            is_dragging: false,
            image_plot_rect: Rect { min: Pos2 { x: 10, y: 30 }, max: Pos2 { x: 1010, y: 630 } },
            right_side_drag_pos: Pos2 { x: 0, y: 0 },
            right_side_drag_offset: 0,
            bottom_side_drag_pos: Pos2 { x: 0, y: 0 },
            bottom_side_drag_offset: 0,
        }
    }
}

/// A drag of a crop handle: where the handle was when the drag began and how
/// far the pointer was from it, in thousandths of a pixel.
#[derive(Clone, Copy, PartialEq, Eq, Structural, Debug, Hash)]
pub struct CropImageDragState {
    pub is_dragging: bool,
    pub drag_pos: Pos2,
    pub drag_offset: Vec2,
}

impl Default for CropImageDragState {
    fn default() -> (r: CropImageDragState)
        ensures
            !r.is_dragging,
            r.drag_pos == (Pos2 { x: 0, y: 0 }),
            r.drag_offset == (Vec2 { x: 0, y: 0 }),
    {
        CropImageDragState {
            is_dragging: false,
            drag_pos: Pos2 { x: 0, y: 0 },
            drag_offset: Vec2 { x: 0, y: 0 },
        }
    }
}

/// A crop session. `max_scale` is the editing scale (thousandths, relative to
/// the image at `scale == SCALE_UNIT`); `prev_modified` and `current_modified`
/// are in thousandths of a viewport pixel at that scale (`SUBPIXEL`), so that
/// a committed crop converts to them and back exactly; `dest_modified` is the
/// crop handed back to the image on apply, in the image's units.
#[derive(Clone, Copy, PartialEq, Eq, Structural, Debug, Hash)]
pub struct CropedImageModified {
    pub is_modifying: bool,
    pub max_scale: i64,
    pub crop_drag_state: CropImageDragState,
    pub prev_modified: Option<CropRect>,
    pub current_modified: Option<CropRect>,
    pub dest_modified: Option<CropRect>,
}

impl CropedImageModified {
    pub open spec fn wf(self) -> bool {
        &&& 1 <= self.max_scale <= SCALE_LIMIT
        &&& sub_offset_ok(self.crop_drag_state.drag_offset)
        &&& crop_or_zero(self.prev_modified).bounded(SESSION_LIMIT as int)
        &&& crop_or_zero(self.current_modified).bounded(SESSION_LIMIT as int)
    }
}

impl Default for CropedImageModified {
    fn default() -> (r: CropedImageModified)
        ensures
            r.wf(),
            !r.is_modifying,
            r.max_scale == SCALE_UNIT,
            r.crop_drag_state == (CropImageDragState {
                is_dragging: false,
                drag_pos: Pos2 { x: 0, y: 0 },
                drag_offset: Vec2 { x: 0, y: 0 },
            }),
            r.prev_modified.is_none(),
            r.current_modified.is_none(),
            r.dest_modified.is_none(),
    {
        CropedImageModified {
            is_modifying: false,
            max_scale: SCALE_UNIT,
            crop_drag_state: CropImageDragState::default(),
            prev_modified: None,
            current_modified: None,
            dest_modified: None,
        }
    }
}

/// The settings of the selected image, edited in place and copied to it.
#[derive(Clone, Copy, PartialEq, Eq, Structural, Debug, Hash)]
pub struct ActiveImageSettings {
    pub transforms: ImageTranforms,
    pub props: ImageProps,
    pub croped_modified: CropedImageModified,
    pub is_dragging: bool,
    pub drag_offset: Vec2,
}

impl ActiveImageSettings {
    pub open spec fn wf(self) -> bool {
        &&& self.transforms.wf()
        &&& self.croped_modified.wf()
        &&& offset_ok(self.drag_offset)
    }
}

impl Default for ActiveImageSettings {
    fn default() -> (r: ActiveImageSettings)
        ensures
            r.wf(),
            r.transforms.scale == SCALE_UNIT,
            r.transforms.croped.is_none(),
            !r.croped_modified.is_modifying,
            r.croped_modified.max_scale == SCALE_UNIT,
            !r.is_dragging,
            r.drag_offset == (Vec2 { x: 0, y: 0 }),
    {
        ActiveImageSettings {
            transforms: ImageTranforms::default(),
            props: ImageProps::default(),
            croped_modified: CropedImageModified::default(),
            is_dragging: false,
            drag_offset: Vec2 { x: 0, y: 0 },
        }
    }
}

/// A crop given by four insets, as `CropRect` is.
#[derive(Clone, Copy, PartialEq, Eq, Structural, Debug, Hash)]
pub struct CropedImage {
    pub top: i64,
    pub left: i64,
    pub bottom: i64,
    pub right: i64,
}

impl CropedImage {
    pub fn new(top: i64, left: i64, bottom: i64, right: i64) -> (r: CropedImage)
        ensures
            r == (CropedImage { top, left, bottom, right }),
    {
        CropedImage { top, left, bottom, right }
    }
}

impl Default for CropedImage {
    fn default() -> (r: CropedImage)
        ensures
            r == (CropedImage { top: 0, left: 0, bottom: 0, right: 0 }),
    {
        CropedImage { top: 0, left: 0, bottom: 0, right: 0 }
    }
}

} // verus!
