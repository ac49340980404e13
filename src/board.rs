//! The board's state: the images, the selected one, the viewport, and the
//! pointer interactions that change them.
use vstd::prelude::*;
use crate::crop::{
    calc_orignal_scale, crop_after_event, crop_applied, crop_cancelled, crop_reset,
    crop_started, crop_to_pixels, editing_subframe_h, editing_subframe_w, fit_scale, scale_sub_len,
    to_pixels, CropEvent, IMPORT_FIT,
};
use crate::geometry::{clamp, clamp_i64, clamp_up, clamp_up_i64, Pos2, Rect, Vec2, COORD_LIMIT};
use crate::mapper::{
    board_placement, crop_preview_placement, placed_in_editor, placed_on_board, scaled_len,
    INSET_LIMIT,
    Placement,
};
use crate::reorder::{sort_after_event, ImageSortingModify, SortEvent, SORT_LIMIT};
use crate::resource::{
    crop_or_zero, ActiveImage, ActiveImageSettings, CropRect, CropedImageModified, ImageProps,
    ImagePreviewPad, ImageTranforms, MainImageRectSetting, OutputTexture, UvRect, DIM_LIMIT,
    SCALE_LIMIT, SCALE_UNIT, SUBPIXEL,
};

verus! {

/// Which fields of the selected image's settings are copied to it.
#[derive(Clone, Copy, PartialEq, Eq, Structural, Debug)]
pub enum SyncKind {
    /// The pan offset.
    Position,
    /// Scale, opacity, rotation and pan offset.
    Live,
    /// The committed crop.
    Crop,
}

/// `t` with the fields of kind `k` taken from `from`.
pub open spec fn synced(t: ImageTranforms, from: ImageTranforms, k: SyncKind) -> ImageTranforms {
    match k {
        SyncKind::Position => ImageTranforms { pos: from.pos, ..t },
        SyncKind::Live => ImageTranforms {
            scale: from.scale,
            opacity: from.opacity,
            rotation: from.rotation,
            pos: from.pos,
            ..t
        },
        SyncKind::Crop => ImageTranforms { croped: from.croped, ..t },
    }
}

/// The kinds of pointer drag on the board; only one may be held at a time.
#[derive(Clone, Copy, PartialEq, Eq, Structural, Debug)]
pub enum DragKind {
    Pan,
    Resize,
    Crop,
    Sort,
}

/// A pointer event on an image on the board.
#[derive(Clone, Copy, PartialEq, Eq, Structural, Debug)]
pub enum PanEvent {
    Click,
    DragStart(Pos2),
    DragMove(Pos2),
    DragStop,
}

/// A pointer event on the viewport's right or bottom edge.
#[derive(Clone, Copy, PartialEq, Eq, Structural, Debug)]
pub enum ResizeEvent {
    RightStart(Pos2),
    RightMove(Pos2),
    RightStop,
    BottomStart(Pos2),
    BottomMove(Pos2),
    BottomStop,
}

/// The crop editor's two placements of the selected image: whole and faded
/// behind, cropped in front.
#[derive(Clone, Copy, PartialEq, Eq, Structural, Debug)]
pub struct CropView {
    pub background: Placement,
    pub cropped: Placement,
}

/// What the crop editor draws over the image: the crop's edges kept inside
/// the viewport, and each corner handle where it can be shown.
#[derive(Clone, Copy, PartialEq, Eq, Structural, Debug)]
pub struct CropHandles {
    pub edges: Rect,
    pub top_left: Option<Rect>,
    pub bottom_right: Option<Rect>,
}

/// The frame an image of transform `t` fills in the crop editor at editing
/// scale `e`, in thousandths of a pixel: its corner where the editor places
/// it, centered on the viewport, and its exact size at that scale.
pub open spec fn editor_frame(t: ImageTranforms, vp: Rect, e: int) -> Rect {
    let sx = scaled_len(t.size.x as int, t.original_scale as int, e);
    let sy = scaled_len(t.size.y as int, t.original_scale as int, e);
    let x = (vp.spec_center_x() - sx / 2) * SUBPIXEL;
    let y = (vp.spec_center_y() - sy / 2) * SUBPIXEL;
    Rect {
        min: Pos2 { x: x as i64, y: y as i64 },
        max: Pos2 {
            x: (x + editing_subframe_w(t, e)) as i64,
            y: (y + editing_subframe_h(t, e)) as i64,
        },
    }
}

/// Side of a crop handle.
pub const HANDLE_SIZE: i64 = 15;

/// A value kept within the board's reach.
pub open spec fn to_reach(v: int) -> int {
    clamp(v, -COORD_LIMIT, COORD_LIMIT as int)
}

/// The image an import of a `w` by `h` bitmap with texture `id` adds, fitted
/// to a plot of size `plot`.
pub open spec fn imported(id: u64, w: i64, h: i64, plot: Vec2) -> OutputTexture {
    OutputTexture {
        id,
        is_active: true,
        transform: ImageTranforms {
            scale: SCALE_UNIT,
            original_scale: fit_scale(Vec2 { x: w, y: h }, plot, IMPORT_FIT as int) as i64,
            pos: Pos2 { x: 0, y: 0 },
            rotation: 0,
            opacity: SCALE_UNIT,
            croped: None,
            size: Vec2 { x: w, y: h },
        },
        image_props: ImageProps { uv_rect: UvRect { min: Pos2 { x: 0, y: 0 }, max: Pos2 { x: 1, y: 1 }, den: Vec2 { x: 1, y: 1 } } },
    }
}

/// The settings once image `img` is selected.
pub open spec fn selected_settings(s: ActiveImageSettings, img: OutputTexture) -> ActiveImageSettings {
    ActiveImageSettings {
        transforms: img.transform,
        props: img.image_props,
        croped_modified: CropedImageModified {
            is_modifying: false,
            max_scale: SCALE_UNIT,
            crop_drag_state: crate::resource::CropImageDragState {
                is_dragging: false,
                drag_pos: Pos2 { x: 0, y: 0 },
                drag_offset: Vec2 { x: 0, y: 0 },
            },
            prev_modified: None,
            current_modified: None,
            dest_modified: None,
        },
        drag_offset: Vec2 { x: 0, y: 0 },
        ..s
    }
}

/// The settings after image `img` is clicked: it is selected unless a crop
/// session is open.
pub open spec fn after_select(s: ActiveImageSettings, img: OutputTexture) -> ActiveImageSettings {
    if s.croped_modified.is_modifying {
        s
    } else {
        selected_settings(s, img)
    }
}

/// No two images share a texture id.
pub open spec fn ids_distinct(s: Seq<OutputTexture>) -> bool {
    forall|i: int, j: int| 0 <= i < s.len() && 0 <= j < s.len() && i != j ==> #[trigger] s[i].id != #[trigger] s[j].id
}

/// A run of board states, each reached from the one before by opening a crop
/// session, handling a crop handle event, resetting or cancelling the
/// session (each of which keeps the images, as their contracts state), ends
/// with every image's committed crop exactly as it began.
pub proof fn lemma_board_cancel_keeps_crops(run: Seq<App>)
    requires
        run.len() >= 1,
        forall|k: int| 0 <= k < run.len() - 1 ==> #[trigger] run[k + 1].keeps_images(&run[k]),
    ensures
        run.last().output_textures_vec@ == run[0].output_textures_vec@,
        run.last().active_image_settings.transforms == run[0].active_image_settings.transforms,
        forall|i: int|
            0 <= i < run[0].output_textures_vec.len() ==> #[trigger] run.last().output_textures_vec[i].transform.croped
                == run[0].output_textures_vec[i].transform.croped,
    decreases run.len(),
{
    if run.len() > 1 {
        let front = run.drop_last();
        assert forall|k: int| 0 <= k < front.len() - 1 implies #[trigger] front[k + 1].keeps_images(&front[k]) by {
            assert(run[k + 1].keeps_images(&run[k]));
        }
        lemma_board_cancel_keeps_crops(front);
        let k = run.len() - 2;
        assert(run[k + 1].keeps_images(&run[k]));
    }
}

/// The board: its viewport, its images in list order (drawn last to first),
/// the selected image with the settings being edited for it, and the
/// sorting view. The selection is held by texture id and looked up afresh
/// each time it is used.
#[derive(Debug)]
pub struct App {
    pub main_image_settings: MainImageRectSetting,
    pub active_image: Option<ActiveImage>,
    pub output_textures_vec: Vec<OutputTexture>,
    pub image_preview_pads: Vec<ImagePreviewPad>,
    pub active_image_settings: ActiveImageSettings,
    pub image_sorting_modify: ImageSortingModify,
}

impl App {
    pub open spec fn wf(&self) -> bool {
        &&& self.main_image_settings.wf()
        &&& self.active_image_settings.wf()
        &&& self.image_sorting_modify.wf()
        &&& self.output_textures_vec.len() <= SORT_LIMIT
        &&& forall|i: int|
            0 <= i < self.output_textures_vec.len() ==> (#[trigger] self.output_textures_vec[i]).transform.wf()
        &&& ids_distinct(self.output_textures_vec@)
    }

    /// The viewport.
    pub open spec fn viewport(&self) -> Rect {
        self.main_image_settings.image_plot_rect
    }

    /// A drag of another kind than `k` is held.
    pub open spec fn drag_held_except(&self, k: DragKind) -> bool {
        ||| (k != DragKind::Pan && self.active_image_settings.is_dragging)
        ||| (k != DragKind::Resize && self.main_image_settings.is_dragging)
        ||| (k != DragKind::Crop && self.active_image_settings.croped_modified.crop_drag_state.is_dragging)
        ||| (k != DragKind::Sort && self.image_sorting_modify.is_draging)
    }

    /// The images, their committed crops included, and the selected image's
    /// transform are as in `o`.
    pub open spec fn keeps_images(&self, o: &App) -> bool {
        &&& self.output_textures_vec@ == o.output_textures_vec@
        &&& self.active_image_settings.transforms == o.active_image_settings.transforms
    }

    /// No image's texture is `id`.
    pub open spec fn fresh_id(&self, id: u64) -> bool {
        forall|j: int| 0 <= j < self.output_textures_vec.len() ==> self.output_textures_vec[j].id != id
    }

    /// Every part of the board is as in `o`.
    pub open spec fn same_as(&self, o: &App) -> bool {
        &&& self.main_image_settings == o.main_image_settings
        &&& self.active_image == o.active_image
        &&& self.output_textures_vec@ == o.output_textures_vec@
        &&& self.image_preview_pads@ == o.image_preview_pads@
        &&& self.active_image_settings == o.active_image_settings
        &&& self.image_sorting_modify == o.image_sorting_modify
    }

    /// Some image's texture is the selected one.
    pub open spec fn has_active_image(&self) -> bool {
        self.active_image.is_some() && exists|j: int|
            0 <= j < self.output_textures_vec.len() && #[trigger] self.output_textures_vec[j].id
                == self.active_image.unwrap().id
    }

    /// `i` is the first image whose texture is the selected one.
    pub open spec fn is_active_index(&self, i: int) -> bool {
        &&& self.active_image.is_some()
        &&& 0 <= i < self.output_textures_vec.len()
        &&& self.output_textures_vec[i].id == self.active_image.unwrap().id
        &&& forall|j: int| 0 <= j < i ==> self.output_textures_vec[j].id != self.active_image.unwrap().id
    }

    /// An empty board with the default viewport and nothing selected.
    pub fn new() -> (r: App)
        ensures
            r.wf(),
            r.output_textures_vec.len() == 0,
            r.image_preview_pads.len() == 0,
            r.active_image.is_none(),
            r.viewport() == (Rect { min: Pos2 { x: 10, y: 30 }, max: Pos2 { x: 1010, y: 630 } }),
            !r.active_image_settings.croped_modified.is_modifying,
            !r.image_sorting_modify.is_sorting,
    {
        App {
            main_image_settings: MainImageRectSetting::default(),
            active_image: None,
            output_textures_vec: Vec::new(),
            image_preview_pads: Vec::new(),
            active_image_settings: ActiveImageSettings::default(),
            image_sorting_modify: ImageSortingModify::default(),
        }
    }

    /// Adds a decoded `width` by `height` bitmap whose texture is `id`,
    /// fitted to the viewport, and selects it. A full list, or an `id`
    /// already on the board, leaves the board as it is.
    pub fn import_image(&mut self, id: u64, width: i64, height: i64)
        requires
            old(self).wf(),
            1 <= width <= DIM_LIMIT,
            1 <= height <= DIM_LIMIT,
        ensures
            final(self).wf(),
            final(self).image_sorting_modify == old(self).image_sorting_modify,
            old(self).fresh_id(id) && old(self).output_textures_vec.len() < SORT_LIMIT ==> {
                let img = imported(id, width, height, old(self).viewport().size_spec());
                &&& final(self).output_textures_vec@ == old(self).output_textures_vec@.push(img)
                &&& final(self).active_image == Some(ActiveImage { id })
                &&& final(self).active_image_settings.transforms == img.transform
                &&& !final(self).active_image_settings.croped_modified.is_modifying
                &&& final(self).image_preview_pads.len() == old(self).image_preview_pads.len() + 1
            },
            !old(self).fresh_id(id) || old(self).output_textures_vec.len() >= SORT_LIMIT
                ==> final(self).same_as(old(self)),
            final(self).main_image_settings == old(self).main_image_settings,
    {
        if self.has_image(id) {
            return;
        }
        if self.output_textures_vec.len() >= SORT_LIMIT {
            return;
        }
        let size = Vec2 { x: width, y: height };
        let plot = self.main_image_settings.image_plot_rect.size();
        let original_scale = calc_orignal_scale(size, plot);
        let transform = ImageTranforms {
            scale: SCALE_UNIT,
            original_scale,
            pos: Pos2 { x: 0, y: 0 },
            rotation: 0,
            opacity: SCALE_UNIT,
            croped: None,
            size,
        };
        let texture = OutputTexture {
            id,
            is_active: true,
            transform,
            image_props: ImageProps { uv_rect: UvRect::full() },
        };
        let mut settings = ActiveImageSettings::default();
        settings.transforms = transform;
        self.active_image_settings = settings;
        self.active_image = Some(ActiveImage::new(id));
        self.output_textures_vec.push(texture);
        self.image_preview_pads.push(ImagePreviewPad { width: 50, height: 40, texture });
    }

    /// Selects image `idx`, loading its settings; nothing while a crop
    /// session is open.
    pub fn select_image(&mut self, idx: usize)
        requires
            old(self).wf(),
            idx < old(self).output_textures_vec.len(),
        ensures
            final(self).wf(),
            final(self).image_preview_pads@ == old(self).image_preview_pads@,
            final(self).output_textures_vec@ == old(self).output_textures_vec@,
            final(self).main_image_settings == old(self).main_image_settings,
            final(self).image_sorting_modify == old(self).image_sorting_modify,
            old(self).active_image_settings.croped_modified.is_modifying ==> {
                &&& final(self).active_image == old(self).active_image
                &&& final(self).active_image_settings == old(self).active_image_settings
            },
            !old(self).active_image_settings.croped_modified.is_modifying ==> {
                &&& final(self).active_image == Some(
                    ActiveImage { id: old(self).output_textures_vec[idx as int].id },
                )
                &&& final(self).active_image_settings == selected_settings(
                    old(self).active_image_settings,
                    old(self).output_textures_vec[idx as int],
                )
            },
    {
        if self.active_image_settings.croped_modified.is_modifying {
            return;
        }
        let pick = self.output_textures_vec[idx];
        self.active_image_settings.transforms = pick.transform;
        self.active_image_settings.props = pick.image_props;
        self.active_image_settings.croped_modified = CropedImageModified::default();
        self.active_image = Some(ActiveImage::new(pick.id));
        self.active_image_settings.drag_offset = Vec2 { x: 0, y: 0 };
    }

    /// Whether some image's texture is `id`.
    pub fn has_image(&self, id: u64) -> (r: bool)
        ensures
            r == exists|j: int| 0 <= j < self.output_textures_vec.len() && #[trigger] self.output_textures_vec[j].id == id,
    {
        let mut i: usize = 0;
        while i < self.output_textures_vec.len()
            invariant
                i <= self.output_textures_vec.len(),
                forall|j: int| 0 <= j < i ==> self.output_textures_vec[j].id != id,
            decreases self.output_textures_vec.len() - i,
        {
            if self.output_textures_vec[i].id == id {
                return true;
            }
            i = i + 1;
        }
        false
    }

    /// Whether a drag of another kind than `k` is held.
    pub fn other_drag_held(&self, k: DragKind) -> (r: bool)
        ensures
            r == self.drag_held_except(k),
    {
        let pan = self.active_image_settings.is_dragging;
        let resize = self.main_image_settings.is_dragging;
        let crop = self.active_image_settings.croped_modified.crop_drag_state.is_dragging;
        let sort = self.image_sorting_modify.is_draging;
        match k {
            DragKind::Pan => resize || crop || sort,
            DragKind::Resize => pan || crop || sort,
            DragKind::Crop => pan || resize || sort,
            DragKind::Sort => pan || resize || crop,
        }
    }

    /// The index of the first image whose texture is the selected one.
    pub fn find_active(&self) -> (r: Option<usize>)
        ensures
            match r {
                Some(i) => {
                    &&& i < self.output_textures_vec.len()
                    &&& self.active_image.is_some()
                    &&& self.output_textures_vec[i as int].id == self.active_image.unwrap().id
                    &&& forall|j: int|
                        0 <= j < i ==> self.output_textures_vec[j].id != self.active_image.unwrap().id
                },
                None => self.active_image.is_none() || forall|j: int|
                    0 <= j < self.output_textures_vec.len() ==> self.output_textures_vec[j].id
                        != self.active_image.unwrap().id,
            },
    {
        match self.active_image {
            None => None,
            Some(a) => {
                let mut i: usize = 0;
                while i < self.output_textures_vec.len()
                    invariant
                        i <= self.output_textures_vec.len(),
                        self.active_image == Some(a),
                        forall|j: int| 0 <= j < i ==> self.output_textures_vec[j].id != a.id,
                    decreases self.output_textures_vec.len() - i,
                {
                    if self.output_textures_vec[i].id == a.id {
                        return Some(i);
                    }
                    i = i + 1;
                }
                None
            },
        }
    }

    /// Copies the fields of kind `k` of the selected image's settings to
    /// every image whose texture is the selected one.
    pub fn sync_active(&mut self, k: SyncKind)
        requires
            old(self).wf(),
        ensures
            final(self).wf(),
            final(self).output_textures_vec.len() == old(self).output_textures_vec.len(),
            forall|i: int|
                0 <= i < old(self).output_textures_vec.len() ==> #[trigger] final(self).output_textures_vec[i]
                    == (if old(self).active_image.is_some() && old(self).output_textures_vec[i].id
                    == old(self).active_image.unwrap().id {
                    OutputTexture {
                        transform: synced(
                            old(self).output_textures_vec[i].transform,
                            old(self).active_image_settings.transforms,
                            k,
                        ),
                        ..old(self).output_textures_vec[i]
                    }
                } else {
                    old(self).output_textures_vec[i]
                }),
            final(self).active_image == old(self).active_image,
            final(self).active_image_settings == old(self).active_image_settings,
            final(self).main_image_settings == old(self).main_image_settings,
            final(self).image_sorting_modify == old(self).image_sorting_modify,
            final(self).image_preview_pads@ == old(self).image_preview_pads@,
    {
        let a = match self.active_image {
            Some(a) => a,
            None => {
                return;
            },
        };
        let from = self.active_image_settings.transforms;
        let n = self.output_textures_vec.len();
        let mut i: usize = 0;
        while i < n
            invariant
                n == old(self).output_textures_vec.len(),
                i <= n,
                self.output_textures_vec.len() == n,
                self.active_image == old(self).active_image,
                self.active_image == Some(a),
                self.active_image_settings == old(self).active_image_settings,
                self.main_image_settings == old(self).main_image_settings,
                self.image_sorting_modify == old(self).image_sorting_modify,
                self.image_preview_pads@ == old(self).image_preview_pads@,
                from == old(self).active_image_settings.transforms,
                from.wf(),
                forall|j: int|
                    i <= j < n ==> #[trigger] self.output_textures_vec[j] == old(
                        self,
                    ).output_textures_vec[j],
                forall|j: int|
                    0 <= j < i ==> #[trigger] self.output_textures_vec[j] == (if old(
                        self,
                    ).output_textures_vec[j].id == a.id {
                        OutputTexture {
                            transform: synced(old(self).output_textures_vec[j].transform, from, k),
                            ..old(self).output_textures_vec[j]
                        }
                    } else {
                        old(self).output_textures_vec[j]
                    }),
                forall|j: int| 0 <= j < n ==> (#[trigger] old(self).output_textures_vec[j]).transform.wf(),
            decreases n - i,
        {
            let mut img = self.output_textures_vec[i];
            if img.id == a.id {
                match k {
                    SyncKind::Position => {
                        img.transform.pos = from.pos;
                    },
                    SyncKind::Live => {
                        img.transform.scale = from.scale;
                        img.transform.opacity = from.opacity;
                        img.transform.rotation = from.rotation;
                        img.transform.pos = from.pos;
                    },
                    SyncKind::Crop => {
                        img.transform.croped = from.croped;
                    },
                }
                self.output_textures_vec.set(i, img);
            }
            i = i + 1;
        }
    }
}

impl App {
    /// Places image `idx` on the board and records the texture fraction it
    /// samples there.
    pub fn draw_image_to_board(&mut self, idx: usize) -> (p: Placement)
        requires
            old(self).wf(),
            idx < old(self).output_textures_vec.len(),
        ensures
            final(self).wf(),
            final(self).image_preview_pads@ == old(self).image_preview_pads@,
            placed_on_board(p, old(self).output_textures_vec[idx as int].transform, old(self).viewport()),
            p.render.inside(old(self).viewport()),
            p.uv.wf(),
            final(self).output_textures_vec@ == old(self).output_textures_vec@.update(
                idx as int,
                OutputTexture {
                    image_props: ImageProps { uv_rect: p.uv },
                    ..old(self).output_textures_vec[idx as int]
                },
            ),
            final(self).active_image == old(self).active_image,
            final(self).active_image_settings == old(self).active_image_settings,
            final(self).main_image_settings == old(self).main_image_settings,
            final(self).image_sorting_modify == old(self).image_sorting_modify,
    {
        let mut img = self.output_textures_vec[idx];
        let p = board_placement(&img.transform, self.main_image_settings.image_plot_rect);
        img.image_props.uv_rect = p.uv;
        self.output_textures_vec.set(idx, img);
        p
    }

    /// Handles one pointer event on image `idx`: a click selects it, a drag
    /// selects it and pans it, the pointer keeping its offset from the pan
    /// position it grabbed.
    pub fn pan_event(&mut self, idx: usize, e: PanEvent)
        requires
            old(self).wf(),
            idx < old(self).output_textures_vec.len(),
            match e {
                PanEvent::DragStart(p) => p.ok(),
                PanEvent::DragMove(p) => p.ok(),
                _ => true,
            },
        ensures
            final(self).wf(),
            final(self).image_preview_pads@ == old(self).image_preview_pads@,
            final(self).image_sorting_modify == old(self).image_sorting_modify,
            final(self).main_image_settings == old(self).main_image_settings,
            final(self).output_textures_vec.len() == old(self).output_textures_vec.len(),
            final(self).active_image == match e {
                PanEvent::DragStart(_) => if old(self).active_image_settings.croped_modified.is_modifying
                    || old(self).drag_held_except(DragKind::Pan) {
                    old(self).active_image
                } else {
                    Some(ActiveImage { id: old(self).output_textures_vec[idx as int].id })
                },
                PanEvent::Click => if old(self).active_image_settings.croped_modified.is_modifying {
                    old(self).active_image
                } else {
                    Some(ActiveImage { id: old(self).output_textures_vec[idx as int].id })
                },
                _ => old(self).active_image,
            },
            match e {
                PanEvent::DragStart(p) => if old(self).drag_held_except(DragKind::Pan) {
                    final(self).same_as(old(self))
                } else {
                    let s = after_select(old(self).active_image_settings, old(self).output_textures_vec[idx as int]);
                    &&& final(self).active_image_settings == (ActiveImageSettings {
                        is_dragging: true,
                        drag_offset: Vec2 {
                            x: (p.x - s.transforms.pos.x) as i64,
                            y: (p.y - s.transforms.pos.y) as i64,
                        },
                        ..s
                    })
                    &&& final(self).output_textures_vec@ == old(self).output_textures_vec@
                },
                PanEvent::DragMove(p) => {
                    let s = old(self).active_image_settings;
                    if s.is_dragging {
                        &&& final(self).active_image_settings == (ActiveImageSettings {
                            transforms: ImageTranforms {
                                pos: Pos2 {
                                    x: to_reach(p.x - s.drag_offset.x) as i64,
                                    y: to_reach(p.y - s.drag_offset.y) as i64,
                                },
                                ..s.transforms
                            },
                            ..s
                        })
                        &&& forall|i: int|
                            0 <= i < old(self).output_textures_vec.len()
                                ==> #[trigger] final(self).output_textures_vec[i] == (if old(self).active_image.is_some()
                                && old(self).output_textures_vec[i].id == old(self).active_image.unwrap().id {
                                OutputTexture {
                                    transform: ImageTranforms {
                                        pos: final(self).active_image_settings.transforms.pos,
                                        ..old(self).output_textures_vec[i].transform
                                    },
                                    ..old(self).output_textures_vec[i]
                                }
                            } else {
                                old(self).output_textures_vec[i]
                            })
                    } else {
                        &&& final(self).active_image_settings == s
                        &&& final(self).output_textures_vec@ == old(self).output_textures_vec@
                    }
                },
                PanEvent::DragStop => {
                    &&& final(self).active_image_settings == (ActiveImageSettings {
                        is_dragging: false,
                        ..old(self).active_image_settings
                    })
                    &&& final(self).output_textures_vec@ == old(self).output_textures_vec@
                },
                PanEvent::Click => {
                    &&& final(self).active_image_settings == after_select(
                        old(self).active_image_settings,
                        old(self).output_textures_vec[idx as int],
                    )
                    &&& final(self).output_textures_vec@ == old(self).output_textures_vec@
                },
            },
    {
        match e {
            PanEvent::Click => {
                self.select_image(idx);
            },
            PanEvent::DragStart(p) => {
                if self.other_drag_held(DragKind::Pan) {
                    return;
                }
                self.select_image(idx);
                self.active_image_settings.is_dragging = true;
                let pos = self.active_image_settings.transforms.pos;
                self.active_image_settings.drag_offset = Vec2 { x: p.x - pos.x, y: p.y - pos.y };
            },
            PanEvent::DragMove(p) => {
                if self.active_image_settings.is_dragging {
                    let off = self.active_image_settings.drag_offset;
                    self.active_image_settings.transforms.pos = Pos2 {
                        x: clamp_i64(p.x - off.x, -COORD_LIMIT, COORD_LIMIT),
                        y: clamp_i64(p.y - off.y, -COORD_LIMIT, COORD_LIMIT),
                    };
                    self.sync_active(SyncKind::Position);
                }
            },
            PanEvent::DragStop => {
                self.active_image_settings.is_dragging = false;
            },
        }
    }

    /// Handles one pointer event on the viewport's right or bottom edge: the
    /// edge follows the pointer, keeping the offset it was grabbed at, and
    /// never passes the opposite edge.
    pub fn resize_event(&mut self, e: ResizeEvent)
        requires
            old(self).wf(),
            match e {
                ResizeEvent::RightStart(p) => p.ok(),
                ResizeEvent::RightMove(p) => p.ok(),
                ResizeEvent::BottomStart(p) => p.ok(),
                ResizeEvent::BottomMove(p) => p.ok(),
                _ => true,
            },
        ensures
            final(self).wf(),
            final(self).image_preview_pads@ == old(self).image_preview_pads@,
            final(self).image_sorting_modify == old(self).image_sorting_modify,
            final(self).output_textures_vec@ == old(self).output_textures_vec@,
            final(self).active_image == old(self).active_image,
            final(self).active_image_settings == old(self).active_image_settings,
            final(self).viewport().min == old(self).viewport().min,
            ({
                let m = old(self).main_image_settings;
                let v = m.image_plot_rect;
                match e {
                    ResizeEvent::RightStart(p) => if old(self).drag_held_except(DragKind::Resize) {
                        final(self).same_as(old(self))
                    } else { final(self).main_image_settings == (
                    MainImageRectSetting {
                        is_dragging: true,
                        right_side_drag_pos: v.max,
                        right_side_drag_offset: (p.x - v.max.x) as i64,
                        ..m
                    }) },
                    ResizeEvent::BottomStart(p) => if old(self).drag_held_except(DragKind::Resize) {
                        final(self).same_as(old(self))
                    } else { final(self).main_image_settings == (
                    MainImageRectSetting {
                        is_dragging: true,
                        bottom_side_drag_pos: v.max,
                        bottom_side_drag_offset: (p.y - v.max.y) as i64,
                        ..m
                    }) },
                    ResizeEvent::RightMove(p) => m.is_dragging ==> final(self).viewport().max == (Pos2 {
                        x: clamp(p.x - m.right_side_drag_offset, v.min.x as int, COORD_LIMIT as int) as i64,
                        y: v.max.y,
                    }),
                    ResizeEvent::BottomMove(p) => m.is_dragging ==> final(self).viewport().max == (Pos2 {
                        x: v.max.x,
                        y: clamp(p.y - m.bottom_side_drag_offset, v.min.y as int, COORD_LIMIT as int) as i64,
                    }),
                    _ => final(self).viewport() == v && !final(self).main_image_settings.is_dragging,
                }
            }),
            !old(self).main_image_settings.is_dragging ==> match e {
                ResizeEvent::RightMove(_) => final(self).main_image_settings == old(self).main_image_settings,
                ResizeEvent::BottomMove(_) => final(self).main_image_settings == old(self).main_image_settings,
                _ => true,
            },
    {
        let v = self.main_image_settings.image_plot_rect;
        match e {
            ResizeEvent::RightStart(p) => {
                if self.other_drag_held(DragKind::Resize) {
                    return;
                }
                self.main_image_settings.right_side_drag_pos = v.max;
                self.main_image_settings.is_dragging = true;
                self.main_image_settings.right_side_drag_offset = p.x - v.max.x;
            },
            ResizeEvent::BottomStart(p) => {
                if self.other_drag_held(DragKind::Resize) {
                    return;
                }
                self.main_image_settings.bottom_side_drag_pos = v.max;
                self.main_image_settings.is_dragging = true;
                self.main_image_settings.bottom_side_drag_offset = p.y - v.max.y;
            },
            ResizeEvent::RightMove(p) => {
                if self.main_image_settings.is_dragging {
                    let x = clamp_i64(p.x - self.main_image_settings.right_side_drag_offset, v.min.x, COORD_LIMIT);
                    self.main_image_settings.right_side_drag_pos = Pos2 { x, y: p.y };
                    self.main_image_settings.image_plot_rect.max.x = x;
                }
            },
            ResizeEvent::BottomMove(p) => {
                if self.main_image_settings.is_dragging {
                    let y = clamp_i64(p.y - self.main_image_settings.bottom_side_drag_offset, v.min.y, COORD_LIMIT);
                    self.main_image_settings.bottom_side_drag_pos = Pos2 { x: p.x, y };
                    self.main_image_settings.image_plot_rect.max.y = y;
                }
            },
            ResizeEvent::RightStop => {
                self.main_image_settings.is_dragging = false;
            },
            ResizeEvent::BottomStop => {
                self.main_image_settings.is_dragging = false;
            },
        }
    }

    /// Copies the selected image's scale, opacity, rotation and pan offset
    /// from its settings to it.
    pub fn update_images_by_active_image(&mut self)
        requires
            old(self).wf(),
        ensures
            final(self).wf(),
            final(self).image_preview_pads@ == old(self).image_preview_pads@,
            final(self).image_sorting_modify == old(self).image_sorting_modify,
            final(self).main_image_settings == old(self).main_image_settings,
            final(self).output_textures_vec.len() == old(self).output_textures_vec.len(),
            forall|i: int|
                0 <= i < old(self).output_textures_vec.len() ==> #[trigger] final(self).output_textures_vec[i]
                    == (if old(self).active_image.is_some() && old(self).output_textures_vec[i].id
                    == old(self).active_image.unwrap().id {
                    OutputTexture {
                        transform: synced(
                            old(self).output_textures_vec[i].transform,
                            old(self).active_image_settings.transforms,
                            SyncKind::Live,
                        ),
                        ..old(self).output_textures_vec[i]
                    }
                } else {
                    old(self).output_textures_vec[i]
                }),
            final(self).active_image == old(self).active_image,
            final(self).active_image_settings == old(self).active_image_settings,
    {
        self.sync_active(SyncKind::Live);
    }
}

impl App {
    /// Opens a crop session on the selected image; nothing without one.
    pub fn start_crop(&mut self)
        requires
            old(self).wf(),
        ensures
            final(self).wf(),
            final(self).keeps_images(old(self)),
            final(self).image_preview_pads@ == old(self).image_preview_pads@,
            final(self).image_sorting_modify == old(self).image_sorting_modify,
            final(self).output_textures_vec@ == old(self).output_textures_vec@,
            final(self).active_image == old(self).active_image,
            final(self).main_image_settings == old(self).main_image_settings,
            final(self).active_image_settings == if old(self).active_image.is_some() {
                crop_started(old(self).active_image_settings, old(self).viewport().size_spec())
            } else {
                old(self).active_image_settings
            },
    {
        if self.active_image.is_some() {
            let plot = self.main_image_settings.image_plot_rect.size();
            self.active_image_settings.start_crop(plot);
        }
    }

    /// Handles one pointer event on the crop handles of the selected image,
    /// in the frame it fills in the crop editor; nothing when it is not on
    /// the board.
    pub fn crop_event(&mut self, e: CropEvent)
        requires
            old(self).wf(),
            e.ok(),
        ensures
            final(self).wf(),
            final(self).keeps_images(old(self)),
            final(self).image_preview_pads@ == old(self).image_preview_pads@,
            final(self).image_sorting_modify == old(self).image_sorting_modify,
            final(self).output_textures_vec@ == old(self).output_textures_vec@,
            final(self).active_image == old(self).active_image,
            final(self).main_image_settings == old(self).main_image_settings,
            !old(self).has_active_image() ==> final(self).active_image_settings == old(self).active_image_settings,
            e.is_start_spec() && old(self).drag_held_except(DragKind::Crop) ==> final(self).same_as(old(self)),
            forall|i: int|
                old(self).is_active_index(i) && !(e.is_start_spec() && old(self).drag_held_except(DragKind::Crop))
                    ==> final(self).active_image_settings == crop_after_event(
                    old(self).active_image_settings,
                    editor_frame(
                        #[trigger] old(self).output_textures_vec[i].transform,
                        old(self).viewport(),
                        old(self).active_image_settings.croped_modified.max_scale as int,
                    ),
                    e,
                ),
    {
        if e.is_start() && self.other_drag_held(DragKind::Crop) {
            return;
        }
        if let Some(i) = self.find_active() {
            let t = self.output_textures_vec[i].transform;
            let p = crop_preview_placement(
                &t,
                self.main_image_settings.image_plot_rect,
                self.active_image_settings.croped_modified.max_scale,
                CropRect::default(),
            );
            let e_scale = self.active_image_settings.croped_modified.max_scale;
            let min = Pos2 { x: p.unclamped.min.x * SUBPIXEL, y: p.unclamped.min.y * SUBPIXEL };
            let frame = Rect {
                min,
                max: Pos2 {
                    x: min.x + scale_sub_len(t.size.x, t.original_scale, e_scale),
                    y: min.y + scale_sub_len(t.size.y, t.original_scale, e_scale),
                },
            };
            assert(frame == editor_frame(t, self.viewport(), e_scale as int));
            self.active_image_settings.crop_event(frame, e);
        }
    }

    /// Closes the crop session and commits its crop to the selected image.
    pub fn apply_crop(&mut self)
        requires
            old(self).wf(),
        ensures
            final(self).wf(),
            final(self).image_preview_pads@ == old(self).image_preview_pads@,
            final(self).image_sorting_modify == old(self).image_sorting_modify,
            final(self).main_image_settings == old(self).main_image_settings,
            final(self).active_image_settings == crop_applied(old(self).active_image_settings),
            final(self).active_image == old(self).active_image,
            final(self).output_textures_vec.len() == old(self).output_textures_vec.len(),
            forall|i: int|
                0 <= i < old(self).output_textures_vec.len() ==> #[trigger] final(self).output_textures_vec[i]
                    == (if old(self).active_image.is_some() && old(self).output_textures_vec[i].id
                    == old(self).active_image.unwrap().id {
                    OutputTexture {
                        transform: ImageTranforms {
                            croped: final(self).active_image_settings.transforms.croped,
                            ..old(self).output_textures_vec[i].transform
                        },
                        ..old(self).output_textures_vec[i]
                    }
                } else {
                    old(self).output_textures_vec[i]
                }),
    {
        self.active_image_settings.apply_crop();
        self.sync_active(SyncKind::Crop);
    }

    /// Closes the crop session; every image keeps its committed crop.
    pub fn cancel_crop(&mut self)
        requires
            old(self).wf(),
        ensures
            final(self).wf(),
            final(self).keeps_images(old(self)),
            final(self).image_preview_pads@ == old(self).image_preview_pads@,
            final(self).image_sorting_modify == old(self).image_sorting_modify,
            final(self).main_image_settings == old(self).main_image_settings,
            final(self).active_image_settings == crop_cancelled(old(self).active_image_settings),
            final(self).output_textures_vec@ == old(self).output_textures_vec@,
            final(self).active_image == old(self).active_image,
    {
        self.active_image_settings.cancel_crop();
    }

    /// Puts the session's crop back to the one it started with.
    pub fn reset_crop(&mut self)
        requires
            old(self).wf(),
        ensures
            final(self).wf(),
            final(self).keeps_images(old(self)),
            final(self).image_preview_pads@ == old(self).image_preview_pads@,
            final(self).image_sorting_modify == old(self).image_sorting_modify,
            final(self).main_image_settings == old(self).main_image_settings,
            final(self).active_image_settings == crop_reset(old(self).active_image_settings),
            final(self).output_textures_vec@ == old(self).output_textures_vec@,
            final(self).active_image == old(self).active_image,
    {
        self.active_image_settings.reset_crop();
    }

    /// Places image `idx` in the crop editor, whole behind and cropped by
    /// the session's crop (in whole pixels) in front, and records what the front one samples.
    pub fn display_image_for_cropping(&mut self, idx: usize) -> (r: CropView)
        requires
            old(self).wf(),
            idx < old(self).output_textures_vec.len(),
        ensures
            final(self).wf(),
            final(self).image_preview_pads@ == old(self).image_preview_pads@,
            final(self).image_sorting_modify == old(self).image_sorting_modify,
            placed_in_editor(
                r.background,
                old(self).output_textures_vec[idx as int].transform,
                old(self).viewport(),
                old(self).active_image_settings.croped_modified.max_scale as int,
                CropRect { top: 0, left: 0, bottom: 0, right: 0 },
            ),
            placed_in_editor(
                r.cropped,
                old(self).output_textures_vec[idx as int].transform,
                old(self).viewport(),
                old(self).active_image_settings.croped_modified.max_scale as int,
                to_pixels(crop_or_zero(old(self).active_image_settings.croped_modified.current_modified)),
            ),
            r.background.render.inside(old(self).viewport()),
            r.cropped.render.inside(old(self).viewport()),
            r.background.uv.wf(),
            r.cropped.uv.wf(),
            final(self).output_textures_vec@ == old(self).output_textures_vec@.update(
                idx as int,
                OutputTexture {
                    image_props: ImageProps { uv_rect: r.cropped.uv },
                    ..old(self).output_textures_vec[idx as int]
                },
            ),
            final(self).active_image == old(self).active_image,
            final(self).active_image_settings == old(self).active_image_settings,
            final(self).main_image_settings == old(self).main_image_settings,
    {
        let mut img = self.output_textures_vec[idx];
        let vp = self.main_image_settings.image_plot_rect;
        let e = self.active_image_settings.croped_modified.max_scale;
        let cur = match self.active_image_settings.croped_modified.current_modified {
            Some(c) => c,
            None => CropRect::default(),
        };
        let c = crop_to_pixels(cur);
        let background = crop_preview_placement(&img.transform, vp, e, CropRect::default());
        let cropped = crop_preview_placement(&img.transform, vp, e, c);
        img.image_props.uv_rect = cropped.uv;
        self.output_textures_vec.set(idx, img);
        CropView { background, cropped }
    }

    /// Removes the image whose texture is `image_id`, the first if several
    /// are; the selection is cleared when it was that image.
    pub fn remove_image(&mut self, image_id: u64)
        requires
            old(self).wf(),
        ensures
            final(self).wf(),
            final(self).image_preview_pads@ == old(self).image_preview_pads@,
            final(self).image_sorting_modify == old(self).image_sorting_modify,
            (forall|j: int|
                0 <= j < old(self).output_textures_vec.len() ==> old(self).output_textures_vec[j].id
                    != image_id) ==> final(self).output_textures_vec@ == old(self).output_textures_vec@
                && final(self).active_image == old(self).active_image,
            (exists|j: int|
                0 <= j < old(self).output_textures_vec.len() && old(self).output_textures_vec[j].id
                    == image_id) ==> {
                &&& exists|i: int|
                    0 <= i < old(self).output_textures_vec.len() && old(self).output_textures_vec[i].id
                        == image_id && (forall|j: int|
                        0 <= j < i ==> old(self).output_textures_vec[j].id != image_id)
                        && final(self).output_textures_vec@ == old(self).output_textures_vec@.remove(i)
                &&& final(self).active_image == if old(self).active_image == Some(
                    ActiveImage { id: image_id },
                ) {
                    None
                } else {
                    old(self).active_image
                }
            },
            final(self).active_image_settings == old(self).active_image_settings,
            final(self).main_image_settings == old(self).main_image_settings,
    {
        let n = self.output_textures_vec.len();
        let mut i: usize = 0;
        while i < n
            invariant
                n == self.output_textures_vec.len(),
                self.output_textures_vec@ == old(self).output_textures_vec@,
                self.active_image == old(self).active_image,
                self.active_image_settings == old(self).active_image_settings,
                self.main_image_settings == old(self).main_image_settings,
                self.image_sorting_modify == old(self).image_sorting_modify,
                self.image_preview_pads@ == old(self).image_preview_pads@,
                i <= n,
                old(self).wf(),
                forall|j: int| 0 <= j < i ==> self.output_textures_vec[j].id != image_id,
            decreases n - i,
        {
            if self.output_textures_vec[i].id == image_id {
                self.output_textures_vec.remove(i);
                if let Some(a) = self.active_image {
                    if a.id == image_id {
                        self.active_image = None;
                    }
                }
                assert forall|j: int| 0 <= j < self.output_textures_vec.len() implies (
                #[trigger] self.output_textures_vec[j]).transform.wf() by {
                    let k = if j < i { j } else { j + 1 };
                    assert(self.output_textures_vec[j] == old(self).output_textures_vec[k]);
                }
                return;
            }
            i = i + 1;
        }
    }

    /// Handles one pointer event on the sorting view, whose container's
    /// top-left corner is `top_left`; a release reorders the images.
    pub fn sort_event(&mut self, top_left: Pos2, e: SortEvent)
        requires
            old(self).wf(),
            top_left.ok(),
            e.ok(old(self).output_textures_vec.len() as int),
        ensures
            final(self).wf(),
            final(self).image_preview_pads@ == old(self).image_preview_pads@,
            e.is_start_spec() && old(self).drag_held_except(DragKind::Sort) ==> final(self).same_as(old(self)),
            !(e.is_start_spec() && old(self).drag_held_except(DragKind::Sort)) ==> (final(self).image_sorting_modify, final(self).output_textures_vec@) == sort_after_event(
                old(self).image_sorting_modify,
                old(self).output_textures_vec@,
                top_left,
                e,
            ),
            final(self).active_image == old(self).active_image,
            final(self).active_image_settings == old(self).active_image_settings,
            final(self).main_image_settings == old(self).main_image_settings,
    {
        if e.is_start() && self.other_drag_held(DragKind::Sort) {
            return;
        }
        self.image_sorting_modify.sort_event(&mut self.output_textures_vec, top_left, e);
        proof {
            let s = old(self).output_textures_vec@;
            if let SortEvent::DragStop(f) = e {
                if old(self).image_sorting_modify.from_image == Some(f) {
                    let t = crate::reorder::drop_target_of(
                        old(self).image_sorting_modify,
                        top_left,
                        s.len() as int,
                    );
                    crate::reorder::lemma_reorder_members(s, f as int, t);
                    assert forall|i: int| 0 <= i < self.output_textures_vec.len() implies (
                    #[trigger] self.output_textures_vec[i]).transform.wf() by {
                        let j = choose|j: int|
                            #![trigger s[j]]
                            0 <= j < s.len() && crate::reorder::reordered(s, f as int, t)[i] == s[j];
                        assert(s[j].transform.wf());
                    }
                }
            }
        }
    }

    /// Opens or closes the sorting view.
    pub fn set_sorting(&mut self, on: bool)
        requires
            old(self).wf(),
        ensures
            final(self).wf(),
            final(self).image_preview_pads@ == old(self).image_preview_pads@,
            final(self).main_image_settings == old(self).main_image_settings,
            final(self).image_sorting_modify == (ImageSortingModify {
                is_sorting: on,
                ..old(self).image_sorting_modify
            }),
            final(self).output_textures_vec@ == old(self).output_textures_vec@,
            final(self).active_image == old(self).active_image,
            final(self).active_image_settings == old(self).active_image_settings,
    {
        self.image_sorting_modify.is_sorting = on;
    }

    /// Sets the selected image's scale, kept within `[0, SCALE_LIMIT]`.
    pub fn set_scale(&mut self, scale: i64)
        requires
            old(self).wf(),
        ensures
            final(self).wf(),
            final(self).active_image_settings == (ActiveImageSettings {
                transforms: final(self).active_image_settings.transforms,
                ..old(self).active_image_settings
            }),
            final(self).image_preview_pads@ == old(self).image_preview_pads@,
            final(self).image_sorting_modify == old(self).image_sorting_modify,
            final(self).main_image_settings == old(self).main_image_settings,
            final(self).active_image == old(self).active_image,
            final(self).active_image_settings.transforms == (ImageTranforms {
                scale: clamp(scale as int, 0, SCALE_LIMIT as int) as i64,
                ..old(self).active_image_settings.transforms
            }),
            final(self).output_textures_vec@ == old(self).output_textures_vec@,
    {
        self.active_image_settings.transforms.scale = clamp_i64(scale, 0, SCALE_LIMIT);
    }

    /// Sets the selected image's opacity, kept within `[0, SCALE_UNIT]`.
    pub fn set_opacity(&mut self, opacity: i64)
        requires
            old(self).wf(),
        ensures
            final(self).wf(),
            final(self).active_image_settings == (ActiveImageSettings {
                transforms: final(self).active_image_settings.transforms,
                ..old(self).active_image_settings
            }),
            final(self).image_preview_pads@ == old(self).image_preview_pads@,
            final(self).image_sorting_modify == old(self).image_sorting_modify,
            final(self).main_image_settings == old(self).main_image_settings,
            final(self).active_image == old(self).active_image,
            final(self).active_image_settings.transforms == (ImageTranforms {
                opacity: clamp(opacity as int, 0, SCALE_UNIT as int) as i64,
                ..old(self).active_image_settings.transforms
            }),
            final(self).output_textures_vec@ == old(self).output_textures_vec@,
    {
        self.active_image_settings.transforms.opacity = clamp_i64(opacity, 0, SCALE_UNIT);
    }

    /// Sets the selected image's pan offset, kept within the board's reach.
    pub fn set_position(&mut self, pos: Pos2)
        requires
            old(self).wf(),
        ensures
            final(self).wf(),
            final(self).active_image_settings == (ActiveImageSettings {
                transforms: final(self).active_image_settings.transforms,
                ..old(self).active_image_settings
            }),
            final(self).image_preview_pads@ == old(self).image_preview_pads@,
            final(self).image_sorting_modify == old(self).image_sorting_modify,
            final(self).main_image_settings == old(self).main_image_settings,
            final(self).active_image == old(self).active_image,
            final(self).active_image_settings.transforms == (ImageTranforms {
                pos: Pos2 { x: to_reach(pos.x as int) as i64, y: to_reach(pos.y as int) as i64 },
                ..old(self).active_image_settings.transforms
            }),
            final(self).output_textures_vec@ == old(self).output_textures_vec@,
    {
        self.active_image_settings.transforms.pos = Pos2 {
            x: clamp_i64(pos.x, -COORD_LIMIT, COORD_LIMIT),
            y: clamp_i64(pos.y, -COORD_LIMIT, COORD_LIMIT),
        };
    }
}

/// Half the thickness of the viewport's resize handles.
pub const RESIZE_HALF: i64 = 3;

/// Space between a list cover's border and its thumbnail's frame.
pub const COVER_PADDING: i64 = 5;

/// Where the thumbnail starts, right of the cover's left border.
pub const COVER_INDENT: i64 = 25;

/// Handles and edges of the crop editor for an image filling `frame`, with
/// crop `c`, in viewport `vp`. The edges are kept inside the viewport; a
/// corner handle is shown only where the frame's corner is inside it, and
/// never passes the opposite edge.
pub fn crop_handles(frame: Rect, vp: Rect, c: CropRect) -> (r: CropHandles)
    requires
        vp.wf(),
        -3 * COORD_LIMIT <= frame.min.x <= 3 * COORD_LIMIT,
        -3 * COORD_LIMIT <= frame.min.y <= 3 * COORD_LIMIT,
        -3 * COORD_LIMIT <= frame.max.x <= 3 * COORD_LIMIT,
        -3 * COORD_LIMIT <= frame.max.y <= 3 * COORD_LIMIT,
        c.bounded(INSET_LIMIT as int),
    ensures
        r.edges.min.x == clamp(frame.min.x + c.left, vp.min.x as int, vp.max.x as int),
        r.edges.min.y == clamp(frame.min.y + c.top, vp.min.y as int, vp.max.y as int),
        r.edges.max.x == clamp_up(frame.max.x + c.right, vp.min.x as int, vp.max.x as int),
        r.edges.max.y == clamp_up(frame.max.y + c.bottom, vp.min.y as int, vp.max.y as int),
        r.edges.inside(vp),
        r.top_left == if frame.min.x < vp.min.x || frame.min.y < vp.min.y {
            None
        } else {
            Some(
                Rect {
                    min: r.edges.min,
                    max: Pos2 {
                        x: (if r.edges.min.x + HANDLE_SIZE < r.edges.max.x { r.edges.min.x + HANDLE_SIZE } else { r.edges.max.x as int }) as i64,
                        y: (if r.edges.min.y + HANDLE_SIZE < r.edges.max.y { r.edges.min.y + HANDLE_SIZE } else { r.edges.max.y as int }) as i64,
                    },
                },
            )
        },
        r.bottom_right == if frame.max.x > vp.max.x || frame.max.y > vp.max.y {
            None
        } else {
            Some(
                Rect {
                    min: Pos2 {
                        x: (if r.edges.max.x - HANDLE_SIZE > r.edges.min.x { r.edges.max.x - HANDLE_SIZE } else { r.edges.min.x as int }) as i64,
                        y: (if r.edges.max.y - HANDLE_SIZE > r.edges.min.y { r.edges.max.y - HANDLE_SIZE } else { r.edges.min.y as int }) as i64,
                    },
                    max: r.edges.max,
                },
            )
        },
{
    let edges = Rect {
        min: Pos2 {
            x: clamp_i64(frame.min.x + c.left, vp.min.x, vp.max.x),
            y: clamp_i64(frame.min.y + c.top, vp.min.y, vp.max.y),
        },
        max: Pos2 {
            x: clamp_up_i64(frame.max.x + c.right, vp.min.x, vp.max.x),
            y: clamp_up_i64(frame.max.y + c.bottom, vp.min.y, vp.max.y),
        },
    };
    let top_left = if frame.min.x < vp.min.x || frame.min.y < vp.min.y {
        None
    } else {
        let x = edges.min.x + HANDLE_SIZE;
        let y = edges.min.y + HANDLE_SIZE;
        Some(
            Rect {
                min: edges.min,
                max: Pos2 {
                    x: if x < edges.max.x { x } else { edges.max.x },
                    y: if y < edges.max.y { y } else { edges.max.y },
                },
            },
        )
    };
    let bottom_right = if frame.max.x > vp.max.x || frame.max.y > vp.max.y {
        None
    } else {
        let x = edges.max.x - HANDLE_SIZE;
        let y = edges.max.y - HANDLE_SIZE;
        Some(
            Rect {
                min: Pos2 {
                    x: if x > edges.min.x { x } else { edges.min.x },
                    y: if y > edges.min.y { y } else { edges.min.y },
                },
                max: edges.max,
            },
        )
    };
    CropHandles { edges, top_left, bottom_right }
}

/// The rectangle a thumbnail of a bitmap of size `size` takes in a list
/// cover: fitted, aspect kept, into the cover less its padding, starting
/// `COVER_INDENT` right of the cover's left border, centered vertically.
pub fn thumbnail_rect(cover: Rect, size: Vec2) -> (r: Rect)
    requires
        cover.wf(),
        2 * COVER_PADDING <= cover.max.x - cover.min.x <= DIM_LIMIT,
        2 * COVER_PADDING <= cover.max.y - cover.min.y <= DIM_LIMIT,
        1 <= size.x <= DIM_LIMIT,
        1 <= size.y <= DIM_LIMIT,
    ensures
        ({
            let fw = cover.max.x - cover.min.x - 2 * COVER_PADDING;
            let fh = cover.max.y - cover.min.y - 2 * COVER_PADDING;
            let (w, h) = if size.x * fh > fw * size.y {
                (fw, size.y * fw / (size.x as int))
            } else {
                (size.x * fh / (size.y as int), fh)
            };
            &&& r.max.x - r.min.x == w
            &&& r.max.y - r.min.y == h
            &&& r.min.x == COVER_INDENT + cover.min.x
            &&& r.min.y == cover.spec_center_y() - h / 2
        }),
{
    let fw = cover.width() - 2 * COVER_PADDING;
    let fh = cover.height() - 2 * COVER_PADDING;
    assert(0 <= size.x * fh <= DIM_LIMIT * DIM_LIMIT) by (nonlinear_arith)
        requires 1 <= size.x <= DIM_LIMIT, 0 <= fh <= DIM_LIMIT;
    assert(0 <= size.y * fw <= DIM_LIMIT * DIM_LIMIT) by (nonlinear_arith)
        requires 1 <= size.y <= DIM_LIMIT, 0 <= fw <= DIM_LIMIT;
    let (w, h) = if size.x * fh > fw * size.y {
        let h = size.y * fw / size.x;
        assert(h <= fw * size.y) by (nonlinear_arith)
            requires h == (size.y * fw) as int / (size.x as int), 1 <= size.x, 0 <= size.y * fw;
        (fw, h)
    } else {
        let w = size.x * fh / size.y;
        assert(w <= size.x * fh) by (nonlinear_arith)
            requires w == (size.x * fh) as int / (size.y as int), 1 <= size.y, 0 <= size.x * fh;
        (w, fh)
    };
    let center = Pos2 { x: COVER_INDENT + cover.min.x + w / 2, y: cover.center().y };
    Rect::from_center_size(center, Vec2 { x: w, y: h })
}

/// Where the sampled part of a texture is drawn in a preview square
/// `display`: the whole texture spans the middle half of it.
pub fn uv_preview_rect(display: Rect, uv: UvRect) -> (r: Rect)
    requires
        display.wf(),
        display.max.x - display.min.x <= DIM_LIMIT,
        display.max.y - display.min.y <= DIM_LIMIT,
        uv.wf(),
        uv.den.x <= COORD_LIMIT,
        uv.den.y <= COORD_LIMIT,
    ensures
        ({
            let w = display.max.x - display.min.x;
            let h = display.max.y - display.min.y;
            &&& r.min.x == display.min.x + w / 4 + uv.min.x * w / (2 * uv.den.x)
            &&& r.min.y == display.min.y + h / 4 + uv.min.y * h / (2 * uv.den.y)
            &&& r.max.x == display.min.x + w / 4 + uv.max.x * w / (2 * uv.den.x)
            &&& r.max.y == display.min.y + h / 4 + uv.max.y * h / (2 * uv.den.y)
        }),
{
    let w = display.width();
    let h = display.height();
    assert(forall|a: int, b: int| 0 <= a <= COORD_LIMIT && 0 <= b <= DIM_LIMIT ==> 0 <= #[trigger] (a * b) <= COORD_LIMIT * DIM_LIMIT)
        by (nonlinear_arith);
    assert(forall|a: int, b: int| 0 <= a <= b && 1 <= b ==> 0 <= #[trigger] (a * w / (2 * b)) <= w)
        by (nonlinear_arith) requires 0 <= w;
    Rect {
        min: Pos2 {
            x: display.min.x + w / 4 + uv.min.x * w / (2 * uv.den.x),
            y: display.min.y + h / 4 + uv.min.y * h / (2 * uv.den.y),
        },
        max: Pos2 {
            x: display.min.x + w / 4 + uv.max.x * w / (2 * uv.den.x),
            y: display.min.y + h / 4 + uv.max.y * h / (2 * uv.den.y),
        },
    }
}

impl App {
    /// The viewport's right and bottom resize handles: thin strips along its
    /// right edge (from the top of the board) and its bottom edge (from the
    /// left of the board).
    pub fn resize_handles(&self) -> (r: (Rect, Rect))
        requires
            self.wf(),
        ensures
            ({
                let v = self.viewport();
                &&& r.0 == (Rect {
                    min: Pos2 { x: (v.max.x - RESIZE_HALF) as i64, y: 0 },
                    max: Pos2 { x: (v.max.x + RESIZE_HALF) as i64, y: v.max.y },
                })
                &&& r.1 == (Rect {
                    min: Pos2 { x: 0, y: (v.max.y - RESIZE_HALF) as i64 },
                    max: Pos2 { x: v.max.x, y: (v.max.y + RESIZE_HALF) as i64 },
                })
            }),
    {
        let v = self.main_image_settings.image_plot_rect;
        (
            Rect {
                min: Pos2 { x: v.max.x - RESIZE_HALF, y: 0 },
                max: Pos2 { x: v.max.x + RESIZE_HALF, y: v.max.y },
            },
            Rect {
                min: Pos2 { x: 0, y: v.max.y - RESIZE_HALF },
                max: Pos2 { x: v.max.x, y: v.max.y + RESIZE_HALF },
            },
        )
    }
}

} // verus!
