use image_board::board::{App, PanEvent, ResizeEvent};
use image_board::crop::{calc_max_scale, crop_to_pixels, CropEvent};
use image_board::geometry::{Pos2, Rect, Vec2};
use image_board::reorder::{reorder, slot_gap, target_index, SortEvent, SORT_SLOT};
use image_board::resource::CropRect;

fn board_with(ids: &[u64]) -> App {
    let mut app = App::new();
    for &id in ids {
        app.import_image(id, 2000, 1000);
    }
    app
}

#[test]
fn import_fits_and_selects() {
    let app = board_with(&[7]);
    assert_eq!(app.output_textures_vec.len(), 1);
    assert_eq!(app.output_textures_vec[0].transform.original_scale, 300);
    assert_eq!(app.active_image.map(|a| a.get_texture_id()), Some(7));
    assert_eq!(app.active_image_settings.transforms.size, Vec2::new(2000, 1000));
    assert_eq!(app.image_preview_pads.len(), 1);
}

#[test]
fn editor_scale_for_default_viewport() {
    assert_eq!(calc_max_scale(Vec2::new(2000, 1000), Vec2::new(1000, 600)), 250);
    assert_eq!(calc_max_scale(Vec2::new(2000, 1000), Vec2::new(50, 50)), 0);
}

#[test]
fn pan_drag_moves_active_image() {
    let mut app = board_with(&[1, 2]);
    app.pan_event(0, PanEvent::DragStart(Pos2::new(100, 100)));
    assert_eq!(app.active_image.map(|a| a.id), Some(1));
    app.pan_event(0, PanEvent::DragMove(Pos2::new(130, 90)));
    assert_eq!(app.output_textures_vec[0].transform.pos, Pos2::new(30, -10));
    assert_eq!(app.output_textures_vec[1].transform.pos, Pos2::new(0, 0));
    app.pan_event(0, PanEvent::DragStop);
    app.pan_event(0, PanEvent::DragMove(Pos2::new(500, 500)));
    assert_eq!(app.output_textures_vec[0].transform.pos, Pos2::new(30, -10));
}

#[test]
fn live_settings_reach_the_active_image() {
    let mut app = board_with(&[1, 2]);
    app.set_scale(2500);
    app.set_opacity(4000);
    app.update_images_by_active_image();
    assert_eq!(app.output_textures_vec[1].transform.scale, 2500);
    assert_eq!(app.output_textures_vec[1].transform.opacity, 1000);
    assert_eq!(app.output_textures_vec[0].transform.scale, 1000);
}

#[test]
fn resize_follows_pointer_and_never_inverts() {
    let mut app = App::new();
    app.resize_event(ResizeEvent::RightStart(Pos2::new(1012, 300)));
    app.resize_event(ResizeEvent::RightMove(Pos2::new(812, 300)));
    assert_eq!(app.main_image_settings.image_plot_rect.max.x, 810);
    app.resize_event(ResizeEvent::RightMove(Pos2::new(-500, 300)));
    assert_eq!(app.main_image_settings.image_plot_rect.max.x, 10);
    app.resize_event(ResizeEvent::RightStop);
    app.resize_event(ResizeEvent::BottomStart(Pos2::new(400, 630)));
    app.resize_event(ResizeEvent::BottomMove(Pos2::new(400, 700)));
    assert_eq!(app.main_image_settings.image_plot_rect.max.y, 700);
    let (right, bottom) = app.resize_handles();
    assert_eq!(right.min.x, 7);
    assert_eq!(bottom.max.y, 703);
}

#[test]
fn remove_clears_selection() {
    let mut app = board_with(&[1, 2, 3]);
    app.remove_image(9);
    assert_eq!(app.output_textures_vec.len(), 3);
    app.remove_image(2);
    let ids: Vec<u64> = app.output_textures_vec.iter().map(|t| t.id).collect();
    assert_eq!(ids, vec![1, 3]);
    assert_eq!(app.active_image.map(|a| a.id), Some(3));
    app.remove_image(3);
    assert!(app.active_image.is_none());
}

fn start_session(crop: Option<CropRect>) -> App {
    let mut app = board_with(&[5]);
    app.active_image_settings.transforms.croped = crop;
    app.output_textures_vec[0].transform.croped = crop;
    app.start_crop();
    app
}

#[test]
fn session_converts_committed_crop() {
    let app = start_session(Some(CropRect { top: 30, left: 60, bottom: -30, right: -90 }));
    let m = app.active_image_settings.croped_modified;
    assert!(m.is_modifying);
    assert_eq!(m.max_scale, 833);
    let c = m.current_modified.unwrap();
    assert_eq!(c, CropRect { top: 30 * 833, left: 60 * 833, bottom: -30 * 833, right: -90 * 833 });
    assert_eq!(m.prev_modified, Some(c));
    assert_eq!(crop_to_pixels(c), CropRect { top: 24, left: 49, bottom: -24, right: -74 });
}

#[test]
fn apply_without_moving_gives_crop_back() {
    let committed = CropRect { top: 30, left: 60, bottom: -30, right: -90 };
    let mut app = start_session(Some(committed));
    app.apply_crop();
    assert!(!app.active_image_settings.croped_modified.is_modifying);
    assert_eq!(app.output_textures_vec[0].transform.croped, Some(committed));
    assert_eq!(app.active_image_settings.transforms.croped, Some(committed));
}

#[test]
fn cancel_keeps_committed_crop() {
    let committed = CropRect { top: 30, left: 60, bottom: -30, right: -90 };
    let mut app = start_session(Some(committed));
    app.crop_event(CropEvent::TopLeftStart(Pos2::new(300, 200)));
    app.crop_event(CropEvent::TopLeftMove(Pos2::new(420, 260)));
    app.crop_event(CropEvent::Stop);
    assert_eq!(app.active_image_settings.croped_modified.current_modified, Some(CropRect { top: 84990, left: 169980, bottom: -30 * 833, right: -90 * 833 }));
    app.cancel_crop();
    assert_eq!(app.active_image_settings.transforms.croped, Some(committed));
    assert_eq!(app.output_textures_vec[0].transform.croped, Some(committed));
}

#[test]
fn reset_restores_session_start() {
    let mut app = start_session(None);
    app.crop_event(CropEvent::BottomRightStart(Pos2::new(760, 455)));
    app.crop_event(CropEvent::BottomRightMove(Pos2::new(700, 400)));
    assert_eq!(app.active_image_settings.croped_modified.current_modified, Some(CropRect { top: 0, left: 0, bottom: -55000, right: -60000 }));
    app.reset_crop();
    assert_eq!(app.active_image_settings.croped_modified.current_modified, Some(CropRect::default()));
}

#[test]
fn handles_never_cross() {
    let mut app = start_session(None);
    let view = app.display_image_for_cropping(0);
    let frame = view.background.unclamped;
    assert_eq!(frame, Rect::from_min_max(Pos2::new(261, 206), Pos2::new(760, 455)));
    app.crop_event(CropEvent::TopLeftStart(Pos2::new(261, 206)));
    app.crop_event(CropEvent::TopLeftMove(Pos2::new(5000, 5000)));
    app.crop_event(CropEvent::Stop);
    let c = crop_to_pixels(app.active_image_settings.croped_modified.current_modified.unwrap());
    assert_eq!(c, CropRect { top: 249, left: 499, bottom: 0, right: 0 });
    app.crop_event(CropEvent::BottomRightStart(Pos2::new(760, 455)));
    app.crop_event(CropEvent::BottomRightMove(Pos2::new(-5000, -5000)));
    let c = crop_to_pixels(app.active_image_settings.croped_modified.current_modified.unwrap());
    assert!(frame.min.x + c.left <= frame.max.x + c.right);
    assert!(frame.min.y + c.top <= frame.max.y + c.bottom);
    assert_eq!(c, CropRect { top: 249, left: 499, bottom: 0, right: 0 });
}

#[test]
fn target_index_rounds_and_clamps() {
    assert_eq!(target_index(70, 0, SORT_SLOT, 5), 1);
    assert_eq!(target_index(104, 0, SORT_SLOT, 5), 1);
    assert_eq!(target_index(105, 0, SORT_SLOT, 5), 2);
    assert_eq!(target_index(-300, 0, SORT_SLOT, 5), 0);
    assert_eq!(target_index(9000, 0, SORT_SLOT, 5), 5);
    assert_eq!(target_index(500, 0, SORT_SLOT, 0), 0);
}

#[test]
fn reorder_moves_item_up() {
    let mut v = vec!['a', 'b', 'c', 'd', 'e'];
    let t = target_index(70, 0, SORT_SLOT, 5);
    assert_eq!(t, 1);
    reorder(&mut v, 3, t);
    assert_eq!(v, vec!['a', 'd', 'b', 'c', 'e']);
}

#[test]
fn reorder_moves_item_down_and_keeps_items() {
    let mut v = vec![1, 2, 3, 4, 5];
    reorder(&mut v, 1, 4);
    assert_eq!(v, vec![1, 3, 4, 2, 5]);
    reorder(&mut v, 0, 5);
    assert_eq!(v, vec![3, 4, 2, 5, 1]);
    reorder(&mut v, 2, 2);
    reorder(&mut v, 2, 3);
    assert_eq!(v, vec![3, 4, 2, 5, 1]);
    let mut sorted = v.clone();
    sorted.sort();
    assert_eq!(sorted, vec![1, 2, 3, 4, 5]);
}

#[test]
fn sort_drag_reorders_board() {
    let mut app = board_with(&[10, 11, 12, 13, 14]);
    let top = Pos2::new(0, 100);
    app.set_sorting(true);
    app.sort_event(top, SortEvent::DragStart(3));
    app.sort_event(top, SortEvent::DragMove(3, Pos2::new(120, 175)));
    assert_eq!(app.image_sorting_modify.drag_pos, Pos2::new(120, 170));
    assert_eq!(app.image_sorting_modify.drop_target(top, 5), 1);
    app.sort_event(top, SortEvent::DragStop(3));
    let ids: Vec<u64> = app.output_textures_vec.iter().map(|t| t.id).collect();
    assert_eq!(ids, vec![10, 13, 11, 12, 14]);
    assert!(!app.image_sorting_modify.is_draging);
}

#[test]
fn sort_drag_without_move_keeps_order() {
    let mut app = board_with(&[10, 11, 12]);
    let top = Pos2::new(0, 0);
    app.sort_event(top, SortEvent::DragStart(2));
    app.sort_event(top, SortEvent::DragStop(2));
    let ids: Vec<u64> = app.output_textures_vec.iter().map(|t| t.id).collect();
    assert_eq!(ids, vec![10, 11, 12]);
}

#[test]
fn gap_marks_neighbours_of_target() {
    assert_eq!(slot_gap(0, 1, 5), (true, false));
    assert_eq!(slot_gap(1, 1, 5), (false, true));
    assert_eq!(slot_gap(4, 5, 5), (true, false));
    assert_eq!(slot_gap(2, 0, 5), (false, false));
}

#[test]
fn selection_is_locked_while_cropping() {
    let mut app = board_with(&[1, 2]);
    app.start_crop();
    app.select_image(0);
    assert_eq!(app.active_image.map(|a| a.id), Some(2));
    app.cancel_crop();
    app.select_image(0);
    assert_eq!(app.active_image.map(|a| a.id), Some(1));
}

#[test]
fn committed_crop_stays_inside_image() {
    let mut app = start_session(Some(CropRect { top: 100, left: 50, bottom: -20, right: -30 }));
    let start = app.active_image_settings.croped_modified.current_modified.unwrap();
    assert_eq!(start, CropRect { top: 83300, left: 41650, bottom: -16660, right: -24990 });
    app.crop_event(CropEvent::TopLeftStart(Pos2::new(302, 289)));
    app.crop_event(CropEvent::TopLeftMove(Pos2::new(5000, 5000)));
    app.crop_event(CropEvent::Stop);
    let c = app.active_image_settings.croped_modified.current_modified.unwrap();
    assert_eq!(c, CropRect { top: 233240, left: 474810, bottom: -16660, right: -24990 });
    app.apply_crop();
    let c = app.output_textures_vec[0].transform.croped.unwrap();
    assert!(c.top - c.bottom <= 300 && c.left - c.right <= 600);
    assert_eq!(c, CropRect { top: 280, left: 570, bottom: -20, right: -30 });
}

#[test]
fn dragging_one_handle_keeps_the_other() {
    let committed = CropRect { top: 4, left: 6, bottom: -3, right: -5 };
    let mut app = start_session(Some(committed));
    app.crop_event(CropEvent::TopLeftStart(Pos2::new(264, 209)));
    app.crop_event(CropEvent::TopLeftMove(Pos2::new(10, 10)));
    app.crop_event(CropEvent::Stop);
    let c = app.active_image_settings.croped_modified.current_modified.unwrap();
    assert_eq!((c.top, c.left), (332, 1998));
    assert_eq!((c.bottom, c.right), (-3 * 833, -5 * 833));
    app.crop_event(CropEvent::BottomRightStart(Pos2::new(756, 452)));
    app.crop_event(CropEvent::BottomRightMove(Pos2::new(740, 440)));
    let d = app.active_image_settings.croped_modified.current_modified.unwrap();
    assert_eq!((d.top, d.left), (332, 1998));
    app.apply_crop();
    let r = app.output_textures_vec[0].transform.croped.unwrap();
    assert_eq!((r.top, r.left), (0, 2));
    assert!(r.bottom < -3 && r.right < -5);
}

#[test]
fn repeated_untouched_sessions_keep_crop() {
    let committed = CropRect { top: 7, left: 13, bottom: -11, right: -3 };
    let mut app = start_session(Some(committed));
    app.apply_crop();
    for _ in 0..5 {
        app.start_crop();
        app.apply_crop();
    }
    assert_eq!(app.output_textures_vec[0].transform.croped, Some(committed));
}

#[test]
fn untouched_session_without_crop_commits_zero_crop() {
    let mut app = start_session(None);
    app.apply_crop();
    assert_eq!(app.output_textures_vec[0].transform.croped, Some(CropRect::default()));
}

#[test]
fn duplicate_texture_id_is_rejected() {
    let mut app = board_with(&[4, 5]);
    app.import_image(4, 100, 100);
    let ids: Vec<u64> = app.output_textures_vec.iter().map(|t| t.id).collect();
    assert_eq!(ids, vec![4, 5]);
    assert_eq!(app.active_image.map(|a| a.id), Some(5));
    assert_eq!(app.image_preview_pads.len(), 2);
}

#[test]
fn one_drag_at_a_time() {
    let mut app = board_with(&[1, 2]);
    app.resize_event(ResizeEvent::RightStart(Pos2::new(1012, 300)));
    app.pan_event(0, PanEvent::DragStart(Pos2::new(100, 100)));
    assert!(!app.active_image_settings.is_dragging);
    assert_eq!(app.active_image.map(|a| a.id), Some(2));
    app.sort_event(Pos2::new(0, 0), SortEvent::DragStart(0));
    assert!(!app.image_sorting_modify.is_draging);
    app.resize_event(ResizeEvent::RightStop);
    app.pan_event(0, PanEvent::DragStart(Pos2::new(100, 100)));
    assert!(app.active_image_settings.is_dragging);
    app.resize_event(ResizeEvent::BottomStart(Pos2::new(400, 630)));
    assert!(!app.main_image_settings.is_dragging);
}
