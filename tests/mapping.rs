use image_board::geometry::{FitIn, Pos2, Rect, Vec2};
use image_board::mapper::{alpha_of, board_placement, crop_preview_placement};
use image_board::resource::{CropRect, ImageTranforms};
use image_board::crop::calc_orignal_scale;

fn rect(x0: i64, y0: i64, x1: i64, y1: i64) -> Rect {
    Rect::from_min_max(Pos2::new(x0, y0), Pos2::new(x1, y1))
}

fn transform(pos: Pos2, crop: Option<CropRect>) -> ImageTranforms {
    let mut t = ImageTranforms::default();
    t.size = Vec2::new(2000, 1000);
    t.original_scale = 300;
    t.scale = 1000;
    t.pos = pos;
    t.croped = crop;
    t
}

#[test]
fn fit_scale_of_wide_image() {
    assert_eq!(calc_orignal_scale(Vec2::new(2000, 1000), Vec2::new(1000, 600)), 300);
    assert_eq!(calc_orignal_scale(Vec2::new(1000, 2000), Vec2::new(1000, 600)), 300);
}

#[test]
fn centered_image_inside_viewport() {
    let vp = rect(0, 0, 1000, 600);
    let p = board_placement(&transform(Pos2::new(0, 0), None), vp);
    assert_eq!(p.unclamped, rect(200, 150, 800, 450));
    assert_eq!(p.render, p.unclamped);
    assert_eq!(p.uv.min, Pos2::new(0, 0));
    assert_eq!(p.uv.max.x, p.uv.den.x);
    assert_eq!(p.uv.max.y, p.uv.den.y);
    assert_eq!(p.uv.den, Vec2::new(600, 300));
}

#[test]
fn panned_image_is_clipped_and_sampled_in_part() {
    let vp = rect(0, 0, 1000, 600);
    let p = board_placement(&transform(Pos2::new(700, 0), None), vp);
    assert_eq!(p.unclamped, rect(900, 150, 1500, 450));
    assert_eq!(p.render, rect(900, 150, 1000, 450));
    assert_eq!(p.uv.min.x, 0);
    assert_eq!(p.uv.max.x, 100);
    assert_eq!(p.uv.den.x, 600);
    assert_eq!(p.uv.min.y, 0);
    assert_eq!(p.uv.max.y, 300);
    let u = p.uv.max.x as f64 / p.uv.den.x as f64;
    assert!((u - 0.1667).abs() < 0.0001);
}

#[test]
fn image_far_outside_stays_in_viewport_with_unit_uv() {
    let vp = rect(0, 0, 1000, 600);
    for pos in [Pos2::new(-5000, 0), Pos2::new(5000, 9000), Pos2::new(0, -700), Pos2::new(650, 0)] {
        let p = board_placement(&transform(pos, None), vp);
        assert!(p.render.min.x >= 0 && p.render.min.x <= 1000);
        assert!(p.render.max.x >= 0 && p.render.max.x <= 1000);
        assert!(p.render.min.y >= 0 && p.render.min.y <= 600);
        assert!(p.render.max.y >= 0 && p.render.max.y <= 600);
        for (n, d) in [(p.uv.min.x, p.uv.den.x), (p.uv.max.x, p.uv.den.x), (p.uv.min.y, p.uv.den.y), (p.uv.max.y, p.uv.den.y)] {
            assert!(d > 0 && n >= 0 && n <= d);
        }
    }
}

#[test]
fn committed_crop_follows_user_scale() {
    let vp = rect(0, 0, 1000, 600);
    let crop = CropRect { top: 10, left: 20, bottom: -30, right: -40 };
    let mut t = transform(Pos2::new(0, 0), Some(crop));
    t.scale = 500;
    let p = board_placement(&t, vp);
    assert_eq!(p.unclamped, rect(350, 225, 650, 375));
    assert_eq!(p.render, rect(360, 230, 630, 360));
    assert_eq!(p.uv.den, Vec2::new(300, 150));
    assert_eq!(p.uv.min, Pos2::new(10, 5));
    assert_eq!(p.uv.max, Pos2::new(280, 135));
}

#[test]
fn zero_scale_gives_empty_rect_and_bounded_uv() {
    let vp = rect(0, 0, 1000, 600);
    let mut t = transform(Pos2::new(0, 0), None);
    t.scale = 0;
    let p = board_placement(&t, vp);
    assert_eq!(p.render, rect(500, 300, 500, 300));
    assert_eq!(p.uv.den, Vec2::new(1, 1));
}

#[test]
fn crop_preview_ignores_pan() {
    let vp = rect(0, 0, 1000, 600);
    let t = transform(Pos2::new(700, 100), None);
    let crop = CropRect { top: 5, left: 5, bottom: -5, right: -5 };
    let p = crop_preview_placement(&t, vp, 1500, crop);
    assert_eq!(p.unclamped, rect(50, 75, 950, 525));
    assert_eq!(p.render, rect(55, 80, 945, 520));
}

#[test]
fn opacity_rounds_to_alpha() {
    assert_eq!(alpha_of(0), 0);
    assert_eq!(alpha_of(1000), 255);
    assert_eq!(alpha_of(500), 128);
    assert_eq!(alpha_of(2), 1);
}

#[test]
fn fit_in_touching_and_apart() {
    let c = rect(0, 0, 100, 100);
    assert!(rect(100, 100, 200, 200).is_fit_in(c));
    assert!(!rect(101, 0, 200, 50).is_fit_in(c));
    assert!(rect(-50, -50, 10, 10).is_fit_in(c));
}
