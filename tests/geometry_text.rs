use vid_data_train_crop::export::pixel_crop;
use vid_data_train_crop::geometry::{
    crop_from_drag, crop_on_display, fit_display_rect, from_norm, layout_display_rect, to_norm,
    DisplayRect, NormPoint, NormRect, Point,
};
use vid_data_train_crop::media::{is_image_extension, is_listed_extension, is_video_extension};
use vid_data_train_crop::text::{decimal_string, eq_ignoring_ascii_case, parse_i32, seconds_string};

#[test]
fn fit_letterboxes_wide_media() {
    let area = DisplayRect { min_x: 10, min_y: 20, width: 1000, height: 1000 };
    let r = fit_display_rect(&area, 1920, 1080);
    assert_eq!(r, DisplayRect { min_x: 10, min_y: 239, width: 1000, height: 562 });
}

#[test]
fn fit_pillarboxes_tall_media() {
    let area = DisplayRect { min_x: 0, min_y: 0, width: 1000, height: 500 };
    let r = fit_display_rect(&area, 600, 800);
    assert_eq!(r, DisplayRect { min_x: 312, min_y: 0, width: 375, height: 500 });
}

#[test]
fn fallback_layout_is_nine_sixteenths() {
    let area = DisplayRect { min_x: 5, min_y: 6, width: 1600, height: 300 };
    let r = layout_display_rect(&area, None);
    assert_eq!(r, DisplayRect { min_x: 5, min_y: 6, width: 1600, height: 900 });
    let r = layout_display_rect(&area, Some((100, 100)));
    assert_eq!(r, DisplayRect { min_x: 655, min_y: 6, width: 300, height: 300 });
}

#[test]
fn norm_round_trip_on_every_pixel() {
    let r = DisplayRect { min_x: -7, min_y: 40, width: 333, height: 97 };
    for x in -7..=(-7 + 333) {
        for y in [40, 41, 88, 136, 137] {
            let p = Point { x, y };
            let n = to_norm(&r, p);
            assert!(0 <= n.x && n.x <= 1_000_000 && 0 <= n.y && n.y <= 1_000_000);
            assert_eq!(from_norm(&r, n), p);
        }
    }
}

#[test]
fn norm_of_corners_and_outside() {
    let r = DisplayRect { min_x: 100, min_y: 100, width: 200, height: 100 };
    assert_eq!(to_norm(&r, Point { x: 100, y: 100 }), NormPoint { x: 0, y: 0 });
    assert_eq!(to_norm(&r, Point { x: 300, y: 200 }), NormPoint { x: 1_000_000, y: 1_000_000 });
    assert_eq!(to_norm(&r, Point { x: 150, y: 125 }), NormPoint { x: 250_000, y: 250_000 });
    assert_eq!(to_norm(&r, Point { x: 50, y: 0 }), NormPoint { x: -250_000, y: -1_000_000 });
    assert_eq!(to_norm(&r, Point { x: 101, y: 100 }), NormPoint { x: 5_000, y: 0 });
    let tiny = DisplayRect { min_x: 0, min_y: 0, width: 3, height: 3 };
    assert_eq!(to_norm(&tiny, Point { x: 1, y: -1 }), NormPoint { x: 333_334, y: -333_333 });
}

#[test]
fn crop_overlay_corners() {
    let r = DisplayRect { min_x: 100, min_y: 100, width: 200, height: 100 };
    let c = NormRect { min_x: 250_000, min_y: 0, max_x: 1_000_000, max_y: 500_000 };
    assert_eq!(
        crop_on_display(&r, &c),
        (Point { x: 150, y: 100 }, Point { x: 300, y: 150 })
    );
}

#[test]
fn drag_crop_components_in_unit_square() {
    let c = crop_from_drag(NormPoint { x: 2_000_000, y: -3 }, NormPoint { x: -1, y: 400_000 });
    assert_eq!(c, NormRect { min_x: 0, min_y: 0, max_x: 1_000_000, max_y: 400_000 });
    let c = crop_from_drag(NormPoint { x: 10, y: 20 }, NormPoint { x: 10, y: 20 });
    assert_eq!(c, NormRect { min_x: 10, min_y: 20, max_x: 10, max_y: 20 });
}

#[test]
fn pixel_crop_rounds_extents_down_to_even() {
    let full = NormRect { min_x: 0, min_y: 0, max_x: 1_000_000, max_y: 1_000_000 };
    let p = pixel_crop(&full, 1281, 721);
    assert_eq!((p.width, p.height, p.x, p.y), (1280, 720, 0, 0));
    let c = NormRect { min_x: 333_333, min_y: 100_000, max_x: 666_667, max_y: 100_000 };
    let p = pixel_crop(&c, 1000, 999);
    // 0.333334 * 1000 = 333.334 -> 333 -> 332; 0.333333 * 1000 -> 333
    assert_eq!((p.width, p.height, p.x, p.y), (332, 0, 333, 99));
}

#[test]
fn extensions_are_classified_ignoring_case() {
    for e in ["mp4", "MKV", "avi", "Mov", "webm"] {
        assert!(is_video_extension(e));
        assert!(is_listed_extension(e));
        assert!(!is_image_extension(e));
    }
    for e in ["jpg", "JPEG", "png", "bmp", "WebP"] {
        assert!(is_image_extension(e));
        assert!(is_listed_extension(e));
    }
    for e in ["", "txt", "mp", "mp44", "gif", "jpgx"] {
        assert!(!is_listed_extension(e));
    }
    assert!(eq_ignoring_ascii_case("AbC", "aBc"));
    assert!(!eq_ignoring_ascii_case("ab", "abc"));
    assert!(!eq_ignoring_ascii_case("[", "{"));
}

#[test]
fn parse_i32_accepts_signed_decimals() {
    assert_eq!(parse_i32("0"), Some(0));
    assert_eq!(parse_i32("+17"), Some(17));
    assert_eq!(parse_i32("-17"), Some(-17));
    assert_eq!(parse_i32("007"), Some(7));
    assert_eq!(parse_i32("2147483647"), Some(i32::MAX));
    assert_eq!(parse_i32("-2147483648"), Some(i32::MIN));
}

#[test]
fn parse_i32_rejects_other_text() {
    for t in ["", "-", "+", "2147483648", "-2147483649", "99999999999999999999", "1.5", "1 ", "x1", "--1", "٣"] {
        assert_eq!(parse_i32(t), None, "{t:?}");
    }
}

#[test]
fn numbers_are_written_in_decimal() {
    assert_eq!(decimal_string(0), "0");
    assert_eq!(decimal_string(1281), "1281");
    assert_eq!(decimal_string(u64::MAX), u64::MAX.to_string());
    assert_eq!(seconds_string(0), "0");
    assert_eq!(seconds_string(5_000_000), "5");
    assert_eq!(seconds_string(2_500_000), "2.5");
    assert_eq!(seconds_string(1), "0.000001");
    assert_eq!(seconds_string(10_120_000), "10.12");
}
