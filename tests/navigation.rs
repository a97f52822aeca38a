use yas::calibrate::{calibration_step, eq, ruler_shift, CalibrationStep, ScrollSpeed};
use yas::color::Color;
use yas::common::{PixelRect, RawCaptureImage};
use yas::error::YasError;
use yas::layout::ScanInfo;
use yas::navigate::{
    get_locks, get_pool, get_pool_of_rect, get_star, lock_at, move_target, rarity_colors, scroll_settled,
    scroll_thumb_offset, ScrollState, SelectionSettle,
};

fn ruler(pixels: u32) -> Vec<u8> {
    let mut v = Vec::new();
    for k in 0..pixels {
        v.extend_from_slice(&[(k * 6) as u8, 100, 50, 255]);
    }
    v
}

fn shifted_by(r: &Vec<u8>, px: usize) -> Vec<u8> {
    let mut s = vec![0u8; r.len()];
    for j in 0..r.len() - 4 * px {
        s[4 * px + j] = r[j];
    }
    s
}

#[test]
fn calibration_recovers_an_exact_shift() {
    let r = ruler(40);
    let one = shifted_by(&r, 3);
    assert_eq!(ruler_shift(&r, &one, 5), Some(3));
    assert_eq!(calibration_step(&r, &one, 1), CalibrationStep::Matched(ScrollSpeed { pixels: 3, units: 1 }));
    let two = shifted_by(&r, 6);
    assert_eq!(calibration_step(&r, &two, 2), CalibrationStep::Matched(ScrollSpeed { pixels: 6, units: 2 }));
}

#[test]
fn calibration_without_a_match_fails_after_five_units() {
    let r = ruler(40);
    let noise: Vec<u8> = (0..160).map(|i| if i % 4 == 0 { 255 - ((i / 4) * 6) as u8 } else { 0 }).collect();
    assert_eq!(ruler_shift(&r, &noise, 5), None);
    for n in 1..5 {
        assert_eq!(calibration_step(&r, &noise, n), CalibrationStep::ScrollAgain);
    }
    assert_eq!(calibration_step(&r, &noise, 5), CalibrationStep::Failed);
}

#[test]
fn calibration_too_slow() {
    let r = ruler(40);
    let one = shifted_by(&r, 1);
    assert_eq!(calibration_step(&r, &one, 2), CalibrationStep::TooSlow(2));
}

#[test]
fn channel_tolerance() {
    assert!(eq(10, 15, 5));
    assert!(!eq(10, 16, 5));
    assert!(eq(16, 10, 6));
}

#[test]
fn scrolling_carries_the_remainder() {
    let mut s = ScrollState::new(ScrollSpeed { pixels: 40, units: 1 });
    assert_eq!(s.scroll_rows(146_000, 5), -18);
    assert_eq!(s.offset, 730_000 - 720_000);
    assert_eq!(s.scroll_rows(146_000, 5), -19);
    assert_eq!(s.offset, -20_000);
    assert_eq!(s.offset_milli(), -20_000);
    assert_eq!(s.scroll_rows(146_000, 5), -18);
    assert_eq!(s.offset, -10_000);
    assert_eq!(s.scrolled_rows, 15);
}

#[test]
fn selection_settles_after_change_and_count() {
    let mut w = SelectionSettle::new(Some(100), 3);
    assert!(!w.observe(100));
    assert!(!w.observe(120));
    assert!(!w.observe(120));
    assert!(w.observe(120));
    let mut fast = SelectionSettle::new(None, 5);
    assert!(fast.observe(7));
}

#[test]
fn rarity_is_the_nearest_reference() {
    let refs = rarity_colors();
    assert_eq!(get_star(&Color(188, 105, 50), &refs), 5);
    assert_eq!(get_star(&Color(160, 90, 220), &refs), 4);
    assert_eq!(get_star(&Color(113, 119, 139), &refs), 1);
}

fn image(w: u32, h: u32) -> RawCaptureImage {
    RawCaptureImage { data: vec![0; (w * h * 4) as usize], w, h }
}

#[test]
fn pools_sum_the_green_channel() {
    let mut img = image(4, 4);
    img.set_color(1, 1, &Color(0, 10, 0)).unwrap();
    img.set_color(2, 2, &Color(0, 20, 0)).unwrap();
    let rect = PixelRect { left: 1, top: 1, width: 2, height: 2 };
    assert_eq!(get_pool_of_rect(&img, &rect), Ok(30));
    let outside = PixelRect { left: 3, top: 3, width: 2, height: 2 };
    assert_eq!(get_pool_of_rect(&img, &outside), Err(YasError::PixelOutOfBounds));
    let mut info = ScanInfo::from_16_9(16, 9, 0, 0);
    info.sub_stat1_position = rect;
    info.sub_stat2_position = PixelRect { left: 0, top: 0, width: 0, height: 0 };
    info.sub_stat3_position = PixelRect { left: 2, top: 2, width: 1, height: 1 };
    info.sub_stat4_position = PixelRect { left: 0, top: 0, width: 1, height: 1 };
    assert_eq!(get_pool(&img, &info), Ok(50));
}

#[test]
fn lock_icons_are_read_per_cell() {
    let mut img = image(20, 10);
    img.set_color(5, 5, &Color(255, 0, 0)).unwrap();
    assert_eq!(lock_at(&img, 6, 6), Ok(true));
    assert_eq!(lock_at(&img, 12, 6), Ok(false));
    assert_eq!(lock_at(&img, 1, 6), Err(YasError::PixelOutOfBounds));
    let mut info = ScanInfo::from_16_9(16, 9, 0, 0);
    info.left_margin_milli = 0;
    info.top_margin_milli = 0;
    info.art_lock_x_milli = 5_000;
    info.art_lock_y_milli = 5_000;
    info.art_shift_x_milli = 8_000;
    info.art_shift_y_milli = 8_000;
    assert_eq!(get_locks(&img, &info, 0, 0, 1, 2), Ok(vec![true, false]));
    assert_eq!(get_locks(&img, &info, 0, 0, 2, 2), Err(YasError::PixelOutOfBounds));
}

#[test]
fn scroll_settle_finds_the_gap() {
    let mut img = image(8, 100);
    img.set_color(5, 82, &Color(233, 229, 220)).unwrap();
    assert_eq!(scroll_settled(&img), Ok(true));
    let mut early = image(8, 100);
    early.set_color(5, 50, &Color(233, 229, 220)).unwrap();
    assert_eq!(scroll_settled(&early), Ok(false));
    assert_eq!(scroll_settled(&image(4, 10)), Err(YasError::PixelOutOfBounds));
}

#[test]
fn scrollbar_thumb_edge() {
    let mut px = vec![0u8; 10 * 4];
    for i in 6..10 {
        px[4 * i] = 200;
        px[4 * i + 1] = 200;
        px[4 * i + 2] = 200;
    }
    assert_eq!(scroll_thumb_offset(&px, 10), 4);
    assert_eq!(scroll_thumb_offset(&vec![0u8; 8], 2), 0);
}

#[test]
fn cell_centres() {
    let info = ScanInfo::from_16_9(1600, 900, 100, 50);
    assert_eq!(move_target(&info, 0, 0), (100 + 98 + 51, 50 + 100 + 63));
    assert_eq!(move_target(&info, 1, 2), (100 + 98 + 51 + 244, 50 + 100 + 63 + 146));
}
