use yas::color::Color;
use yas::common::{PixelRect, RawCaptureImage};
use yas::error::YasError;
use yas::layout::{window_16_9, window_4_3, window_8_5, ScanInfo};

#[test]
fn layouts_at_their_own_size_keep_their_rectangles() {
    let info = ScanInfo::from_16_9(1600, 900, 0, 0);
    assert_eq!(info.panel_position, PixelRect { left: 1090, top: 100, width: 410, height: 700 });
    assert_eq!(info.title_position, PixelRect { left: 22, top: 7, width: 306, height: 33 });
    assert_eq!(info.art_width, 102);
    assert_eq!(info.art_shift_y_milli, 146_000);
    let info = ScanInfo::from_8_5(1440, 900, 0, 0);
    assert_eq!(info.panel_position, PixelRect { left: 981, top: 90, width: 369, height: 720 });
    let info = ScanInfo::from_4_3(1280, 960, 0, 0);
    assert_eq!(info.panel_position, PixelRect { left: 872, top: 80, width: 328, height: 800 });
    assert_eq!(window_16_9().width, 16000);
    assert_eq!(window_8_5().height, 9000);
    assert_eq!(window_4_3().width, 12800);
}

#[test]
fn layouts_scale_with_the_window() {
    let info = ScanInfo::from_16_9(3200, 1800, 10, 20);
    assert_eq!(info.panel_position, PixelRect { left: 2180, top: 200, width: 820, height: 1400 });
    assert_eq!(info.left, 10);
    assert_eq!(info.top, 20);
    assert_eq!(info.width, 3200);
}

#[test]
fn window_ratio_picks_the_layout() {
    let r = ScanInfo::from_rect(&PixelRect { left: 0, top: 0, width: 1920, height: 1080 }).unwrap();
    assert_eq!(r, ScanInfo::from_16_9(1920, 1080, 0, 0));
    let r = ScanInfo::from_rect(&PixelRect { left: 5, top: 6, width: 1680, height: 1050 }).unwrap();
    assert_eq!(r, ScanInfo::from_8_5(1680, 1050, 5, 6));
    let r = ScanInfo::from_rect(&PixelRect { left: 0, top: 0, width: 1024, height: 768 }).unwrap();
    assert_eq!(r, ScanInfo::from_4_3(1024, 768, 0, 0));
    assert_eq!(
        ScanInfo::from_rect(&PixelRect { left: 0, top: 0, width: 1000, height: 1000 }),
        Err(YasError::UnsupportedResolution)
    );
}

#[test]
fn rect_helpers() {
    let r = PixelRect { left: 10, top: 20, width: 30, height: 40 };
    assert_eq!(PixelRect::shifted(&r, -5, 5), PixelRect { left: 5, top: 25, width: 30, height: 40 });
    let b = r.to_bound();
    assert_eq!((b.left, b.top, b.right, b.bottom), (10, 20, 40, 60));
    assert_eq!(b.to_rect(), r);
    let mut s = PixelRect { left: 3, top: -3, width: 5, height: 7 };
    s.scale(1, 2);
    assert_eq!(s, PixelRect { left: 2, top: -2, width: 3, height: 4 });
}

#[test]
fn colours() {
    let a = Color::from(10, 20, 30);
    assert_eq!(a.dis_2(&Color::new()), 100 + 400 + 900);
    assert!(a.eq(&Color(10, 20, 30)));
    assert!(!a.eq(&Color(10, 20, 31)));
}

#[test]
fn capture_pixels() {
    let mut img = RawCaptureImage { data: vec![0; 2 * 2 * 4], w: 2, h: 2 };
    img.set_color(1, 0, &Color(7, 8, 9)).unwrap();
    assert_eq!(img.data[(1 * 2 + 1) * 4..(1 * 2 + 1) * 4 + 3], [9, 8, 7]);
    assert_eq!(img.get_color(1, 0), Ok(Color(7, 8, 9)));
    assert_eq!(img.get_color(2, 0), Err(YasError::PixelOutOfBounds));
    assert_eq!(img.set_color(0, 2, &Color(1, 1, 1)), Err(YasError::PixelOutOfBounds));
}
