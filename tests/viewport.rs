use imvi::image_viewer::ImageViewer;
use imvi::viewport::{fit, Rect};

#[test]
fn fit_wide_image_fills_width() {
    assert_eq!(fit(2, 1, 800, 600), Rect::new(0, 100, 800, 400));
}

#[test]
fn fit_tall_image_fills_height() {
    assert_eq!(fit(1, 2, 800, 600), Rect::new(250, 0, 300, 600));
}

#[test]
fn fit_equal_aspect_fills_window() {
    assert_eq!(fit(4, 3, 800, 600), Rect::new(0, 0, 800, 600));
}

#[test]
fn fit_rounds_scaled_side_down() {
    // 1000 * 3 / 7 = 428.57...
    let r = fit(7, 3, 1000, 1000);
    assert_eq!(r, Rect::new(0, 286, 1000, 428));
}

#[test]
fn fit_stays_inside_window() {
    let sizes: [(u32, u32); 6] = [(1, 1), (3, 7), (1920, 1080), (13, 1), (1, 13), (640, 480)];
    let windows: [(u32, u32); 5] = [(800, 600), (1, 1), (1000, 3), (3, 1000), (0, 10)];
    for (iw, ih) in sizes {
        for (w, h) in windows {
            let r = fit(iw, ih, w, h);
            assert!(r.x + r.w <= w);
            assert!(r.y + r.h <= h);
            assert!(r.w == w || r.h == h);
            let (iw, ih) = (iw as u64, ih as u64);
            let (rw, rh) = (r.w as u64, r.h as u64);
            assert!((rw * ih <= rh * iw && rh * iw < rw * ih + ih) || (rh * iw <= rw * ih && rw * ih < rh * iw + iw));
        }
    }
}

#[test]
fn viewer_starts_with_unit_view() {
    let v = ImageViewer::new();
    assert_eq!(v.view_rect(), Rect::new(0, 0, 1, 1));
}
