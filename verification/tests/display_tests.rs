use playback_core::display::fit_dimensions;

#[test]
fn wide_video_fills_the_width_and_letterboxes() {
    assert_eq!(fit_dimensions(100, 100, 200, 100), (100, 50));
}

#[test]
fn tall_video_fills_the_height_and_pillarboxes() {
    assert_eq!(fit_dimensions(100, 100, 100, 200), (50, 100));
}

#[test]
fn matching_aspect_fills_the_window() {
    assert_eq!(fit_dimensions(1280, 720, 1280, 720), (1280, 720));
    assert_eq!(fit_dimensions(1280, 720, 640, 360), (1280, 720));
}

#[test]
fn scaled_dimension_rounds_down() {
    // 100 * 2 / 3 = 66.66...: the letterboxed height is 66 pixels.
    assert_eq!(fit_dimensions(100, 100, 3, 2), (100, 66));
}

#[test]
fn fit_never_exceeds_the_window() {
    let cases = [(1u32, 1u32, 4096u32, 1u32), (1, 1000, 1000, 1), (1920, 1080, 720, 576)];
    for (ww, wh, vw, vh) in cases {
        let (w, h) = fit_dimensions(ww, wh, vw, vh);
        assert!(w <= ww);
        assert!(h <= wh);
        assert!(w == ww || h == wh);
    }
}
