use camgylph::ascii::mapper::{centered_window, map_rgb_frame, SourceWindow};
use camgylph::frame::frame::RgbFrameView;
use camgylph::frame::luminance::rgb_luma_u8;
use camgylph::frame::resize::sample_source_coords;

/// The tone curve for a gamma and a contrast, computed as the renderer does.
fn tone_curve(gamma: f32, contrast: f32) -> [u8; 256] {
    let gamma = gamma.clamp(0.1, 4.0);
    let contrast = contrast.clamp(0.2, 3.0);
    let mut table = [0u8; 256];
    for (luma, slot) in table.iter_mut().enumerate() {
        let mut v = luma as f32 / 255.0;
        v = v.powf(1.0 / gamma);
        v = ((v - 0.5) * contrast + 0.5).clamp(0.0, 1.0);
        *slot = (v * 255.0).round() as u8;
    }
    table
}

/// The whole frame as the sampled window.
fn whole(frame: &RgbFrameView<'_>) -> SourceWindow {
    centered_window(frame.width, frame.height, frame.width, frame.height)
}

/// The centered crop of the frame with the grid's shape, for a cell aspect ratio.
fn cover_window(frame: &RgbFrameView<'_>, out_w: u16, out_h: u16, cell_aspect_ratio: f32) -> SourceWindow {
    let target = out_w.max(1) as f32 * cell_aspect_ratio / out_h.max(1) as f32;
    let src_aspect = frame.width as f32 / frame.height.max(1) as f32;
    let (w, h) = if src_aspect > target {
        let w = (frame.height as f32 * target).round() as u32;
        (w.clamp(1, frame.width.max(1)), frame.height)
    } else {
        let h = (frame.width as f32 / target).round() as u32;
        (frame.width, h.clamp(1, frame.height.max(1)))
    };
    centered_window(frame.width, frame.height, w, h)
}

#[test]
fn luma_for_black_and_white() {
    assert_eq!(rgb_luma_u8(0, 0, 0), 0);
    assert!(rgb_luma_u8(255, 255, 255) >= 254);
}

#[test]
fn sample_coords_stay_within_bounds() {
    let (sx, sy) = sample_source_coords(79, 23, 80, 24, 640, 480);
    assert!(sx < 640);
    assert!(sy < 480);
}

#[test]
fn maps_tiny_frame() {
    let data = vec![
        0, 0, 0, 255, 255, 255, //
        255, 0, 0, 0, 255, 0, //
    ];
    let frame = RgbFrameView::new(2, 2, &data).expect("valid frame");
    let tone = tone_curve(1.0, 1.0);
    let mapped = map_rgb_frame(&frame, &cover_window(&frame, 2, 2, 0.5), 2, 2, b" .#", &tone, false);
    assert_eq!(mapped.width, 2);
    assert_eq!(mapped.height, 2);
    assert_eq!(mapped.cells.len(), 4);
}

#[test]
fn mirrors_frame_horizontally_when_enabled() {
    let data = vec![
        0, 0, 0, //
        255, 255, 255,
    ];
    let frame = RgbFrameView::new(2, 1, &data).expect("valid frame");
    let tone = tone_curve(1.0, 1.0);
    let window = cover_window(&frame, 2, 1, 1.0);
    let normal = map_rgb_frame(&frame, &window, 2, 1, b" .#", &tone, false);
    let mirrored = map_rgb_frame(&frame, &window, 2, 1, b" .#", &tone, true);

    assert_eq!(normal.cells[0].glyph, b' ');
    assert_eq!(normal.cells[1].glyph, b'#');
    assert_eq!(mirrored.cells[0].glyph, b'#');
    assert_eq!(mirrored.cells[1].glyph, b' ');
}

#[test]
fn luma_weights_channels() {
    assert_eq!(rgb_luma_u8(255, 255, 255), 255);
    assert_eq!(rgb_luma_u8(255, 0, 0), 76);
    assert_eq!(rgb_luma_u8(0, 255, 0), 149);
    assert_eq!(rgb_luma_u8(0, 0, 255), 28);
    assert_eq!(rgb_luma_u8(100, 100, 100), 100);
}

#[test]
fn luma_never_falls_when_a_channel_grows() {
    assert!(rgb_luma_u8(10, 20, 30) <= rgb_luma_u8(10, 21, 30));
    assert!(rgb_luma_u8(200, 0, 0) <= rgb_luma_u8(200, 0, 255));
}

#[test]
fn sample_coords_scale_and_clamp() {
    assert_eq!(sample_source_coords(0, 0, 80, 24, 640, 480), (0, 0));
    assert_eq!(sample_source_coords(40, 12, 80, 24, 640, 480), (320, 240));
    assert_eq!(sample_source_coords(3, 1, 2, 1, 4, 2), (3, 1));
    assert_eq!(sample_source_coords(5, 0, 3, 1, 0, 1), (0, 0));
}

#[test]
fn frame_view_requires_exact_length() {
    let data = vec![0u8; 12];
    assert!(RgbFrameView::new(2, 2, &data).is_some());
    assert!(RgbFrameView::new(2, 3, &data).is_none());
    assert!(RgbFrameView::new(3, 2, &data[..11]).is_none());
    let empty: Vec<u8> = Vec::new();
    assert!(RgbFrameView::new(0, 5, &empty).is_some());
}

#[test]
fn pixel_at_reads_row_major_rgb() {
    let data: Vec<u8> = (0..18).collect();
    let frame = RgbFrameView::new(3, 2, &data).expect("valid frame");
    assert_eq!(frame.pixel_at(0, 0), (0, 1, 2));
    assert_eq!(frame.pixel_at(2, 0), (6, 7, 8));
    assert_eq!(frame.pixel_at(1, 1), (12, 13, 14));
}

#[test]
fn map_uses_at_least_one_cell_and_keeps_colors() {
    let data = vec![10, 20, 30];
    let frame = RgbFrameView::new(1, 1, &data).expect("valid frame");
    let tone = tone_curve(1.0, 1.0);
    let mapped = map_rgb_frame(&frame, &whole(&frame), 0, 0, b"ab", &tone, false);
    assert_eq!(mapped.width, 1);
    assert_eq!(mapped.height, 1);
    assert_eq!(mapped.cells.len(), 1);
    let c = mapped.cells[0];
    assert_eq!((c.r, c.g, c.b), (10, 20, 30));
    // luma 18 -> index 18 * 1 / 255 = 0
    assert_eq!(c.glyph, b'a');
    assert_eq!(mapped.row(0).len(), 1);
}

#[test]
fn map_with_empty_ramp_draws_spaces() {
    let data = vec![255, 255, 255];
    let frame = RgbFrameView::new(1, 1, &data).expect("valid frame");
    let tone = tone_curve(1.0, 1.0);
    let mapped = map_rgb_frame(&frame, &whole(&frame), 3, 2, b"", &tone, true);
    assert_eq!(mapped.cells.len(), 6);
    assert!(mapped.cells.iter().all(|c| c.glyph == b' '));
}

#[test]
fn tone_curve_is_applied_before_the_ramp() {
    let data = vec![128, 128, 128];
    let frame = RgbFrameView::new(1, 1, &data).expect("valid frame");
    let mut dark = [0u8; 256];
    let mut bright = [255u8; 256];
    dark[128] = 0;
    bright[128] = 255;
    let a = map_rgb_frame(&frame, &whole(&frame), 1, 1, b" .#", &dark, false);
    let b = map_rgb_frame(&frame, &whole(&frame), 1, 1, b" .#", &bright, false);
    assert_eq!(a.cells[0].glyph, b' ');
    assert_eq!(b.cells[0].glyph, b'#');
}

#[test]
fn centered_window_crops_evenly() {
    assert_eq!(centered_window(640, 480, 320, 480), SourceWindow { x: 160, y: 0, width: 320, height: 480 });
    assert_eq!(centered_window(640, 480, 641, 100), SourceWindow { x: 0, y: 190, width: 640, height: 100 });
    assert_eq!(centered_window(5, 5, 2, 5), SourceWindow { x: 1, y: 0, width: 2, height: 5 });
}

#[test]
fn map_samples_inside_the_window() {
    // a 4x1 frame: black, red, green, white; the window holds the middle two pixels
    let data = vec![0, 0, 0, 255, 0, 0, 0, 255, 0, 255, 255, 255];
    let frame = RgbFrameView::new(4, 1, &data).expect("valid frame");
    let window = centered_window(4, 1, 2, 1);
    let tone = tone_curve(1.0, 1.0);
    let mapped = map_rgb_frame(&frame, &window, 2, 1, b"ab", &tone, false);
    assert_eq!((mapped.cells[0].r, mapped.cells[0].g), (255, 0));
    assert_eq!((mapped.cells[1].r, mapped.cells[1].g), (0, 255));
}
