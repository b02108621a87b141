use crate::frame::frame::RgbFrameView;
use crate::frame::luminance::{luma_of, rgb_luma_u8};
use crate::frame::resize::{sample_coord, sample_source_coords};
use vstd::prelude::*;

verus! {

/// One character cell: the glyph and the color of the pixel it stands for.
#[derive(Clone, Copy, Debug, PartialEq, Eq, Structural)]
pub struct AsciiCell {
    pub glyph: u8,
    pub r: u8,
    pub g: u8,
    pub b: u8,
}

/// A grid of cells, row by row.
pub struct AsciiFrame {
    pub width: u16,
    pub height: u16,
    pub cells: Vec<AsciiCell>,
}

impl AsciiFrame {
    /// Whether the grid holds exactly `width * height` cells.
    pub open spec fn wf(&self) -> bool {
        self.cells@.len() == self.width * self.height
    }

    /// The cells of row `y`.
    pub fn row(&self, y: u16) -> (r: &[AsciiCell])
        requires
            y * self.width + self.width <= self.cells@.len(),
        ensures
            r@ == self.cells@.subrange(y * self.width, y * self.width + self.width),
    {
        let n = self.cells.len();
        assert(0 <= y * self.width) by (nonlinear_arith);
        let start = y as usize * self.width as usize;
        let end = start + self.width as usize;
        let all = self.cells.as_slice();
        &all[start..end]
    }
}

/// The glyph for a luma: the ramp character at `luma * (len - 1) / 255`, or a space for an empty ramp.
pub open spec fn glyph_for(luma: u8, ramp: Seq<u8>) -> u8 {
    if ramp.len() == 0 {
        32
    } else {
        ramp[luma * (ramp.len() - 1) / 255]
    }
}

/// Whether the index into `ramp` can be computed in a `usize`.
pub open spec fn ramp_fits(ramp: Seq<u8>) -> bool {
    ramp.len() == 0 || 255 * (ramp.len() - 1) <= usize::MAX
}

fn luma_to_glyph(luma: u8, ramp: &[u8]) -> (g: u8)
    requires
        ramp_fits(ramp@),
    ensures
        g == glyph_for(luma, ramp@),
{
    if ramp.len() == 0 {
        return 32;
    }
    let last = ramp.len() - 1;
    assert(luma * last <= 255 * last) by (nonlinear_arith)
        requires
            luma <= 255,
            last >= 0,
    ;
    let idx = (luma as usize * last) / 255;
    assert(idx <= last) by (nonlinear_arith)
        requires
            idx == (luma * last) / 255,
            luma <= 255,
            last >= 0,
    ;
    ramp[idx]
}

/// The output width or height actually used: at least one.
pub open spec fn at_least_one(n: u16) -> u16 {
    if n < 1 {
        1
    } else {
        n
    }
}

/// The source column sampled for output column `x`, mirrored when asked.
pub open spec fn source_column(x: int, width: int, mirror: bool) -> int {
    if mirror {
        width - 1 - x
    } else {
        x
    }
}

/// The part of a frame that a grid covers: `width` by `height` pixels from (`x`, `y`).
#[derive(Clone, Copy, Debug, PartialEq, Eq, Structural)]
pub struct SourceWindow {
    pub x: u32,
    pub y: u32,
    pub width: u32,
    pub height: u32,
}

/// The window of `crop_width` by `crop_height` pixels (held to the frame's size) centered in a
/// `frame_width` by `frame_height` frame; an odd leftover pixel goes to the right or bottom.
pub open spec fn centered(frame_width: u32, frame_height: u32, crop_width: u32, crop_height: u32) -> SourceWindow {
    let w = if crop_width < frame_width {
        crop_width
    } else {
        frame_width
    };
    let h = if crop_height < frame_height {
        crop_height
    } else {
        frame_height
    };
    SourceWindow { x: ((frame_width - w) / 2) as u32, y: ((frame_height - h) / 2) as u32, width: w, height: h }
}

/// The window of the given size centered in the frame, for a grid that covers the terminal
/// and crops the frame to the grid's shape.
pub fn centered_window(frame_width: u32, frame_height: u32, crop_width: u32, crop_height: u32) -> (r: SourceWindow)
    ensures
        r == centered(frame_width, frame_height, crop_width, crop_height),
{
    let w = if crop_width < frame_width {
        crop_width
    } else {
        frame_width
    };
    let h = if crop_height < frame_height {
        crop_height
    } else {
        frame_height
    };
    SourceWindow { x: (frame_width - w) / 2, y: (frame_height - h) / 2, width: w, height: h }
}

/// A centered window lies inside the frame, with margins on the two sides that differ by at
/// most one pixel, and is as large as the crop wherever the frame allows.
pub proof fn law_centered_window_inside(frame_width: u32, frame_height: u32, crop_width: u32, crop_height: u32)
    ensures
        ({
            let r = centered(frame_width, frame_height, crop_width, crop_height);
            &&& r.x + r.width <= frame_width
            &&& r.y + r.height <= frame_height
            &&& 0 <= (frame_width - r.x - r.width) - r.x <= 1
            &&& 0 <= (frame_height - r.y - r.height) - r.y <= 1
            &&& (crop_width <= frame_width ==> r.width == crop_width)
            &&& (crop_height <= frame_height ==> r.height == crop_height)
        }),
{
}

/// The cell at (`x`, `y`) of a `width` by `height` grid drawn from the window `win` of
/// `frame`: the sampled pixel's color, and the ramp glyph for its luma after the tone curve
/// `tone`.
pub open spec fn cell_at(
    frame: RgbFrameView,
    win: SourceWindow,
    width: int,
    height: int,
    ramp: Seq<u8>,
    tone: Seq<u8>,
    mirror: bool,
    x: int,
    y: int,
) -> AsciiCell {
    let sx = win.x + sample_coord(source_column(x, width, mirror), width, win.width as int);
    let sy = win.y + sample_coord(y, height, win.height as int);
    let (r, g, b) = frame.pixel(sx, sy);
    AsciiCell { glyph: glyph_for(tone[luma_of(r, g, b)], ramp), r, g, b }
}

/// Whether the pixel that grid cell (`x`, `y`) samples from the window can be read.
pub open spec fn sample_fits(frame: RgbFrameView, win: SourceWindow, width: int, height: int, x: int, y: int) -> bool {
    let sx = win.x + sample_coord(x, width, win.width as int);
    let sy = win.y + sample_coord(y, height, win.height as int);
    sx <= u32::MAX && sy <= u32::MAX && frame.pixel_fits(sx, sy)
}

/// Whether every pixel that a `width` by `height` grid samples from the window can be read.
pub open spec fn samples_fit(frame: RgbFrameView, win: SourceWindow, width: int, height: int) -> bool {
    &&& (width - 1) * win.width <= u32::MAX
    &&& (height - 1) * win.height <= u32::MAX
    &&& forall|x: int, y: int|
        0 <= x < width && 0 <= y < height ==> #[trigger] sample_fits(frame, win, width, height, x, y)
}

/// Every pixel is sampled inside a non-empty window that lies in a frame whose bytes match
/// its size and whose byte count fits a `u32` offset.
pub proof fn law_window_samples_fit(frame: RgbFrameView, win: SourceWindow, width: int, height: int)
    requires
        frame.data@.len() == frame.width * frame.height * 3,
        frame.width * frame.height * 3 <= u32::MAX + 1,
        win.width > 0,
        win.height > 0,
        win.x + win.width <= frame.width,
        win.y + win.height <= frame.height,
        width >= 1,
        height >= 1,
        (width - 1) * win.width <= u32::MAX,
        (height - 1) * win.height <= u32::MAX,
    ensures
        samples_fit(frame, win, width, height),
{
    assert forall|x: int, y: int| 0 <= x < width && 0 <= y < height implies #[trigger] sample_fits(
        frame,
        win,
        width,
        height,
        x,
        y,
    ) by {
        crate::frame::resize::law_samples_stay_inside(x, width, win.width as int);
        crate::frame::resize::law_samples_stay_inside(y, height, win.height as int);
        crate::frame::frame::law_pixels_of_exact_frame_fit(
            frame,
            win.x + sample_coord(x, width, win.width as int),
            win.y + sample_coord(y, height, win.height as int),
        );
    }
}

/// Draws the window `window` of `frame` as a grid of at least 1 by 1 cells, stretching the
/// window over the grid: each cell samples one pixel of the window,
/// keeps its color, and shows the ramp glyph for its luma after the tone curve `tone`
/// (which stands for the gamma and contrast adjustment). With `mirror_horizontal` the columns
/// are taken right to left.
pub fn map_rgb_frame(
    frame: &RgbFrameView<'_>,
    window: &SourceWindow,
    out_width: u16,
    out_height: u16,
    ramp: &[u8],
    tone: &[u8; 256],
    mirror_horizontal: bool,
) -> (m: AsciiFrame)
    requires
        samples_fit(*frame, *window, at_least_one(out_width) as int, at_least_one(out_height) as int),
        ramp_fits(ramp@),
    ensures
        m.width == at_least_one(out_width),
        m.height == at_least_one(out_height),
        m.wf(),
        forall|k: int|
            0 <= k < m.cells@.len() ==> #[trigger] m.cells@[k] == cell_at(
                *frame,
                *window,
                m.width as int,
                m.height as int,
                ramp@,
                tone@,
                mirror_horizontal,
                k % (m.width as int),
                k / (m.width as int),
            ),
{
    let width: u16 = if out_width < 1 {
        1
    } else {
        out_width
    };
    let height: u16 = if out_height < 1 {
        1
    } else {
        out_height
    };
    let ghost w = width as int;
    let ghost h = height as int;
    assert(width * height <= 65535 * 65535) by (nonlinear_arith)
        requires
            width <= 65535,
            height <= 65535,
    ;
    let mut cells: Vec<AsciiCell> = Vec::with_capacity(width as usize * height as usize);
    let mut y: u16 = 0;
    while y < height
        invariant
            w == width,
            h == height,
            width >= 1,
            y <= height,
            samples_fit(*frame, *window, w, h),
            ramp_fits(ramp@),
            cells@.len() == y * w,
            forall|k: int|
                0 <= k < cells@.len() ==> #[trigger] cells@[k] == cell_at(
                    *frame,
                    *window,
                    w,
                    h,
                    ramp@,
                    tone@,
                    mirror_horizontal,
                    k % w,
                    k / w,
                ),
        decreases height - y,
    {
        let mut x: u16 = 0;
        while x < width
            invariant
                w == width,
                h == height,
                width >= 1,
                y < height,
                x <= width,
                samples_fit(*frame, *window, w, h),
                ramp_fits(ramp@),
                cells@.len() == y * w + x,
                forall|k: int|
                    0 <= k < cells@.len() ==> #[trigger] cells@[k] == cell_at(
                        *frame,
                        *window,
                        w,
                        h,
                        ramp@,
                        tone@,
                        mirror_horizontal,
                        k % w,
                        k / w,
                    ),
            decreases width - x,
        {
            let sample_x = if mirror_horizontal {
                width - 1 - x
            } else {
                x
            };
            assert(sample_x * window.width <= (w - 1) * window.width) by (nonlinear_arith)
                requires
                    sample_x <= w - 1,
                    window.width >= 0,
            ;
            assert(y * window.height <= (h - 1) * window.height) by (nonlinear_arith)
                requires
                    y <= h - 1,
                    window.height >= 0,
            ;
            let (dx, dy) = sample_source_coords(sample_x, y, width, height, window.width, window.height);
            assert(sample_fits(*frame, *window, w, h, sample_x as int, y as int));
            let sx = window.x + dx;
            let sy = window.y + dy;
            let (r, g, b) = frame.pixel_at(sx, sy);
            let luma = tone[rgb_luma_u8(r, g, b) as usize];
            let glyph = luma_to_glyph(luma, ramp);
            let ghost k = y * w + x;
            proof {
                vstd::arithmetic::div_mod::lemma_fundamental_div_mod_converse(k, w, y as int, x as int);
            }
            cells.push(AsciiCell { glyph, r, g, b });
            assert(cells@[k] == cell_at(*frame, *window, w, h, ramp@, tone@, mirror_horizontal, k % w, k / w));
            x = x + 1;
        }
        assert(y * w + w == (y + 1) * w) by (nonlinear_arith);
        y = y + 1;
    }
    assert(y * w == w * h) by (nonlinear_arith)
        requires
            y == h,
    ;
    AsciiFrame { width, height, cells }
}

/// Mirroring takes each row right to left: the mirrored cell at column `x` is the plain cell
/// at column `width - 1 - x`.
pub proof fn law_mirror_reverses_rows(
    frame: RgbFrameView,
    win: SourceWindow,
    width: int,
    height: int,
    ramp: Seq<u8>,
    tone: Seq<u8>,
    x: int,
    y: int,
)
    requires
        0 <= x < width,
    ensures
        cell_at(frame, win, width, height, ramp, tone, true, x, y) == cell_at(
            frame,
            win,
            width,
            height,
            ramp,
            tone,
            false,
            width - 1 - x,
            y,
        ),
{
}

} // verus!
