use vstd::prelude::*;

verus! {

/// The source coordinate sampled for output coordinate `p` when `out` output cells cover
/// `src` source pixels: `p * src / out`, held below the last source pixel.
pub open spec fn sample_coord(p: int, out: int, src: int) -> int {
    let scaled = p * src / out;
    let last = if src >= 1 {
        src - 1
    } else {
        0
    };
    if scaled < last {
        scaled
    } else {
        last
    }
}

/// The source pixel sampled for output cell (`x`, `y`).
pub fn sample_source_coords(
    x: u16,
    y: u16,
    out_width: u16,
    out_height: u16,
    src_width: u32,
    src_height: u32,
) -> (r: (u32, u32))
    requires
        out_width > 0,
        out_height > 0,
        x * src_width <= u32::MAX,
        y * src_height <= u32::MAX,
    ensures
        r.0 == sample_coord(x as int, out_width as int, src_width as int),
        r.1 == sample_coord(y as int, out_height as int, src_height as int),
{
    let sx_scaled = (x as u32 * src_width) / out_width as u32;
    let sy_scaled = (y as u32 * src_height) / out_height as u32;
    let last_x = src_width.saturating_sub(1);
    let last_y = src_height.saturating_sub(1);
    let sx = if sx_scaled < last_x {
        sx_scaled
    } else {
        last_x
    };
    let sy = if sy_scaled < last_y {
        sy_scaled
    } else {
        last_y
    };
    (sx, sy)
}

/// A sampled coordinate always lies inside a non-empty source, and the first output cell
/// samples the first source pixel.
pub proof fn law_samples_stay_inside(p: int, out: int, src: int)
    requires
        p >= 0,
        out > 0,
        src > 0,
    ensures
        0 <= sample_coord(p, out, src) < src,
        sample_coord(0, out, src) == 0,
{
    assert(p * src >= 0) by (nonlinear_arith)
        requires
            p >= 0,
            src > 0,
    ;
    assert(p * src / out >= 0) by (nonlinear_arith)
        requires
            p * src >= 0,
            out > 0,
    ;
}

} // verus!
