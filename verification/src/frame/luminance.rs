use vstd::prelude::*;

verus! {

/// The luma of a pixel: the weighted sum 77 r + 150 g + 29 b, over 256.
pub open spec fn luma_of(r: u8, g: u8, b: u8) -> int {
    (77 * r + 150 * g + 29 * b) / 256
}

/// The luma of a pixel, from 0 to 255.
pub fn rgb_luma_u8(r: u8, g: u8, b: u8) -> (l: u8)
    ensures
        l == luma_of(r, g, b),
{
    let r = r as u32;
    let g = g as u32;
    let b = b as u32;
    let sum: u32 = r * 77 + g * 150 + b * 29;
    assert(sum >> 8 == sum / 256) by (bit_vector);
    (sum >> 8) as u8
}

/// A gray pixel's luma is its level, since the weights add up to 256; luma never falls when a
/// channel grows, and always fits a byte.
pub proof fn law_luma_of_gray_and_monotone(r1: u8, g1: u8, b1: u8, r2: u8, g2: u8, b2: u8)
    ensures
        luma_of(r1, r1, r1) == r1,
        0 <= luma_of(r1, g1, b1) <= 255,
        (r1 <= r2 && g1 <= g2 && b1 <= b2) ==> luma_of(r1, g1, b1) <= luma_of(r2, g2, b2),
{
    if r1 <= r2 && g1 <= g2 && b1 <= b2 {
        let s1 = 77 * r1 + 150 * g1 + 29 * b1;
        let s2 = 77 * r2 + 150 * g2 + 29 * b2;
        assert(s1 <= s2);
        assert(s1 / 256 <= s2 / 256) by (nonlinear_arith)
            requires
                s1 <= s2,
                0 <= s1,
        ;
    }
}

} // verus!
