use vstd::prelude::*;

verus! {

/// `a * b`, or `usize::MAX` when the product does not fit.
pub open spec fn saturated_product(a: int, b: int) -> int {
    if a * b > usize::MAX {
        usize::MAX as int
    } else {
        a * b
    }
}

/// `a * b`, saturating at `usize::MAX`.
pub fn saturating_product(a: usize, b: usize) -> (r: usize)
    ensures
        r == saturated_product(a as int, b as int),
{
    match a.checked_mul(b) {
        Some(p) => p,
        None => usize::MAX,
    }
}

/// The number of bytes an RGB frame of the given size holds, saturating at `usize::MAX`.
pub open spec fn rgb_frame_len(width: u32, height: u32) -> int {
    saturated_product(saturated_product(width as int, height as int), 3)
}

/// A borrowed RGB frame: three bytes per pixel, row by row.
#[derive(Clone, Copy)]
pub struct RgbFrameView<'a> {
    pub width: u32,
    pub height: u32,
    pub data: &'a [u8],
}

impl<'a> RgbFrameView<'a> {
    /// A view of `data` as a frame of the given size, when it holds exactly that many bytes.
    pub fn new(width: u32, height: u32, data: &'a [u8]) -> (r: Option<Self>)
        ensures
            r is Some <==> data@.len() == rgb_frame_len(width, height),
            r matches Some(f) ==> f.width == width && f.height == height && f.data@ == data@,
    {
        let expected = saturating_product(saturating_product(width as usize, height as usize), 3);
        if data.len() == expected {
            Some(Self { width, height, data })
        } else {
            None
        }
    }

    /// Where the bytes of pixel (`x`, `y`) begin.
    pub open spec fn pixel_index(&self, x: int, y: int) -> int {
        (y * self.width + x) * 3
    }

    /// Whether pixel (`x`, `y`) can be read: its offset fits a `u32` and its bytes are in `data`.
    pub open spec fn pixel_fits(&self, x: int, y: int) -> bool {
        &&& 0 <= x
        &&& 0 <= y
        &&& self.pixel_index(x, y) <= u32::MAX
        &&& self.pixel_index(x, y) + 2 < self.data@.len()
    }

    /// The red, green and blue bytes of pixel (`x`, `y`).
    pub open spec fn pixel(&self, x: int, y: int) -> (u8, u8, u8) {
        let i = self.pixel_index(x, y);
        (self.data@[i], self.data@[i + 1], self.data@[i + 2])
    }

    /// The red, green and blue bytes of pixel (`x`, `y`).
    pub fn pixel_at(&self, x: u32, y: u32) -> (p: (u8, u8, u8))
        requires
            self.pixel_fits(x as int, y as int),
        ensures
            p == self.pixel(x as int, y as int),
    {
        assert(0 <= y * self.width <= (y * self.width + x) * 3) by (nonlinear_arith)
            requires
                0 <= x,
                0 <= y,
                0 <= self.width,
        ;
        let idx = ((y * self.width + x) * 3) as usize;
        (self.data[idx], self.data[idx + 1], self.data[idx + 2])
    }
}

/// In a frame whose bytes match its size, every pixel inside it can be read when the frame's
/// byte count fits a `u32` offset.
pub proof fn law_pixels_of_exact_frame_fit(f: RgbFrameView, x: int, y: int)
    requires
        f.data@.len() == f.width * f.height * 3,
        f.width * f.height * 3 <= u32::MAX + 1,
        0 <= x < f.width,
        0 <= y < f.height,
    ensures
        f.pixel_fits(x, y),
{
    assert((y * f.width + x) * 3 + 2 < f.width * f.height * 3) by (nonlinear_arith)
        requires
            0 <= x < f.width,
            0 <= y < f.height,
    ;
}

} // verus!
