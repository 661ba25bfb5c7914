//! The 64x32 monochrome display, drawn to by toggling single pixels.
use vstd::prelude::*;

verus! {

/// Width of the display in pixels.
pub const WIDTH: usize = 64;

/// Height of the display in pixels.
pub const HEIGHT: usize = 32;

/// Position of the pixel at (`row`, `col`) in the row-major view of the display.
pub open spec fn cell(row: int, col: int) -> int {
    row * 64 + col
}

/// A screen with every pixel off.
pub open spec fn blank_screen() -> Seq<bool> {
    Seq::new(2048, |i: int| false)
}

/// A grid of 32 rows of 64 pixels, each on or off.
pub struct Display {
    buffer: [bool; 2048],
}

impl View for Display {
    type V = Seq<bool>;

    /// The pixels in row-major order: pixel (row, col) is at `cell(row, col)`.
    closed spec fn view(&self) -> Seq<bool> {
        self.buffer@
    }
}

impl Display {
    /// The view always holds exactly one entry per pixel.
    pub proof fn lemma_len(&self)
        ensures
            self@.len() == 2048,
    {
    }

    /// A display with every pixel off.
    pub fn new() -> (r: Display)
        ensures
            r@ == blank_screen(),
    {
        let r = Display { buffer: [false; 2048] };
        assert(r@ =~= blank_screen());
        r
    }

    /// Turns every pixel off.
    pub fn clear(&mut self)
        ensures
            final(self)@ == blank_screen(),
    {
        self.buffer = [false; 2048];
        assert(self@ =~= blank_screen());
    }

    /// Whether the pixel at row `y`, column `x` is on.
    pub fn get_pixel(&self, y: usize, x: usize) -> (r: bool)
        requires
            y < 32,
            x < 64,
        ensures
            r == self@[cell(y as int, x as int)],
    {
        self.buffer[y * 64 + x]
    }

    /// Inverts the pixel at row `y`, column `x`.
    pub fn flip_pixel(&mut self, y: usize, x: usize)
        requires
            y < 32,
            x < 64,
        ensures
            final(self)@ == old(self)@.update(
                cell(y as int, x as int),
                !old(self)@[cell(y as int, x as int)],
            ),
    {
        let i: usize = y * 64 + x;
        self.buffer[i] = !self.buffer[i];
    }
}

} // verus!
