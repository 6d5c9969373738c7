//! Colours, pixels and the full-screen pixel buffer.

use vstd::prelude::*;
use crate::grid::{in_grid, index_of, CELLS, H, W};

verus! {

/// The colours the game draws with.
#[derive(Clone, Copy, PartialEq, Eq, Structural, Debug)]
pub enum Color {
    Black,
    Red,
    Green,
    DarkGreen,
    Yellow,
    DarkYellow,
    DarkBlue,
    White,
}

/// The visual state of one screen cell.
#[derive(Clone, Copy, PartialEq, Eq, Structural, Debug)]
pub struct Pixel {
    pub back: Color,
    pub front: Color,
    pub glyph: char,
}

/// An empty cell: what air looks like, and the only pixel a particle may
/// draw over.
pub open spec fn neutral() -> Pixel {
    Pixel { back: Color::Black, front: Color::Black, glyph: ' ' }
}

/// The pixel that marks a cell of the last-drawn buffer as unknown. The
/// compositor never produces it, so such a cell is redrawn on the next pass.
pub open spec fn sentinel() -> Pixel {
    Pixel { back: Color::Black, front: Color::Black, glyph: '\u{a3}' }
}

/// No pixel of `px` is the sentinel: a terminal whose last-drawn buffer was
/// invalidated will redraw every cell of it.
pub open spec fn clean(px: Seq<Pixel>) -> bool {
    forall|i: int| 0 <= i < px.len() ==> #[trigger] px[i] != sentinel()
}

/// A screen-sized buffer of pixels, row-major like the grid.
pub struct Frame {
    pixels: Vec<Pixel>,
}

impl View for Frame {
    type V = Seq<Pixel>;

    closed spec fn view(&self) -> Seq<Pixel> {
        self.pixels@
    }
}

impl Frame {
    /// The buffer has one pixel per screen cell.
    pub open spec fn wf(&self) -> bool {
        self@.len() == CELLS
    }

    /// A buffer filled with `p`.
    pub fn filled(p: Pixel) -> (f: Frame)
        ensures
            f.wf(),
            forall|i: int| 0 <= i < CELLS ==> f@[i] == p,
    {
        let mut pixels: Vec<Pixel> = Vec::new();
        let mut n: usize = 0;
        while n < CELLS
            invariant
                n <= CELLS,
                pixels.len() == n,
                forall|i: int| 0 <= i < n ==> pixels[i] == p,
            decreases CELLS - n,
        {
            pixels.push(p);
            n += 1;
        }
        Frame { pixels }
    }

    /// A buffer of empty cells.
    pub fn blank() -> (f: Frame)
        ensures
            f.wf(),
            forall|i: int| 0 <= i < CELLS ==> f@[i] == neutral(),
    {
        Frame::filled(Pixel { back: Color::Black, front: Color::Black, glyph: ' ' })
    }

    /// A buffer in which every cell is marked unknown.
    pub fn invalid() -> (f: Frame)
        ensures
            f.wf(),
            forall|i: int| 0 <= i < CELLS ==> f@[i] == sentinel(),
    {
        Frame::filled(Pixel { back: Color::Black, front: Color::Black, glyph: '\u{a3}' })
    }

    /// The pixel at flat position `i`.
    pub fn pixel(&self, i: usize) -> (p: Pixel)
        requires
            self.wf(),
            i < CELLS,
        ensures
            p == self@[i as int],
    {
        self.pixels[i]
    }

    /// The pixel at `(x, y)`, or `None` outside the screen.
    pub fn get(&self, x: isize, y: isize) -> (p: Option<Pixel>)
        requires
            self.wf(),
        ensures
            p == if in_grid(x as int, y as int) {
                Some(self@[index_of(x as int, y as int)])
            } else {
                None
            },
    {
        if 0 <= x && x < W && 0 <= y && y < H {
            Some(self.pixels[(x + y * W) as usize])
        } else {
            None
        }
    }

    /// Replaces the pixel at flat position `i`.
    pub fn set(&mut self, i: usize, p: Pixel)
        requires
            old(self).wf(),
            i < CELLS,
        ensures
            final(self)@ == old(self)@.update(i as int, p),
            final(self).wf(),
    {
        self.pixels[i] = p;
    }
}

} // verus!
