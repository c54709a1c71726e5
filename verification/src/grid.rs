//! A width x height grid of pixels of a generic colour type, stored row-major.
//!
//! This is the engine's own pixel container: every transform reads one grid
//! and allocates a fresh output grid of identical dimensions.

use vstd::prelude::*;

verus! {

/// A rectangular pixel grid, stored as one row-major buffer.
pub struct Img<P> {
    width: usize,
    height: usize,
    pixels: Vec<P>,
}

/// Row-major flat indices stay inside the buffer of a well-formed grid.
pub proof fn lemma_row_major_bound(x: int, y: int, w: int, h: int)
    by (nonlinear_arith)
    requires
        0 <= x < w,
        0 <= y < h,
    ensures
        0 <= y * w + x < w * h,
{
}

impl<P: Copy> Img<P> {
    /// The grid's width, as a mathematical integer.
    pub closed spec fn w(self) -> int {
        self.width as int
    }

    /// The grid's height, as a mathematical integer.
    pub closed spec fn h(self) -> int {
        self.height as int
    }

    /// The pixel buffer, row-major: row `y` occupies indices `y*w .. (y+1)*w`.
    pub closed spec fn data(self) -> Seq<P> {
        self.pixels@
    }

    /// Well-formedness: the buffer holds exactly width * height pixels.
    pub open spec fn wf(self) -> bool {
        self.data().len() == self.w() * self.h()
    }

    /// The pixel at column `x` of row `y`.
    pub open spec fn pixel(self, x: int, y: int) -> P
        recommends
            self.wf(),
            0 <= x < self.w(),
            0 <= y < self.h(),
    {
        self.data()[y * self.w() + x]
    }

    /// Builds a grid from a row-major pixel buffer.
    pub fn from_vec(width: usize, height: usize, pixels: Vec<P>) -> (r: Img<P>)
        requires
            pixels@.len() == width * height,
        ensures
            r.wf(),
            r.w() == width,
            r.h() == height,
            r.data() == pixels@,
    {
        Img { width, height, pixels }
    }

    /// Builds a grid with every pixel set to `fill`.
    pub fn new(width: usize, height: usize, fill: P) -> (r: Img<P>)
        requires
            width * height <= usize::MAX,
        ensures
            r.wf(),
            r.w() == width,
            r.h() == height,
            forall|i: int| 0 <= i < r.data().len() ==> r.data()[i] == fill,
    {
        let n = width * height;
        let mut pixels: Vec<P> = Vec::new();
        let mut i: usize = 0;
        while i < n
            invariant
                i <= n,
                pixels@.len() == i,
                forall|j: int| 0 <= j < i ==> pixels@[j] == fill,
            decreases n - i,
        {
            pixels.push(fill);
            i = i + 1;
        }
        Img { width, height, pixels }
    }

    /// The grid's width.
    pub fn width(&self) -> (r: usize)
        ensures
            r == self.w(),
    {
        self.width
    }

    /// The grid's height.
    pub fn height(&self) -> (r: usize)
        ensures
            r == self.h(),
    {
        self.height
    }

    /// Reads the pixel at column `x` of row `y`.
    pub fn get(&self, x: usize, y: usize) -> (r: P)
        requires
            self.wf(),
            x < self.w(),
            y < self.h(),
        ensures
            r == self.pixel(x as int, y as int),
    {
        proof {
            lemma_row_major_bound(x as int, y as int, self.w(), self.h());
        }
        let n = self.pixels.len();
        assert(y * self.w() + x < n);
        let i = y * self.width + x;
        self.pixels[i]
    }

    /// A row-major copy of the whole pixel buffer.
    pub fn to_vec(&self) -> (r: Vec<P>)
        ensures
            r@ == self.data(),
    {
        let mut out: Vec<P> = Vec::new();
        let mut i: usize = 0;
        let n = self.pixels.len();
        while i < n
            invariant
                i <= n,
                n == self.data().len(),
                out@.len() == i,
                forall|j: int| 0 <= j < i ==> out@[j] == self.data()[j],
            decreases n - i,
        {
            out.push(self.pixels[i]);
            i = i + 1;
        }
        proof {
            assert(out@ =~= self.data());
        }
        out
    }
}

} // verus!
