//! The rendered image: a grid of RGB byte triples.
//!
//! The renderer's output is a `width x height` grid of byte triples in
//! row-major order, top row first, left to right within a row.  The grid
//! is filled one pixel at a time, in any order, and handed as a flat byte
//! buffer to whatever encoder writes the image file.

use vstd::prelude::*;

verus! {

/// A `width x height` raster of RGB byte triples, stored row-major:
/// the triple of pixel `(x, y)` begins at byte `3 * (y * width + x)`.
pub struct PixelGrid {
    width: usize,
    height: usize,
    data: Vec<u8>,
}

impl PixelGrid {
    /// Pixel columns.
    pub closed spec fn spec_width(self) -> usize {
        self.width
    }

    /// Pixel rows.
    pub closed spec fn spec_height(self) -> usize {
        self.height
    }

    /// The flat byte buffer, row-major.
    pub closed spec fn spec_data(self) -> Seq<u8> {
        self.data@
    }

    /// The buffer holds exactly three bytes for every pixel.
    pub open spec fn wf(self) -> bool {
        self.spec_data().len() == 3 * self.spec_width() * self.spec_height()
    }

    /// Where channel `c` of pixel `(x, y)` lives in the buffer.
    pub open spec fn byte_index(self, x: int, y: int, c: int) -> int {
        3 * (y * self.spec_width() + x) + c
    }

    /// Channel `c` of pixel `(x, y)`: 0 is red, 1 is green, 2 is blue.
    pub open spec fn channel(self, x: int, y: int, c: int) -> u8 {
        self.spec_data()[self.byte_index(x, y, c)]
    }

    /// The byte of channel `c` of an in-range pixel lies inside the
    /// buffer, and distinct channels of distinct pixels never share it.
    pub proof fn lemma_byte_index_in_range(self, x: int, y: int, c: int)
        requires
            self.wf(),
            0 <= x < self.spec_width(),
            0 <= y < self.spec_height(),
            0 <= c < 3,
        ensures
            0 <= self.byte_index(x, y, c) < self.spec_data().len(),
    {
        let w = self.spec_width() as int;
        let h = self.spec_height() as int;
        assert(0 <= 3 * (y * w + x) + c && 3 * (y * w + x) + c < 3 * w * h) by (nonlinear_arith)
            requires
                0 <= x < w,
                0 <= y < h,
                0 <= c < 3,
        ;
    }

    /// A blank grid: every channel of every pixel is zero.
    pub fn new(width: usize, height: usize) -> (g: Self)
        requires
            width >= 1,
            height >= 1,
            3 * width * height <= usize::MAX,
        ensures
            g.wf(),
            g.spec_width() == width,
            g.spec_height() == height,
            forall|i: int| 0 <= i < g.spec_data().len() ==> g.spec_data()[i] == 0u8,
    {
        proof {
            let w = width as int;
            let h = height as int;
            assert(3 * w <= 3 * w * h) by (nonlinear_arith)
                requires
                    0 <= w,
                    h >= 1,
            ;
        }
        let len: usize = 3 * width * height;
        let mut data: Vec<u8> = Vec::new();
        let mut i: usize = 0;
        while i < len
            invariant
                i <= len,
                data@.len() == i,
                forall|j: int| 0 <= j < i ==> data@[j] == 0u8,
            decreases len - i,
        {
            data.push(0u8);
            i = i + 1;
        }
        PixelGrid { width, height, data }
    }

    pub fn width(&self) -> (r: usize)
        ensures
            r == self.spec_width(),
    {
        self.width
    }

    pub fn height(&self) -> (r: usize)
        ensures
            r == self.spec_height(),
    {
        self.height
    }

    /// Store the color of pixel `(x, y)`.  Exactly the pixel's three
    /// bytes change; every other byte of the buffer is left as it was.
    pub fn set_pixel(&mut self, x: usize, y: usize, red: u8, green: u8, blue: u8)
        requires
            old(self).wf(),
            x < old(self).spec_width(),
            y < old(self).spec_height(),
        ensures
            final(self).wf(),
            final(self).spec_width() == old(self).spec_width(),
            final(self).spec_height() == old(self).spec_height(),
            final(self).channel(x as int, y as int, 0) == red,
            final(self).channel(x as int, y as int, 1) == green,
            final(self).channel(x as int, y as int, 2) == blue,
            forall|i: int|
                0 <= i < old(self).spec_data().len() && i != old(self).byte_index(
                    x as int,
                    y as int,
                    0,
                ) && i != old(self).byte_index(x as int, y as int, 1) && i != old(
                    self,
                ).byte_index(x as int, y as int, 2) ==> final(self).spec_data()[i] == old(
                self,
            ).spec_data()[i],
            forall|x2: int, y2: int, c: int|
                0 <= x2 < old(self).spec_width() && 0 <= y2 < old(self).spec_height() && 0 <= c < 3
                    && !(x2 == x && y2 == y) ==> final(self).channel(x2, y2, c) == old(
                    self,
                ).channel(x2, y2, c),
    {
        proof {
            assert(self.data.len() == self.spec_data().len());
            let w = self.spec_width() as int;
            let h = self.spec_height() as int;
            assert(0 <= y * w + x && 3 * (y * w + x) + 2 < 3 * w * h) by (nonlinear_arith)
                requires
                    0 <= x < w,
                    0 <= y < h,
            ;
        }
        let base: usize = 3 * (y * self.width + x);
        self.data[base] = red;
        self.data[base + 1] = green;
        self.data[base + 2] = blue;
        proof {
            let g0 = *old(self);
            let g1 = *self;
            assert forall|x2: int, y2: int, c: int|
                0 <= x2 < g0.spec_width() && 0 <= y2 < g0.spec_height() && 0 <= c < 3 && !(x2 == x
                    && y2 == y) implies g1.channel(x2, y2, c) == g0.channel(x2, y2, c) by {
                g0.lemma_byte_index_in_range(x2, y2, c);
                let w = g0.spec_width() as int;
                assert(y2 * w + x2 != y * w + x) by (nonlinear_arith)
                    requires
                        0 <= x2 < w,
                        0 <= x < w,
                        !(x2 == x && y2 == y),
                ;
            }
        }
    }

    /// Read back the color of pixel `(x, y)`.
    pub fn get_pixel(&self, x: usize, y: usize) -> (rgb: (u8, u8, u8))
        requires
            self.wf(),
            x < self.spec_width(),
            y < self.spec_height(),
        ensures
            rgb.0 == self.channel(x as int, y as int, 0),
            rgb.1 == self.channel(x as int, y as int, 1),
            rgb.2 == self.channel(x as int, y as int, 2),
    {
        proof {
            assert(self.data.len() == self.spec_data().len());
            let w = self.spec_width() as int;
            let h = self.spec_height() as int;
            assert(0 <= y * w + x && 3 * (y * w + x) + 2 < 3 * w * h) by (nonlinear_arith)
                requires
                    0 <= x < w,
                    0 <= y < h,
            ;
        }
        let base: usize = 3 * (y * self.width + x);
        (self.data[base], self.data[base + 1], self.data[base + 2])
    }

    /// Hand the finished raster over as its flat byte buffer.
    pub fn into_bytes(self) -> (r: Vec<u8>)
        ensures
            r@ == self.spec_data(),
    {
        self.data
    }
}

} // verus!
