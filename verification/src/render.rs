//! The picture that a frame is rendered into.
//!
//! The pixels of a frame do not depend on one another, so a renderer may
//! colour the rows of a picture in any order, or all at once. What makes this
//! safe is stated here: every pixel has a place of its own in the buffer, and
//! storing a row touches the places of that row alone.
use vstd::prelude::*;
use crate::color::Rgba;

verus! {

/// The place of the pixel in column `x` of row `y` in a picture `width`
/// pixels wide, stored row by row from the top.
pub open spec fn place(width: nat, x: int, y: int) -> int {
    y * width + x
}

/// A picture of `width` by `height` pixels, stored row by row from the top.
#[derive(Debug)]
pub struct PixelBuffer {
    w: usize,
    h: usize,
    data: Vec<Rgba>,
}

impl PixelBuffer {
    #[verifier::type_invariant]
    spec fn well_formed(&self) -> bool {
        self.data@.len() == self.w * self.h
    }

    /// The number of pixels in a row.
    pub closed spec fn columns(&self) -> nat {
        self.w as nat
    }

    /// The number of rows.
    pub closed spec fn rows(&self) -> nat {
        self.h as nat
    }

    /// The pixels, row by row from the top.
    pub closed spec fn pixels(&self) -> Seq<Rgba> {
        self.data@
    }

    /// The pixel in column `x` of row `y`.
    pub open spec fn pixel_spec(&self, x: int, y: int) -> Rgba {
        self.pixels()[place(self.columns(), x, y)]
    }

    /// The pixels of row `y`, from the left.
    pub open spec fn row_spec(&self, y: int) -> Seq<Rgba> {
        self.pixels().subrange(y * self.columns(), (y + 1) * self.columns())
    }

    /// A picture of `width` by `height` pixels, all of them opaque black, or
    /// `None` where the machine cannot count that many pixels.
    pub fn new(width: usize, height: usize) -> (r: Option<PixelBuffer>)
        ensures
            r is Some <==> width * height <= usize::MAX,
            r matches Some(b) ==> b.columns() == width && b.rows() == height && b.pixels()
                == Seq::new((width * height) as nat, |i: int| Rgba::black_spec()),
            r matches Some(b) ==> forall|x: int, y: int|
                0 <= x < width && 0 <= y < height ==> #[trigger] b.pixel_spec(x, y) == Rgba::black_spec(),
    {
        match width.checked_mul(height) {
            None => None,
            Some(n) => {
                let mut data: Vec<Rgba> = Vec::new();
                let mut i: usize = 0;
                while i < n
                    invariant
                        i <= n,
                        data@.len() == i,
                        forall|k: int| 0 <= k < i ==> data@[k] == Rgba::black_spec(),
                    decreases n - i,
                {
                    data.push(Rgba::black());
                    i = i + 1;
                }
                assert(data@ =~= Seq::new((width * height) as nat, |i: int| Rgba::black_spec()));
                let b: PixelBuffer = PixelBuffer { w: width, h: height, data };
                proof {
                    assert forall|x: int, y: int| 0 <= x < width && 0 <= y < height implies #[trigger] b.pixel_spec(
                        x,
                        y,
                    ) == Rgba::black_spec() by {
                        lemma_place_in_range(width as nat, height as nat, x, y);
                    }
                }
                Some(b)
            },
        }
    }

    /// The number of pixels in a row. A picture holds one pixel for every
    /// column of every row.
    pub fn width(&self) -> (r: usize)
        ensures
            r == self.columns(),
            self.pixels().len() == self.columns() * self.rows(),
    {
        proof {
            use_type_invariant(self);
        }
        self.w
    }

    /// The number of rows. A picture holds one pixel for every column of
    /// every row.
    pub fn height(&self) -> (r: usize)
        ensures
            r == self.rows(),
            self.pixels().len() == self.columns() * self.rows(),
    {
        proof {
            use_type_invariant(self);
        }
        self.h
    }

    /// The pixel in column `x` of row `y`.
    pub fn pixel(&self, x: usize, y: usize) -> (r: Rgba)
        requires
            x < self.columns(),
            y < self.rows(),
        ensures
            r == self.pixel_spec(x as int, y as int),
    {
        let len: usize = self.data.len();
        proof {
            use_type_invariant(self);
            lemma_place_in_range(self.w as nat, self.h as nat, x as int, y as int);
        }
        let i: usize = y * self.w + x;
        self.data[i]
    }

    /// Stores `row` as row `y` of the picture. No other row changes.
    pub fn put_row(&mut self, y: usize, row: &Vec<Rgba>)
        requires
            y < old(self).rows(),
            row@.len() == old(self).columns(),
        ensures
            final(self).columns() == old(self).columns(),
            final(self).rows() == old(self).rows(),
            final(self).pixels().len() == old(self).pixels().len(),
            final(self).pixels().len() == final(self).columns() * final(self).rows(),
            final(self).row_spec(y as int) == row@,
            forall|x: int|
                0 <= x < old(self).columns() ==> #[trigger] final(self).pixel_spec(x, y as int) == row@[x],
            forall|x: int, v: int|
                0 <= x < old(self).columns() && 0 <= v < old(self).rows() && v != y
                    ==> #[trigger] final(self).pixel_spec(x, v) == old(self).pixel_spec(x, v),
    {
        let w: usize = self.w;
        let len: usize = self.data.len();
        proof {
            use_type_invariant(&*self);
            assert(0 <= y * w && y * w + w <= w * self.h) by (nonlinear_arith)
                requires
                    0 <= y < self.h,
                    0 <= w,
            ;
        }
        let start: usize = y * w;
        let mut x: usize = 0;
        while x < w
            invariant
                x <= w,
                w == self.w,
                self.h == old(self).h,
                self.w == old(self).w,
                start == y * w,
                start + w <= self.data@.len(),
                len == self.data@.len(),
                row@.len() == w,
                self.data@.len() == old(self).data@.len(),
                self.data@.len() == self.w * self.h,
                forall|k: int| 0 <= k < x ==> self.data@[start + k] == row@[k],
                forall|i: int|
                    0 <= i < self.data@.len() && !(start <= i < start + w) ==> self.data@[i] == old(
                        self,
                    ).data@[i],
            decreases w - x,
        {
            self.data[start + x] = row[x];
            x = x + 1;
        }
        proof {
            assert((y + 1) * w == start + w) by (nonlinear_arith)
                requires
                    start == y * w,
            ;
            assert(self.row_spec(y as int) =~= row@);
            assert forall|x: int| 0 <= x < old(self).columns() implies #[trigger] self.pixel_spec(x, y as int)
                == row@[x] by {
                assert(place(w as nat, x, y as int) == start + x);
            }
            assert forall|x: int, v: int|
                0 <= x < old(self).columns() && 0 <= v < old(self).rows() && v != y implies #[trigger] self.pixel_spec(
                x,
                v,
            ) == old(self).pixel_spec(x, v) by {
                lemma_place_in_range(w as nat, self.h as nat, x, v);
                lemma_rows_apart(w as nat, x, v, 0, y as int);
                lemma_rows_apart(w as nat, x, v, w - 1, y as int);
                assert(v < y ==> place(w as nat, x, v) < start) by (nonlinear_arith)
                    requires
                        0 <= x < w,
                        0 <= v,
                        start == y * w,
                        place(w as nat, x, v) == v * w + x,
                ;
                assert(v > y ==> place(w as nat, x, v) >= start + w) by (nonlinear_arith)
                    requires
                        0 <= x < w,
                        0 <= y,
                        start == y * w,
                        place(w as nat, x, v) == v * w + x,
                ;
            }
        }
    }
}

/// Every pixel of a picture has its place within the buffer.
pub proof fn lemma_place_in_range(width: nat, height: nat, x: int, y: int)
    requires
        0 <= x < width,
        0 <= y < height,
    ensures
        0 <= place(width, x, y) < width * height,
        0 <= y * width <= place(width, x, y),
{
    assert(0 <= y * width && y * width + x < width * height) by (nonlinear_arith)
        requires
            0 <= x < width,
            0 <= y < height,
    ;
}

/// No two pixels share a place: the rows of a picture do not overlap, so
/// that what colours one row cannot disturb another.
pub proof fn lemma_rows_apart(width: nat, x1: int, y1: int, x2: int, y2: int)
    requires
        0 <= x1 < width,
        0 <= x2 < width,
        0 <= y1,
        0 <= y2,
    ensures
        place(width, x1, y1) == place(width, x2, y2) <==> x1 == x2 && y1 == y2,
{
    if y1 < y2 {
        assert(y1 * width + x1 < y2 * width + x2) by (nonlinear_arith)
            requires
                0 <= x1 < width,
                0 <= x2,
                0 <= y1 < y2,
        ;
    } else if y2 < y1 {
        assert(y2 * width + x2 < y1 * width + x1) by (nonlinear_arith)
            requires
                0 <= x2 < width,
                0 <= x1,
                0 <= y2 < y1,
        ;
    }
}

} // verus!
