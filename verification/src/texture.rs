//! Images to paint surfaces with.
use vstd::prelude::*;
use crate::color::Rgba;
use crate::scalar::Scalar;

verus! {

/// Which of `count` cells in a row a position lies in.
///
/// A position counts cells from the near edge: it lies in the cell of its
/// whole part, nothing is rounded. A position beyond the last cell lies in
/// the last, one before the first, or one that is no number, in the first.
pub open spec fn cell(pos: Scalar, count: nat) -> int {
    if pos.index_spec() < count {
        pos.index_spec()
    } else {
        count - 1
    }
}

/// A coordinate on an image, held to the image: below zero it counts as
/// zero, above one as one. A coordinate that is no number stays what it is.
pub open spec fn on_image_spec(t: Scalar) -> Scalar {
    t.clamp_of(Scalar::zero_spec(), Scalar::one_spec())
}

/// A coordinate on an image, held to the image, see [`on_image_spec`].
pub fn on_image(t: Scalar) -> (r: Scalar)
    ensures
        r == on_image_spec(t),
        !t.nan() ==> Scalar::zero_spec().less_eq(r) && r.less_eq(Scalar::one_spec()),
        Scalar::zero_spec().less_eq(t) && t.less_eq(Scalar::one_spec()) ==> r == t,
{
    t.clamp(Scalar::zero(), Scalar::one())
}

/// An image of `width` by `height` texels, stored row by row from the top.
///
/// It is never empty and never changes once made: any number of surfaces may
/// read it at once.
#[derive(Debug)]
pub struct Texture {
    w: usize,
    h: usize,
    data: Vec<Rgba>,
}

impl Texture {
    #[verifier::type_invariant]
    spec fn well_formed(&self) -> bool {
        &&& self.w > 0
        &&& self.h > 0
        &&& self.data@.len() == self.w * self.h
    }

    /// The number of texels in a row.
    pub closed spec fn columns(&self) -> nat {
        self.w as nat
    }

    /// The number of rows.
    pub closed spec fn rows(&self) -> nat {
        self.h as nat
    }

    /// The texels, row by row from the top.
    pub closed spec fn texels(&self) -> Seq<Rgba> {
        self.data@
    }

    /// The texel in column `col` of row `row`, row 0 being the top.
    pub open spec fn texel(&self, col: int, row: int) -> Rgba {
        self.texels()[row * self.columns() + col]
    }

    /// The texel under a position on the image: the one in the column that
    /// `u_pos` lies in and the row that `v_pos` lies in. There is one for
    /// every pair of patterns.
    pub open spec fn texel_under(&self, u_pos: Scalar, v_pos: Scalar) -> Rgba {
        self.texel(cell(u_pos, self.columns()), cell(v_pos, self.rows()))
    }

    /// Whether `data` holds an image of `width` by `height` texels, and that
    /// image is not empty.
    pub open spec fn fits(width: usize, height: usize, data: Seq<Rgba>) -> bool {
        width > 0 && height > 0 && data.len() == width * height
    }

    /// The image of `width` by `height` texels that `data` holds row by row
    /// from the top, or `None` where `data` holds no such image.
    pub fn from_pixels(width: usize, height: usize, data: Vec<Rgba>) -> (r: Option<Texture>)
        ensures
            r is Some <==> Texture::fits(width, height, data@),
            r matches Some(t) ==> t.columns() == width && t.rows() == height && t.texels()
                == data@,
    {
        if width == 0 || height == 0 {
            return None;
        }
        let len: usize = data.len();
        match width.checked_mul(height) {
            Some(n) => {
                if len == n {
                    Some(Texture { w: width, h: height, data })
                } else {
                    None
                }
            },
            None => {
                None
            },
        }
    }

    /// The number of texels in a row.
    pub fn width(&self) -> (r: usize)
        ensures
            r == self.columns(),
            r > 0,
    {
        proof {
            use_type_invariant(self);
        }
        self.w
    }

    /// The number of rows.
    pub fn height(&self) -> (r: usize)
        ensures
            r == self.rows(),
            r > 0,
    {
        proof {
            use_type_invariant(self);
        }
        self.h
    }

    /// The colour of the texel under a position on the image, see
    /// [`Texture::texel_under`]. `u_pos` counts columns from the left edge,
    /// `v_pos` rows from the top edge.
    pub fn sample(&self, u_pos: Scalar, v_pos: Scalar) -> (r: (u8, u8, u8))
        ensures
            r == (self.texel_under(u_pos, v_pos).r, self.texel_under(u_pos, v_pos).g, self.texel_under(
                u_pos,
                v_pos,
            ).b),
    {
        let t: Rgba = self.fetch_under(u_pos, v_pos);
        (t.r, t.g, t.b)
    }

    /// The colour and the opacity of the texel under a position on the
    /// image, see [`Texture::texel_under`].
    pub fn sample_rgba(&self, u_pos: Scalar, v_pos: Scalar) -> (r: ((u8, u8, u8), u8))
        ensures
            r.0 == (self.texel_under(u_pos, v_pos).r, self.texel_under(u_pos, v_pos).g, self.texel_under(
                u_pos,
                v_pos,
            ).b),
            r.1 == self.texel_under(u_pos, v_pos).a,
    {
        let t: Rgba = self.fetch_under(u_pos, v_pos);
        ((t.r, t.g, t.b), t.a)
    }

    /// The column that a position lies in, see [`cell`].
    pub fn column_under(&self, u_pos: Scalar) -> (r: usize)
        ensures
            r == cell(u_pos, self.columns()),
            r < self.columns(),
    {
        proof {
            use_type_invariant(self);
        }
        let i: usize = u_pos.to_index();
        if i < self.w {
            i
        } else {
            self.w - 1
        }
    }

    /// The row that a position lies in, see [`cell`].
    pub fn row_under(&self, v_pos: Scalar) -> (r: usize)
        ensures
            r == cell(v_pos, self.rows()),
            r < self.rows(),
    {
        proof {
            use_type_invariant(self);
        }
        let i: usize = v_pos.to_index();
        if i < self.h {
            i
        } else {
            self.h - 1
        }
    }

    fn fetch_under(&self, u_pos: Scalar, v_pos: Scalar) -> (r: Rgba)
        ensures
            r == self.texel_under(u_pos, v_pos),
    {
        let col: usize = self.column_under(u_pos);
        let row: usize = self.row_under(v_pos);
        self.fetch(col, row)
    }

    fn fetch(&self, col: usize, row: usize) -> (r: Rgba)
        requires
            col < self.columns(),
            row < self.rows(),
        ensures
            r == self.texel(col as int, row as int),
    {
        let len: usize = self.data.len();
        proof {
            use_type_invariant(self);
            assert(len == self.w * self.h);
            assert(0 <= row * self.w && row * self.w + col < self.w * self.h) by (nonlinear_arith)
                requires
                    0 <= col < self.w,
                    0 <= row < self.h,
            ;
        }
        let i: usize = row * self.w + col;
        self.data[i]
    }
}

} // verus!
