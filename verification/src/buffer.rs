//! The pixel buffer that every render produces.
use vstd::prelude::*;
use crate::color::Rgba;

verus! {

/// A `width` by `height` grid of pixels in row-major order: the pixel in
/// column `x` of row `y` stands at index `y * width + x`.
#[derive(Debug, PartialEq, Eq)]
pub struct PixelBuffer {
    width: usize,
    height: usize,
    pixels: Vec<Rgba>,
}

/// The byte layout of a row of pixels: four bytes each, in the order red,
/// green, blue, opacity.
pub open spec fn rgba8_of(pixels: Seq<Rgba>) -> Seq<u8> {
    Seq::new(4 * pixels.len(), |k: int| pixels[k / 4].channels()[k % 4])
}

/// The index of column `x` of row `y` stays inside a grid that holds both.
pub proof fn lemma_index_in_grid(x: int, y: int, width: int, height: int)
    requires
        0 <= x < width,
        0 <= y < height,
    ensures
        0 <= y * width + x < width * height,
        (y * width + x) / width == y,
        (y * width + x) % width == x,
{
    assert(0 <= y * width && (y + 1) * width <= height * width) by (nonlinear_arith)
        requires
            0 <= y < height,
            0 < width,
    ;
    assert((y + 1) * width == y * width + width) by (nonlinear_arith);
    assert(height * width == width * height) by (nonlinear_arith);
    vstd::arithmetic::div_mod::lemma_fundamental_div_mod_converse(y * width + x, width, y, x);
}

impl View for PixelBuffer {
    type V = Seq<Rgba>;

    /// The pixels, row after row.
    closed spec fn view(&self) -> Seq<Rgba> {
        self.pixels@
    }
}

impl Clone for PixelBuffer {
    /// A copy with the same size and the same pixels.
    fn clone(&self) -> (out: PixelBuffer)
        ensures
            out.columns() == self.columns(),
            out.rows() == self.rows(),
            out@ == self@,
    {
        proof {
            use_type_invariant(self);
        }
        let mut pixels: Vec<Rgba> = Vec::new();
        let mut k: usize = 0;
        while k < self.pixels.len()
            invariant
                k <= self.pixels@.len(),
                pixels@ == self.pixels@.take(k as int),
            decreases self.pixels@.len() - k,
        {
            pixels.push(self.pixels[k]);
            assert(self.pixels@.take(k + 1) =~= self.pixels@.take(k as int).push(self.pixels@[k as int]));
            k += 1;
        }
        assert(self.pixels@.take(k as int) =~= self.pixels@);
        PixelBuffer { width: self.width, height: self.height, pixels }
    }
}

impl PixelBuffer {
    #[verifier::type_invariant]
    spec fn well_formed(self) -> bool {
        self.pixels@.len() == self.width * self.height
    }

    /// The number of columns.
    pub closed spec fn columns(self) -> nat {
        self.width as nat
    }

    /// The number of rows.
    pub closed spec fn rows(self) -> nat {
        self.height as nat
    }

    /// The pixel in column `x` of row `y`.
    pub open spec fn pixel(self, x: int, y: int) -> Rgba {
        self@[y * self.columns() + x]
    }

    /// A buffer in which every pixel has one colour.
    pub fn filled(width: usize, height: usize, color: Rgba) -> (buf: PixelBuffer)
        requires
            width * height <= usize::MAX,
        ensures
            buf.columns() == width,
            buf.rows() == height,
            buf@ == Seq::new((width * height) as nat, |k: int| color),
    {
        let total: usize = width * height;
        let mut pixels: Vec<Rgba> = Vec::new();
        let mut k: usize = 0;
        while k < total
            invariant
                k <= total,
                pixels@.len() == k,
                forall|m: int| 0 <= m < k ==> pixels@[m] == color,
            decreases total - k,
        {
            pixels.push(color);
            k += 1;
        }
        assert(pixels@ =~= Seq::new((width * height) as nat, |k: int| color));
        PixelBuffer { width, height, pixels }
    }

    /// Takes as many pixels as the grid holds, already in row-major order.
    pub(crate) fn from_grid(width: usize, height: usize, pixels: Vec<Rgba>) -> (buf: PixelBuffer)
        requires
            pixels@.len() == width * height,
        ensures
            buf.columns() == width,
            buf.rows() == height,
            buf@ == pixels@,
    {
        PixelBuffer { width, height, pixels }
    }

    /// Takes pixels that are already in row-major order. They are accepted
    /// exactly when there are `width * height` of them.
    pub fn from_pixels(width: usize, height: usize, pixels: Vec<Rgba>) -> (out: Option<PixelBuffer>)
        ensures
            out.is_some() <==> pixels@.len() == width * height,
            out matches Some(buf) ==> buf.columns() == width && buf.rows() == height && buf@
                == pixels@,
    {
        assert(width * height <= 0xFFFF_FFFF_FFFF_FFFF * 0xFFFF_FFFF_FFFF_FFFF)
            by (nonlinear_arith)
            requires
                0 <= width <= 0xFFFF_FFFF_FFFF_FFFF,
                0 <= height <= 0xFFFF_FFFF_FFFF_FFFF,
        ;
        let wide: u128 = (width as u128) * (height as u128);
        if pixels.len() as u128 == wide {
            Some(PixelBuffer { width, height, pixels })
        } else {
            None
        }
    }

    /// The number of columns.
    pub fn width(&self) -> (w: usize)
        ensures
            w == self.columns(),
    {
        self.width
    }

    /// The number of rows.
    pub fn height(&self) -> (h: usize)
        ensures
            h == self.rows(),
    {
        self.height
    }

    /// The number of pixels: columns times rows.
    pub fn len(&self) -> (n: usize)
        ensures
            n == self@.len(),
            n == self.columns() * self.rows(),
    {
        proof {
            use_type_invariant(self);
        }
        self.pixels.len()
    }

    /// The pixel in column `x` of row `y`, where the buffer has one.
    pub fn get(&self, x: usize, y: usize) -> (out: Option<Rgba>)
        ensures
            out.is_some() <==> x < self.columns() && y < self.rows(),
            out matches Some(c) ==> c == self.pixel(x as int, y as int),
    {
        proof {
            use_type_invariant(self);
        }
        if x < self.width && y < self.height {
            proof {
                lemma_index_in_grid(x as int, y as int, self.width as int, self.height as int);
            }
            let count: usize = self.pixels.len();
            assert(y * self.width + x < count);
            let at: usize = y * self.width + x;
            Some(self.pixels[at])
        } else {
            None
        }
    }

    /// The pixels, row after row.
    pub fn pixels(&self) -> (all: &Vec<Rgba>)
        ensures
            all@ == self@,
            all@.len() == self.columns() * self.rows(),
    {
        proof {
            use_type_invariant(self);
        }
        &self.pixels
    }

    /// The buffer as bytes, four per pixel, as an image encoder takes them.
    pub fn to_rgba8(&self) -> (bytes: Vec<u8>)
        ensures
            bytes@ == rgba8_of(self@),
            bytes@.len() == 4 * self.columns() * self.rows(),
    {
        proof {
            use_type_invariant(self);
        }
        let mut bytes: Vec<u8> = Vec::new();
        let mut k: usize = 0;
        while k < self.pixels.len()
            invariant
                k <= self.pixels@.len(),
                bytes@.len() == 4 * k,
                forall|m: int| 0 <= m < 4 * k ==> bytes@[m] == self.pixels@[m / 4].channels()[m % 4],
            decreases self.pixels@.len() - k,
        {
            let p: Rgba = self.pixels[k];
            bytes.push(p.r);
            bytes.push(p.g);
            bytes.push(p.b);
            bytes.push(p.a);
            k += 1;
        }
        assert(bytes@ =~= rgba8_of(self@));
        assert(4 * (self.width * self.height) == 4 * self.width * self.height) by (nonlinear_arith);
        bytes
    }
}

} // verus!
