//! An uncompressed 24-bit RGB raster: the codec's input and output.

use vstd::prelude::*;

verus! {

/// Flat RGB8 byte serialization of a pixel sequence: three bytes per
/// pixel, in order red, green, blue.
pub open spec fn raster_bytes(ps: Seq<(u8, u8, u8)>) -> Seq<u8> {
    Seq::new(
        3 * ps.len(),
        |j: int|
            if j % 3 == 0 {
                ps[j / 3].0
            } else if j % 3 == 1 {
                ps[j / 3].1
            } else {
                ps[j / 3].2
            },
    )
}

/// An in-memory RGB8 pixel matrix with explicit dimensions; pixels are
/// stored row-major, top-to-bottom, left-to-right.
pub struct Raster {
    pub width: u16,
    pub height: u16,
    pub pixels: Vec<(u8, u8, u8)>,
}

impl Raster {
    /// A raster holds exactly one pixel triple per coordinate.
    pub open spec fn wf(&self) -> bool {
        self.pixels@.len() == self.width * self.height
    }

    /// Builds a raster after checking that the pixel count matches the
    /// dimensions; `None` when it does not.
    pub fn new(width: u16, height: u16, pixels: Vec<(u8, u8, u8)>) -> (r: Option<Raster>)
        ensures
            r is Some <==> pixels@.len() == width * height,
            r matches Some(ras) ==> ({
                &&& ras.width == width
                &&& ras.height == height
                &&& ras.pixels@ == pixels@
                &&& ras.wf()
            }),
    {
        proof {
            assert((width as int) * (height as int) <= 0xFFFF * 0xFFFF) by (nonlinear_arith)
                requires
                    width <= 0xFFFF,
                    height <= 0xFFFF,
            ;
        }
        let expected: usize = (width as usize) * (height as usize);
        if pixels.len() == expected {
            Some(Raster { width, height, pixels })
        } else {
            None
        }
    }

    /// The flat RGB8 byte sequence of the pixels, three bytes per pixel.
    pub fn bytes(&self) -> (r: Vec<u8>)
        requires
            3 * self.pixels@.len() <= usize::MAX,
        ensures
            r@ == raster_bytes(self.pixels@),
    {
        let mut out: Vec<u8> = Vec::new();
        let n = self.pixels.len();
        let mut i: usize = 0;
        while i < n
            invariant
                i <= n,
                n == self.pixels@.len(),
                3 * n <= usize::MAX,
                out@.len() == 3 * i,
                out@ =~= raster_bytes(self.pixels@).take(3 * (i as int)),
            decreases n - i,
        {
            let p = self.pixels[i];
            out.push(p.0);
            out.push(p.1);
            out.push(p.2);
            assert(out@ =~= raster_bytes(self.pixels@).take(3 * (i as int) + 3));
            i += 1;
        }
        assert(out@ =~= raster_bytes(self.pixels@));
        out
    }
}

} // verus!
