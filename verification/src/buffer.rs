//! The in-memory packed image: header fields plus the 16-bit pixel words,
//! with the canonical little-endian byte serialization and its inverse.
//!
//! Wire layout: magic (2 bytes), the three mask components (1 byte each),
//! width (2 bytes), height (2 bytes), then one 16-bit word per pixel in
//! row-major order; all multi-byte integers little-endian.

use vstd::prelude::*;

use crate::MAGIC;
use crate::errors::FormatError;
use crate::mask::valid_mask;

verus! {

/// The 16-bit value stored little-endian as the bytes `lo`, `hi`.
pub open spec fn le16(lo: u8, hi: u8) -> u16 {
    ((lo as u16) | ((hi as u16) << 8u16)) as u16
}

/// Low-order byte of a 16-bit value.
pub open spec fn lo_byte(v: u16) -> u8 {
    (v & 0xFF) as u8
}

/// High-order byte of a 16-bit value.
pub open spec fn hi_byte(v: u16) -> u8 {
    (v >> 8u16) as u8
}

/// Byte serialization of the pixel payload: each word little-endian,
/// in order.
pub open spec fn payload_bytes(ws: Seq<u16>) -> Seq<u8> {
    Seq::new(
        2 * ws.len(),
        |j: int|
            if j % 2 == 0 {
                lo_byte(ws[j / 2])
            } else {
                hi_byte(ws[j / 2])
            },
    )
}

/// An image in the packed format: a 16-bit magic sentinel, the channel
/// mask its pixels were encoded with, the dimensions, and one packed
/// 16-bit word per pixel, row-major.
pub struct EncodedBuffer {
    pixels: Vec<u16>,
    mask: (u8, u8, u8),
    width: u16,
    height: u16,
    magic_byte: u16,
}

impl EncodedBuffer {
    /// The magic sentinel stored in this buffer.
    pub closed spec fn magic_spec(&self) -> u16 {
        self.magic_byte
    }

    /// The channel mask stored in this buffer.
    pub closed spec fn mask_spec(&self) -> (u8, u8, u8) {
        self.mask
    }

    /// Width in pixels.
    pub closed spec fn width_spec(&self) -> u16 {
        self.width
    }

    /// Height in pixels.
    pub closed spec fn height_spec(&self) -> u16 {
        self.height
    }

    /// The packed pixel words, row-major.
    pub closed spec fn pixels_spec(&self) -> Seq<u16> {
        self.pixels@
    }

    /// A filled buffer holds exactly one word per pixel.
    pub open spec fn wf(&self) -> bool {
        self.pixels_spec().len() == self.width_spec() * self.height_spec()
    }

    /// The canonical byte serialization: 9 header bytes, then the payload.
    pub open spec fn ser_spec(&self) -> Seq<u8> {
        seq![
            lo_byte(self.magic_spec()),
            hi_byte(self.magic_spec()),
            self.mask_spec().0,
            self.mask_spec().1,
            self.mask_spec().2,
            lo_byte(self.width_spec()),
            hi_byte(self.width_spec()),
            lo_byte(self.height_spec()),
            hi_byte(self.height_spec()),
        ] + payload_bytes(self.pixels_spec())
    }

    /// An empty buffer carrying the magic value and the given mask
    /// (5/6/5 when none is given), with no pixels yet.
    pub fn new(mask: Option<(u8, u8, u8)>) -> (r: Self)
        ensures
            r.magic_spec() == MAGIC,
            mask matches Some(m) ==> r.mask_spec() == m,
            mask is None ==> r.mask_spec() == (5u8, 6u8, 5u8),
            r.width_spec() == 0,
            r.height_spec() == 0,
            r.pixels_spec() == Seq::<u16>::empty(),
            r.wf(),
    {
        let m = match mask {
            Some(m) => m,
            None => (5, 6, 5),
        };
        let r = Self { magic_byte: MAGIC, mask: m, width: 0, height: 0, pixels: Vec::new() };
        assert(r.pixels_spec() =~= Seq::<u16>::empty());
        r
    }

    /// The magic sentinel stored in this buffer.
    pub fn get_magic(&self) -> (r: u16)
        ensures
            r == self.magic_spec(),
    {
        self.magic_byte
    }

    /// The mask this buffer's pixels were encoded with.
    pub fn get_mask(&self) -> (r: (u8, u8, u8))
        ensures
            r == self.mask_spec(),
    {
        self.mask
    }

    /// Replaces the stored mask; everything else is kept.
    pub fn set_mask(&mut self, mask: (u8, u8, u8))
        ensures
            final(self).mask_spec() == mask,
            final(self).magic_spec() == old(self).magic_spec(),
            final(self).width_spec() == old(self).width_spec(),
            final(self).height_spec() == old(self).height_spec(),
            final(self).pixels_spec() == old(self).pixels_spec(),
    {
        self.mask = mask;
    }

    /// Stores the dimensions; everything else is kept.
    pub fn set_width_and_height(&mut self, dims: (u32, u32))
        requires
            dims.0 <= u16::MAX,
            dims.1 <= u16::MAX,
        ensures
            final(self).width_spec() == dims.0 as u16,
            final(self).height_spec() == dims.1 as u16,
            final(self).magic_spec() == old(self).magic_spec(),
            final(self).mask_spec() == old(self).mask_spec(),
            final(self).pixels_spec() == old(self).pixels_spec(),
    {
        self.width = dims.0 as u16;
        self.height = dims.1 as u16;
    }

    /// Width in pixels.
    pub fn get_width(&self) -> (r: u16)
        ensures
            r == self.width_spec(),
    {
        self.width
    }

    /// Height in pixels.
    pub fn get_height(&self) -> (r: u16)
        ensures
            r == self.height_spec(),
    {
        self.height
    }

    /// The packed word of the pixel at column `x`, row `y`.
    pub fn get_pixel(&self, x: u16, y: u16) -> (r: u16)
        requires
            self.wf(),
            x < self.width_spec(),
            y < self.height_spec(),
        ensures
            r == self.pixels_spec()[y as int * self.width_spec() as int + x as int],
    {
        proof {
            assert((y as int) * (self.width_spec() as int) + (x as int)
                < (self.width_spec() as int) * (self.height_spec() as int)) by (nonlinear_arith)
                requires
                    x < self.width_spec(),
                    y < self.height_spec(),
            ;
            assert((self.width_spec() as int) * (self.height_spec() as int) <= 0xFFFF * 0xFFFF)
                by (nonlinear_arith)
                requires
                    self.width_spec() <= 0xFFFF,
                    self.height_spec() <= 0xFFFF,
            ;
        }
        let idx: usize = (y as usize) * (self.width as usize) + (x as usize);
        self.pixels[idx]
    }

    /// All packed words, row-major.
    pub fn get_pixels(&self) -> (r: &[u16])
        ensures
            r@ == self.pixels_spec(),
    {
        self.pixels.as_slice()
    }

    /// Appends one packed word; header fields are kept.
    pub fn push(&mut self, value: u16)
        ensures
            final(self).pixels_spec() == old(self).pixels_spec().push(value),
            final(self).magic_spec() == old(self).magic_spec(),
            final(self).mask_spec() == old(self).mask_spec(),
            final(self).width_spec() == old(self).width_spec(),
            final(self).height_spec() == old(self).height_spec(),
    {
        self.pixels.push(value);
    }

    /// Number of packed words held.
    pub fn len(&self) -> (r: usize)
        ensures
            r == self.pixels_spec().len(),
    {
        self.pixels.len()
    }
}

/// Splits a 16-bit value into its little-endian byte pair.
fn split_le(v: u16) -> (r: (u8, u8))
    ensures
        r.0 == lo_byte(v),
        r.1 == hi_byte(v),
{
    proof {
        assert(v & 0xFF < 256 && v >> 8u16 < 256) by (bit_vector);
    }
    (((v & 0xFF) as u8), ((v >> 8u16) as u8))
}

/// Joins a little-endian byte pair into a 16-bit value.
fn join_le(lo: u8, hi: u8) -> (r: u16)
    ensures
        r == le16(lo, hi),
{
    (lo as u16) | ((hi as u16) << 8u16)
}

proof fn lemma_le16_round(v: u16)
    by (bit_vector)
    ensures
        le16(lo_byte(v), hi_byte(v)) == v,
{
}

/// The magic value a byte stream leads with.
pub open spec fn parsed_magic(d: Seq<u8>) -> u16
    recommends
        d.len() >= 2,
{
    le16(d[0], d[1])
}

/// The mask triple stored in a byte stream's header.
pub open spec fn parsed_mask(d: Seq<u8>) -> (u8, u8, u8)
    recommends
        d.len() >= 5,
{
    (d[2], d[3], d[4])
}

/// The width stored in a byte stream's header.
pub open spec fn parsed_width(d: Seq<u8>) -> u16
    recommends
        d.len() >= 7,
{
    le16(d[5], d[6])
}

/// The height stored in a byte stream's header.
pub open spec fn parsed_height(d: Seq<u8>) -> u16
    recommends
        d.len() >= 9,
{
    le16(d[7], d[8])
}

/// The first `n` packed words following the header of a byte stream.
pub open spec fn parsed_words(d: Seq<u8>, n: int) -> Seq<u16>
    recommends
        d.len() >= 9 + 2 * n,
{
    Seq::new(n as nat, |i: int| le16(d[9 + 2 * i], d[9 + 2 * i + 1]))
}

/// The stream is at least a header long, leads with the magic value, and
/// stores a valid channel mask.
pub open spec fn header_ok(d: Seq<u8>) -> bool {
    d.len() >= 9 && parsed_magic(d) == MAGIC && valid_mask(parsed_mask(d))
}

/// The stream also carries at least `width * height` packed words.
pub open spec fn stream_ok(d: Seq<u8>) -> bool {
    header_ok(d) && d.len() >= 9 + 2 * (parsed_width(d) as int) * (parsed_height(d) as int)
}

impl EncodedBuffer {
    /// The canonical byte serialization: header, then one little-endian
    /// word per pixel. Emits exactly `9 + 2 * len` bytes.
    pub fn bytes(&self) -> (r: Vec<u8>)
        requires
            9 + 2 * self.pixels_spec().len() <= usize::MAX,
        ensures
            r@ == self.ser_spec(),
    {
        let mut out: Vec<u8> = Vec::new();
        let (mlo, mhi) = split_le(self.magic_byte);
        out.push(mlo);
        out.push(mhi);
        out.push(self.mask.0);
        out.push(self.mask.1);
        out.push(self.mask.2);
        let (wlo, whi) = split_le(self.width);
        out.push(wlo);
        out.push(whi);
        let (hlo, hhi) = split_le(self.height);
        out.push(hlo);
        out.push(hhi);
        assert(out@ =~= self.ser_spec().take(9));
        let n = self.pixels.len();
        let mut i: usize = 0;
        while i < n
            invariant
                i <= n,
                n == self.pixels_spec().len(),
                9 + 2 * n <= usize::MAX,
                out@.len() == 9 + 2 * i,
                out@ =~= self.ser_spec().take(9 + 2 * (i as int)),
            decreases n - i,
        {
            let (plo, phi) = split_le(self.pixels[i]);
            out.push(plo);
            out.push(phi);
            assert(out@ =~= self.ser_spec().take(9 + 2 * (i as int) + 2));
            i += 1;
        }
        assert(out@ =~= self.ser_spec());
        out
    }

    /// The payload bytes alone: each pixel word little-endian, in order.
    pub fn data(&self) -> (r: Vec<u8>)
        requires
            2 * self.pixels_spec().len() <= usize::MAX,
        ensures
            r@ == payload_bytes(self.pixels_spec()),
    {
        let mut out: Vec<u8> = Vec::new();
        let n = self.pixels.len();
        let mut i: usize = 0;
        while i < n
            invariant
                i <= n,
                n == self.pixels_spec().len(),
                2 * n <= usize::MAX,
                out@.len() == 2 * i,
                out@ =~= payload_bytes(self.pixels_spec()).take(2 * (i as int)),
            decreases n - i,
        {
            let (plo, phi) = split_le(self.pixels[i]);
            out.push(plo);
            out.push(phi);
            assert(out@ =~= payload_bytes(self.pixels_spec()).take(2 * (i as int) + 2));
            i += 1;
        }
        assert(out@ =~= payload_bytes(self.pixels_spec()));
        out
    }

    /// Parses the canonical byte serialization.
    ///
    /// Rejects with `CorruptHeader` a stream shorter than the 9-byte
    /// header, one whose leading 16 bits are not the magic value, and one
    /// whose stored mask is no valid channel allocation; rejects with
    /// `TruncatedPayload` a stream that ends before `width * height`
    /// packed words. Otherwise returns the fully populated buffer; bytes
    /// past the payload are ignored.
    pub fn from_bytes(data: &Vec<u8>) -> (r: Result<EncodedBuffer, FormatError>)
        ensures
            r is Ok <==> stream_ok(data@),
            !header_ok(data@) ==> r == Err::<EncodedBuffer, FormatError>(
                FormatError::CorruptHeader,
            ),
            header_ok(data@) && !stream_ok(data@) ==> r == Err::<EncodedBuffer, FormatError>(
                FormatError::TruncatedPayload,
            ),
            r matches Ok(b) ==> ({
                &&& b.magic_spec() == MAGIC
                &&& b.mask_spec() == parsed_mask(data@)
                &&& b.width_spec() == parsed_width(data@)
                &&& b.height_spec() == parsed_height(data@)
                &&& b.pixels_spec() == parsed_words(
                    data@,
                    (parsed_width(data@) as int) * (parsed_height(data@) as int),
                )
                &&& b.wf()
                &&& valid_mask(b.mask_spec())
            }),
    {
        let dlen: usize = data.len();
        if dlen < 9 {
            return Err(FormatError::CorruptHeader);
        }
        let magic = join_le(data[0], data[1]);
        if magic != MAGIC {
            return Err(FormatError::CorruptHeader);
        }
        let m0 = data[2];
        let m1 = data[3];
        let m2 = data[4];
        if m0 > 8 || m1 > 8 || m2 > 8 {
            return Err(FormatError::CorruptHeader);
        }
        if m0 + m1 + m2 != 16 {
            return Err(FormatError::CorruptHeader);
        }
        let width = join_le(data[5], data[6]);
        let height = join_le(data[7], data[8]);
        proof {
            assert((width as int) * (height as int) <= 0xFFFF * 0xFFFF) by (nonlinear_arith)
                requires
                    width <= 0xFFFF,
                    height <= 0xFFFF,
            ;
        }
        let n: u64 = (width as u64) * (height as u64);
        proof {
            assert(2 * (width as int) * (height as int) == 2 * ((width as int) * (height as int)))
                by (nonlinear_arith);
        }
        if (dlen as u64) < 9 + 2 * n {
            return Err(FormatError::TruncatedPayload);
        }
        let count: usize = (width as usize) * (height as usize);
        let mut pixels: Vec<u16> = Vec::new();
        let mut i: usize = 0;
        while i < count
            invariant
                i <= count,
                count == (width as int) * (height as int),
                dlen == data@.len(),
                9 + 2 * count <= dlen,
                pixels@ =~= parsed_words(data@, i as int),
            decreases count - i,
        {
            let lo = data[9 + 2 * i];
            let hi = data[9 + 2 * i + 1];
            let w = join_le(lo, hi);
            pixels.push(w);
            assert(pixels@ =~= parsed_words(data@, i as int + 1));
            i += 1;
        }
        let b = EncodedBuffer { magic_byte: magic, mask: (m0, m1, m2), width, height, pixels };
        Ok(b)
    }
}

/// Law: parsing the canonical serialization of a well-formed packed image
/// gives back the identical magic, mask, width, height and pixel words.
pub proof fn lemma_serialize_parse(b: &EncodedBuffer)
    requires
        b.wf(),
        valid_mask(b.mask_spec()),
        b.magic_spec() == MAGIC,
    ensures
        b.ser_spec().len() == 9 + 2 * (b.width_spec() as int) * (b.height_spec() as int),
        stream_ok(b.ser_spec()),
        parsed_magic(b.ser_spec()) == b.magic_spec(),
        parsed_mask(b.ser_spec()) == b.mask_spec(),
        parsed_width(b.ser_spec()) == b.width_spec(),
        parsed_height(b.ser_spec()) == b.height_spec(),
        parsed_words(
            b.ser_spec(),
            (b.width_spec() as int) * (b.height_spec() as int),
        ) == b.pixels_spec(),
{
    let d = b.ser_spec();
    assert(2 * (b.width_spec() as int) * (b.height_spec() as int) == 2 * ((b.width_spec() as int)
        * (b.height_spec() as int))) by (nonlinear_arith);
    lemma_le16_round(b.magic_spec());
    lemma_le16_round(b.width_spec());
    lemma_le16_round(b.height_spec());
    let n = (b.width_spec() as int) * (b.height_spec() as int);
    assert forall|i: int| 0 <= i < n implies parsed_words(d, n)[i] == b.pixels_spec()[i] by {
        assert(d[9 + 2 * i] == lo_byte(b.pixels_spec()[i]));
        assert(d[9 + 2 * i + 1] == hi_byte(b.pixels_spec()[i]));
        lemma_le16_round(b.pixels_spec()[i]);
    }
    assert(parsed_words(d, n) =~= b.pixels_spec());
}

} // verus!
