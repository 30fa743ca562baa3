//! The encoder: an RGB raster plus a validated channel mask become a
//! packed buffer, one 16-bit word per pixel in raster order.

use vstd::prelude::*;

use crate::MAGIC;
use crate::buffer::EncodedBuffer;
use crate::codec::{encode_words, pack_word};
use crate::errors::FileFormatError;
use crate::file::{extension_of, extension_src, extract_extension, first_dot, last_dot,
    lemma_last_dot_props, str_eq};
use crate::mask::valid_mask;
use crate::raster::Raster;

verus! {

/// Command-line choices for an encode run: the raster file to read, the
/// packed file to write, and the mask specification string.
pub struct EncodeOptions {
    pub input: String,
    pub output: String,
    pub format: String,
}

/// Packs one pixel into its 16-bit word under `mask`: each channel is
/// truncated to its allotted bits and shifted to its field; a 0-bit
/// channel's term is omitted.
pub fn pack_pixel(p: (u8, u8, u8), mask: (u8, u8, u8)) -> (r: u16)
    requires
        valid_mask(mask),
    ensures
        r == pack_word(p, mask),
{
    let r_term: u16 = if mask.0 == 0 {
        0
    } else {
        ((p.0 >> (8 - mask.0)) as u16) << (mask.1 + mask.2)
    };
    let g_term: u16 = if mask.1 == 0 {
        0
    } else {
        ((p.1 >> (8 - mask.1)) as u16) << mask.2
    };
    let b_term: u16 = if mask.2 == 0 {
        0
    } else {
        (p.2 >> (8 - mask.2)) as u16
    };
    r_term | g_term | b_term
}

/// Encodes a whole raster under an already validated mask.
///
/// The result carries the magic value, the mask, the raster's dimensions,
/// and one packed word per pixel in raster order. Encoding cannot fail.
pub fn encode(raster: &Raster, mask: (u8, u8, u8)) -> (r: EncodedBuffer)
    requires
        valid_mask(mask),
        raster.wf(),
    ensures
        r.magic_spec() == MAGIC,
        r.mask_spec() == mask,
        r.width_spec() == raster.width,
        r.height_spec() == raster.height,
        r.pixels_spec() == encode_words(raster.pixels@, mask),
        r.wf(),
{
    let mut buffer = EncodedBuffer::new(Some(mask));
    buffer.set_width_and_height((raster.width as u32, raster.height as u32));
    let n = raster.pixels.len();
    let mut i: usize = 0;
    while i < n
        invariant
            i <= n,
            n == raster.pixels@.len(),
            valid_mask(mask),
            buffer.magic_spec() == MAGIC,
            buffer.mask_spec() == mask,
            buffer.width_spec() == raster.width,
            buffer.height_spec() == raster.height,
            buffer.pixels_spec() =~= encode_words(raster.pixels@, mask).take(i as int),
        decreases n - i,
    {
        let p = raster.pixels[i];
        let w = pack_pixel(p, mask);
        buffer.push(w);
        assert(buffer.pixels_spec() =~= encode_words(raster.pixels@, mask).take(i as int + 1));
        i += 1;
    }
    assert(buffer.pixels_spec() =~= encode_words(raster.pixels@, mask));
    buffer
}

/// Checks the file names of an encode run: the input must carry a raster
/// extension (`png`, `bmp` or `ppm`), the output the packed format's
/// extension (`rq565`). Checked in that call order, but the output
/// extension is judged first.
pub fn validate_files(input: &str, output: &str) -> (r: Result<(), FileFormatError>)
    ensures
        r is Ok <==> (last_dot(input@) >= 0 && last_dot(output@) >= 0 && extension_of(output@)
            == "rq565"@ && (extension_of(input@) == "png"@ || extension_of(input@) == "bmp"@
            || extension_of(input@) == "ppm"@)),
        last_dot(input@) < 0 || (last_dot(input@) >= 0 && last_dot(output@) < 0) ==> r
            == Err::<(), FileFormatError>(FileFormatError::MissingExtension),
        last_dot(input@) >= 0 && last_dot(output@) >= 0 && extension_of(output@) != "rq565"@
            ==> (r matches Err(e) && e matches FileFormatError::UnsupportedFormat {
            input: p,
            start,
            len,
        } && p@ == output@ && start == first_dot(output@) + 1 && len == extension_of(output@).len()),
        last_dot(input@) >= 0 && last_dot(output@) >= 0 && extension_of(output@) == "rq565"@
            && !(extension_of(input@) == "png"@ || extension_of(input@) == "bmp"@
            || extension_of(input@) == "ppm"@) ==> (r matches Err(e) && e matches FileFormatError::UnsupportedFormat {
            input: p,
            start,
            len,
        } && p@ == input@ && start == first_dot(input@) + 1 && len == extension_of(input@).len()),
{
    let input_extension = match extract_extension(input) {
        Ok(e) => e,
        Err(e) => {
            return Err(e);
        },
    };
    let output_extension = match extract_extension(output) {
        Ok(e) => e,
        Err(e) => {
            return Err(e);
        },
    };
    if !str_eq(output_extension, "rq565") {
        proof {
            lemma_last_dot_props(output@);
            assert(output@[last_dot(output@)] == '.');
        }
        let span = extension_src(output, output_extension.unicode_len());
        return Err(
            FileFormatError::UnsupportedFormat { input: output.to_owned(), start: span.0, len: span.1 },
        );
    }
    if str_eq(input_extension, "png") || str_eq(input_extension, "bmp") || str_eq(
        input_extension,
        "ppm",
    ) {
        Ok(())
    } else {
        proof {
            lemma_last_dot_props(input@);
            assert(input@[last_dot(input@)] == '.');
        }
        let span = extension_src(input, input_extension.unicode_len());
        Err(FileFormatError::UnsupportedFormat { input: input.to_owned(), start: span.0, len: span.1 })
    }
}

} // verus!
