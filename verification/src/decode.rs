//! The decoder: a packed buffer becomes an RGB raster again, through the
//! canonical proportional upscale or the fixed-factor alternate mode.

use vstd::prelude::*;

use crate::MAGIC;
use crate::buffer::EncodedBuffer;
use crate::codec::{
    augment_channel, decoded_pixels, extract_blue, extract_green, extract_red, unpack_pixel,
    upscale_channel,
};
use crate::errors::{FileFormatError, FormatError};
use crate::file::{extension_of, extension_src, extract_extension, first_dot, last_dot,
    lemma_last_dot_props, str_eq};
use crate::mask::valid_mask;
use crate::raster::Raster;

verus! {

/// Command-line choices for a decode run: the packed file to read, the
/// raster file to write, and whether to use the alternate fixed-factor
/// reconstruction.
pub struct DecodeOptions {
    pub input: String,
    pub output: String,
    pub augment: bool,
}

/// The top `mask` bits of `current_byte`, shifted down to the low end;
/// 0 when `mask` is 0. Callers pass cumulative bit counts, so that the
/// red field of a word is the top `m0` bits, the green field sits in the
/// top `m0 + m1`, and `mask == 16` returns the word unchanged.
pub fn reconstruct_channel(current_byte: u16, mask: u8) -> (r: u16)
    requires
        mask <= 16,
    ensures
        mask == 0 ==> r == 0,
        mask > 0 ==> r == current_byte >> ((16 - mask) as u16),
{
    match mask {
        0 => 0,
        _ => current_byte >> ((16 - mask) as u16),
    }
}

/// Canonical upscale of a truncated channel magnitude back to the 0-255
/// range: `(value & (2^mask - 1)) * 255 / (2^mask - 1)`, rounded toward
/// zero; 0 when the channel has no bits.
pub fn upscale(value: u16, mask: u8) -> (r: u8)
    requires
        mask <= 8,
    ensures
        r == upscale_channel(value, mask),
{
    if mask == 0 {
        return 0;
    }
    proof {
        assert((1u16 << (mask as u16)) >= 2) by (bit_vector)
            requires
                1 <= mask <= 8,
        ;
    }
    let m: u16 = (1u16 << (mask as u16)) - 1;
    let t: u16 = value & m;
    proof {
        assert(t <= m) by (bit_vector)
            requires
                t == value & m,
        ;
        assert((t as int) * 255 / (m as int) <= 255) by (nonlinear_arith)
            requires
                1 <= m,
                t <= m,
        ;
    }
    let prod: u32 = (t as u32) * 255;
    let q: u32 = prod / (m as u32);
    q as u8
}

/// The low 8 bits of `value * factor`: the alternate reconstruction of
/// one truncated channel magnitude.
fn augment_scale(value: u16, factor: u16) -> (r: u8)
    ensures
        r == augment_channel(value, factor),
{
    proof {
        assert((value as int) * (factor as int) <= 0xFFFF * 0xFFFF) by (nonlinear_arith)
            requires
                value <= 0xFFFF,
                factor <= 0xFFFF,
        ;
    }
    let prod: u32 = (value as u32) * (factor as u32);
    proof {
        assert(prod as u8 == (prod % 256) as u8) by (bit_vector);
    }
    #[verifier::truncate]
    (prod as u8)
}

/// Reconstructs one pixel from its packed word under `mask`: canonical
/// upscale when `augment` is false; when it is true, the truncated
/// magnitudes times the fixed factors 8, 4, 8, which inverts only the
/// 5/6/5 allocation and is wrongly scaled under any other mask.
pub fn unpack_word(w: u16, mask: (u8, u8, u8), augment: bool) -> (r: (u8, u8, u8))
    requires
        valid_mask(mask),
    ensures
        r == unpack_pixel(w, mask, augment),
{
    let m1: u8 = mask.1;
    let m2: u8 = mask.2;
    let tr = reconstruct_channel(w, mask.0);
    let tg_raw = reconstruct_channel(w, mask.0 + m1);
    let tg = if m1 == 0 {
        0
    } else {
        proof {
            assert((1u16 << (m1 as u16)) >= 1) by (bit_vector)
                requires
                    m1 <= 8,
            ;
        }
        tg_raw & ((1u16 << (m1 as u16)) - 1)
    };
    let tb = if m2 == 0 {
        0
    } else {
        proof {
            assert((1u16 << (m2 as u16)) >= 1) by (bit_vector)
                requires
                    m2 <= 8,
            ;
        }
        w & ((1u16 << (m2 as u16)) - 1)
    };
    assert(tr == extract_red(w, mask));
    assert(tg == extract_green(w, mask));
    assert(tb == extract_blue(w, mask));
    if augment {
        (augment_scale(tr, 8), augment_scale(tg, 4), augment_scale(tb, 8))
    } else {
        (upscale(tr, mask.0), upscale(tg, mask.1), upscale(tb, mask.2))
    }
}

/// Decodes a packed buffer back into an RGB raster.
///
/// Fails with `CorruptHeader` exactly when the buffer's magic value is
/// wrong; otherwise reconstructs every pixel, in the stored order, under
/// the stored mask and the chosen reconstruction mode.
pub fn decode(buffer: &EncodedBuffer, augment: bool) -> (r: Result<Raster, FormatError>)
    requires
        buffer.wf(),
        valid_mask(buffer.mask_spec()),
    ensures
        r is Ok <==> buffer.magic_spec() == MAGIC,
        buffer.magic_spec() != MAGIC ==> r == Err::<Raster, FormatError>(
            FormatError::CorruptHeader,
        ),
        r matches Ok(ras) ==> ({
            &&& ras.width == buffer.width_spec()
            &&& ras.height == buffer.height_spec()
            &&& ras.pixels@ == decoded_pixels(buffer.pixels_spec(), buffer.mask_spec(), augment)
            &&& ras.wf()
        }),
{
    if buffer.get_magic() != MAGIC {
        return Err(FormatError::CorruptHeader);
    }
    let mask = buffer.get_mask();
    let words = buffer.get_pixels();
    let n = words.len();
    let mut pixels: Vec<(u8, u8, u8)> = Vec::new();
    let mut i: usize = 0;
    while i < n
        invariant
            i <= n,
            n == buffer.pixels_spec().len(),
            words@ == buffer.pixels_spec(),
            mask == buffer.mask_spec(),
            valid_mask(mask),
            pixels@ =~= decoded_pixels(buffer.pixels_spec(), mask, augment).take(i as int),
        decreases n - i,
    {
        let p = unpack_word(words[i], mask, augment);
        pixels.push(p);
        assert(pixels@ =~= decoded_pixels(buffer.pixels_spec(), mask, augment).take(i as int + 1));
        i += 1;
    }
    assert(pixels@ =~= decoded_pixels(buffer.pixels_spec(), mask, augment));
    Ok(Raster { width: buffer.get_width(), height: buffer.get_height(), pixels })
}

/// Checks the file names of a decode run: the input must carry the
/// packed format's extension (`rq565`), the output a raster extension
/// (`png`, `bmp` or `ppm`).
pub fn validate_files(input: &str, output: &str) -> (r: Result<(), FileFormatError>)
    ensures
        r is Ok <==> (last_dot(input@) >= 0 && last_dot(output@) >= 0 && extension_of(input@)
            == "rq565"@ && (extension_of(output@) == "png"@ || extension_of(output@) == "bmp"@
            || extension_of(output@) == "ppm"@)),
        last_dot(input@) < 0 || (last_dot(input@) >= 0 && last_dot(output@) < 0) ==> r
            == Err::<(), FileFormatError>(FileFormatError::MissingExtension),
        last_dot(input@) >= 0 && last_dot(output@) >= 0 && extension_of(input@) != "rq565"@
            ==> (r matches Err(e) && e matches FileFormatError::UnsupportedFormat {
            input: p,
            start,
            len,
        } && p@ == input@ && start == first_dot(input@) + 1 && len == extension_of(input@).len()),
        last_dot(input@) >= 0 && last_dot(output@) >= 0 && extension_of(input@) == "rq565"@
            && !(extension_of(output@) == "png"@ || extension_of(output@) == "bmp"@
            || extension_of(output@) == "ppm"@) ==> (r matches Err(e) && e matches FileFormatError::UnsupportedFormat {
            input: p,
            start,
            len,
        } && p@ == output@ && start == first_dot(output@) + 1 && len == extension_of(output@).len()),
{
    let input_extension = match extract_extension(input) {
        Ok(e) => e,
        Err(e) => {
            return Err(e);
        },
    };
    let output_extension = match extract_extension(output) {
        Ok(e) => e,
        Err(e) => {
            return Err(e);
        },
    };
    if !str_eq(input_extension, "rq565") {
        proof {
            lemma_last_dot_props(input@);
            assert(input@[last_dot(input@)] == '.');
        }
        let span = extension_src(input, input_extension.unicode_len());
        return Err(
            FileFormatError::UnsupportedFormat { input: input.to_owned(), start: span.0, len: span.1 },
        );
    }
    if str_eq(output_extension, "png") || str_eq(output_extension, "bmp") || str_eq(
        output_extension,
        "ppm",
    ) {
        Ok(())
    } else {
        proof {
            lemma_last_dot_props(output@);
            assert(output@[last_dot(output@)] == '.');
        }
        let span = extension_src(output, output_extension.unicode_len());
        Err(FileFormatError::UnsupportedFormat { input: output.to_owned(), start: span.0, len: span.1 })
    }
}

} // verus!
