//! The bit-level model of the codec: channel truncation, packing into a
//! 16-bit word, field extraction, and the two reconstruction modes.
//!
//! Packed word layout for a mask `(m0, m1, m2)`: red occupies the top `m0`
//! bits, green the next `m1`, blue the low `m2`. A channel allotted 0 bits
//! is omitted from the word and always reconstructs to 0.

use vstd::prelude::*;

use crate::mask::valid_mask;

verus! {

/// All ones in the low `bits` positions.
pub open spec fn low_mask(bits: u8) -> u16
    recommends
        bits <= 8,
{
    ((1u16 << (bits as u16)) - 1) as u16
}

/// Lossy truncation of an 8-bit sample to `bits` bits: the low `8 - bits`
/// bits are discarded; a 0-bit channel contributes 0.
pub open spec fn trunc_channel(v: u8, bits: u8) -> u16
    recommends
        bits <= 8,
{
    if bits == 0 {
        0u16
    } else {
        (v >> ((8 - bits) as u8)) as u16
    }
}

/// The packed word for raw samples `(p0, p1, p2)` under mask `(m0, m1, m2)`:
/// each truncated channel is shifted to its field; a 0-bit channel's term
/// is omitted entirely.
pub open spec fn pack_bits(p0: u8, p1: u8, p2: u8, m0: u8, m1: u8, m2: u8) -> u16
    recommends
        m0 <= 8 && m1 <= 8 && m2 <= 8 && m0 + m1 + m2 == 16,
{
    (if m0 == 0 {
        0u16
    } else {
        trunc_channel(p0, m0) << ((m1 + m2) as u16)
    }) | (if m1 == 0 {
        0u16
    } else {
        trunc_channel(p1, m1) << (m2 as u16)
    }) | (if m2 == 0 {
        0u16
    } else {
        trunc_channel(p2, m2)
    })
}

/// The top `m0` bits of a packed word; 0 when `m0 == 0`.
pub open spec fn red_bits(w: u16, m0: u8, m1: u8, m2: u8) -> u16
    recommends
        m0 <= 8 && m1 <= 8 && m2 <= 8 && m0 + m1 + m2 == 16,
{
    if m0 == 0 {
        0u16
    } else {
        w >> ((m1 + m2) as u16)
    }
}

/// The `m1` bits between the red and blue fields; 0 when `m1 == 0`.
pub open spec fn green_bits(w: u16, m1: u8, m2: u8) -> u16
    recommends
        m1 <= 8 && m2 <= 8,
{
    if m1 == 0 {
        0u16
    } else {
        (w >> (m2 as u16)) & low_mask(m1)
    }
}

/// The low `m2` bits of a packed word; 0 when `m2 == 0`.
pub open spec fn blue_bits(w: u16, m2: u8) -> u16
    recommends
        m2 <= 8,
{
    if m2 == 0 {
        0u16
    } else {
        w & low_mask(m2)
    }
}

/// The packed word for pixel `p` under mask `m`.
pub open spec fn pack_word(p: (u8, u8, u8), m: (u8, u8, u8)) -> u16
    recommends
        valid_mask(m),
{
    pack_bits(p.0, p.1, p.2, m.0, m.1, m.2)
}

/// The red field of `w` under mask `m`.
pub open spec fn extract_red(w: u16, m: (u8, u8, u8)) -> u16
    recommends
        valid_mask(m),
{
    red_bits(w, m.0, m.1, m.2)
}

/// The green field of `w` under mask `m`.
pub open spec fn extract_green(w: u16, m: (u8, u8, u8)) -> u16
    recommends
        valid_mask(m),
{
    green_bits(w, m.1, m.2)
}

/// The blue field of `w` under mask `m`.
pub open spec fn extract_blue(w: u16, m: (u8, u8, u8)) -> u16
    recommends
        valid_mask(m),
{
    blue_bits(w, m.2)
}

/// Canonical reconstruction: a truncated magnitude is rescaled to the
/// 0-255 range by `t * 255 / (2^bits - 1)`, rounded toward zero; a 0-bit
/// channel reconstructs to 0.
pub open spec fn upscale_channel(t: u16, bits: u8) -> u8
    recommends
        bits <= 8,
{
    if bits == 0 {
        0u8
    } else {
        (((t & low_mask(bits)) * 255) / (low_mask(bits) as int)) as u8
    }
}

/// The alternate reconstruction: the truncated magnitude times a fixed
/// factor, kept to the low 8 bits. With factors 8, 4, 8 this inverts the
/// fixed 5/6/5 truncation; under any other mask it is out of range or
/// wrongly scaled by design, not corrected.
pub open spec fn augment_channel(t: u16, factor: u16) -> u8 {
    ((t * factor) % 256) as u8
}

/// The pixel reconstructed from packed word `w`: canonical upscale when
/// `augment` is false, the fixed 8/4/8 factors when it is true.
pub open spec fn unpack_pixel(w: u16, m: (u8, u8, u8), augment: bool) -> (u8, u8, u8)
    recommends
        valid_mask(m),
{
    let tr = extract_red(w, m);
    let tg = extract_green(w, m);
    let tb = extract_blue(w, m);
    if augment {
        (augment_channel(tr, 8), augment_channel(tg, 4), augment_channel(tb, 8))
    } else {
        (upscale_channel(tr, m.0), upscale_channel(tg, m.1), upscale_channel(tb, m.2))
    }
}

/// The word sequence an encode of `ps` under `m` produces, in raster order.
pub open spec fn encode_words(ps: Seq<(u8, u8, u8)>, m: (u8, u8, u8)) -> Seq<u16> {
    Seq::new(ps.len(), |i: int| pack_word(ps[i], m))
}

/// The pixel sequence a decode of `ws` under `m` produces, in raster order.
pub open spec fn decoded_pixels(ws: Seq<u16>, m: (u8, u8, u8), augment: bool) -> Seq<
    (u8, u8, u8),
> {
    Seq::new(ws.len(), |i: int| unpack_pixel(ws[i], m, augment))
}

proof fn lemma_pack_extract_bits(p0: u8, p1: u8, p2: u8, m0: u8, m1: u8, m2: u8)
    by (bit_vector)
    requires
        m0 <= 8,
        m1 <= 8,
        m2 <= 8,
        m0 + m1 + m2 == 16,
    ensures
        red_bits(pack_bits(p0, p1, p2, m0, m1, m2), m0, m1, m2) == trunc_channel(p0, m0),
        green_bits(pack_bits(p0, p1, p2, m0, m1, m2), m1, m2) == trunc_channel(p1, m1),
        blue_bits(pack_bits(p0, p1, p2, m0, m1, m2), m2) == trunc_channel(p2, m2),
{
}

/// Law: extracting the three fields of a packed word gives back exactly
/// the truncated channel magnitudes that were packed.
pub proof fn lemma_pack_extract(p: (u8, u8, u8), m: (u8, u8, u8))
    requires
        valid_mask(m),
    ensures
        extract_red(pack_word(p, m), m) == trunc_channel(p.0, m.0),
        extract_green(pack_word(p, m), m) == trunc_channel(p.1, m.1),
        extract_blue(pack_word(p, m), m) == trunc_channel(p.2, m.2),
{
    lemma_pack_extract_bits(p.0, p.1, p.2, m.0, m.1, m.2);
}

/// Facts about canonical reconstruction of one channel: a 0-bit channel
/// and a 0 sample reconstruct to 0, and a full-scale sample (255) on a
/// channel with at least one bit reconstructs to exactly 255.
pub proof fn lemma_channel_reconstruction(v: u8, bits: u8)
    requires
        bits <= 8,
    ensures
        bits == 0 ==> upscale_channel(trunc_channel(v, bits), bits) == 0,
        v == 0 ==> upscale_channel(trunc_channel(v, bits), bits) == 0,
        bits > 0 && v == 255 ==> upscale_channel(trunc_channel(v, bits), bits) == 255,
{
    if bits > 0 {
        let m = low_mask(bits);
        assert(1 <= m) by (bit_vector)
            requires
                m == low_mask(bits) && 0 < bits <= 8,
        ;
        if v == 0 {
            assert(trunc_channel(0, bits) == 0) by (bit_vector)
                requires
                    0 < bits <= 8,
            ;
            assert((0u16 & m) == 0) by (bit_vector);
            assert(0int / (m as int) == 0);
        }
        if v == 255 {
            assert(trunc_channel(255, bits) == m && (m & m) == m) by (bit_vector)
                requires
                    m == low_mask(bits) && 0 < bits <= 8,
            ;
            assert((m * 255) / (m as int) == 255) by (nonlinear_arith)
                requires
                    1 <= m,
            ;
        }
    }
}

/// Law: decoding an encoded pixel sequence in canonical upscale mode
/// yields, per pixel and per channel, `floor(t * 255 / (2^bits - 1))`
/// where `t` is the truncated magnitude of the original 8-bit sample.
pub proof fn lemma_round_trip(ps: Seq<(u8, u8, u8)>, m: (u8, u8, u8))
    requires
        valid_mask(m),
    ensures
        decoded_pixels(encode_words(ps, m), m, false).len() == ps.len(),
        forall|i: int|
            0 <= i < ps.len() ==> decoded_pixels(encode_words(ps, m), m, false)[i] == (
            upscale_channel(trunc_channel(ps[i].0, m.0), m.0),
            upscale_channel(trunc_channel(ps[i].1, m.1), m.1),
            upscale_channel(trunc_channel(ps[i].2, m.2), m.2),
            ),
{
    assert forall|i: int| 0 <= i < ps.len() implies decoded_pixels(encode_words(ps, m), m, false)[i]
        == (
    upscale_channel(trunc_channel(ps[i].0, m.0), m.0),
    upscale_channel(trunc_channel(ps[i].1, m.1), m.1),
    upscale_channel(trunc_channel(ps[i].2, m.2), m.2),
    ) by {
        lemma_pack_extract(ps[i], m);
    }
}

} // verus!
