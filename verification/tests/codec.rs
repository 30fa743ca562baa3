use rq565_converter::buffer::EncodedBuffer;
use rq565_converter::decode::{decode, reconstruct_channel, unpack_word, upscale};
use rq565_converter::encode::{encode, pack_pixel};
use rq565_converter::errors::FormatError;
use rq565_converter::mask::validate_format;
use rq565_converter::raster::Raster;

fn raster_2x2() -> Raster {
    Raster::new(
        2,
        2,
        vec![(255, 0, 0), (0, 127, 0), (0, 0, 63), (255, 255, 255)],
    )
    .unwrap()
}

#[test]
fn validate_format_valid_masks() {
    assert_eq!(validate_format("565"), Ok((5, 6, 5)));
    assert_eq!(validate_format("088"), Ok((0, 8, 8)));
    assert_eq!(validate_format("808"), Ok((8, 0, 8)));
    assert_eq!(validate_format("448"), Ok((4, 4, 8)));
}

#[test]
fn validate_format_bad_sum() {
    // Digits are read back in order, but a sum under 16 is rejected,
    // so a lone 8-bit channel such as "080" is no valid mask.
    assert_eq!(
        validate_format("080"),
        Err(FormatError::InvalidMaskSum { start: 0, end: 3 })
    );
    assert_eq!(
        validate_format("555"),
        Err(FormatError::InvalidMaskSum { start: 0, end: 3 })
    );
    assert_eq!(
        validate_format("666"),
        Err(FormatError::InvalidMaskSum { start: 0, end: 3 })
    );
}

#[test]
fn validate_format_bad_digit() {
    assert_eq!(
        validate_format("990"),
        Err(FormatError::InvalidMaskDigit { start: 0, end: 1 })
    );
    assert_eq!(
        validate_format("595"),
        Err(FormatError::InvalidMaskDigit { start: 1, end: 2 })
    );
}

#[test]
fn validate_format_bad_size() {
    assert_eq!(
        validate_format("55"),
        Err(FormatError::InvalidMaskSize { start: 0, end: 2 })
    );
    assert_eq!(
        validate_format("5650"),
        Err(FormatError::InvalidMaskSize { start: 0, end: 4 })
    );
    assert_eq!(
        validate_format("5a5"),
        Err(FormatError::InvalidMaskSize { start: 0, end: 3 })
    );
    assert_eq!(
        validate_format(""),
        Err(FormatError::InvalidMaskSize { start: 0, end: 0 })
    );
}

#[test]
fn encode_2x2_565_packed_words() {
    let buffer = encode(&raster_2x2(), (5, 6, 5));
    assert_eq!(buffer.get_width(), 2);
    assert_eq!(buffer.get_height(), 2);
    assert_eq!(buffer.get_mask(), (5, 6, 5));
    // 255 >> 3 == 31 in the top five bits; 127 >> 2 == 31 in the green
    // field; 63 >> 3 == 7 in the low five bits; white fills every field.
    assert_eq!(
        buffer.get_pixels(),
        &[
            0b11111_000000_00000u16,
            0b00000_011111_00000u16,
            0b00000_000000_00111u16,
            0b11111_111111_11111u16,
        ]
    );
}

#[test]
fn pack_pixel_zero_bit_channel_contributes_nothing() {
    assert_eq!(pack_pixel((255, 255, 255), (0, 8, 8)), 0xFFFF);
    assert_eq!(pack_pixel((255, 0, 0), (0, 8, 8)), 0);
    assert_eq!(pack_pixel((1, 2, 3), (8, 0, 8)), (1u16 << 8) | 3);
}

#[test]
fn round_trip_565_extremes() {
    let buffer = encode(&raster_2x2(), (5, 6, 5));
    let raster = decode(&buffer, false).unwrap();
    assert_eq!(raster.width, 2);
    assert_eq!(raster.height, 2);
    // Full-scale channels come back as exactly 255, zero as exactly 0;
    // in between, floor(t * 255 / (2^bits - 1)).
    assert_eq!(
        raster.pixels,
        vec![(255, 0, 0), (0, 125, 0), (0, 0, 57), (255, 255, 255)]
    );
}

#[test]
fn round_trip_zero_bit_channel_is_always_zero() {
    let raster = Raster::new(1, 2, vec![(12, 200, 34), (255, 255, 255)]).unwrap();
    let buffer = encode(&raster, (8, 0, 8));
    let out = decode(&buffer, false).unwrap();
    // An 8-bit channel round-trips exactly; a 0-bit channel is 0 even
    // for a full-scale input.
    assert_eq!(out.pixels, vec![(12, 0, 34), (255, 0, 255)]);
}

#[test]
fn decode_augment_uses_fixed_factors() {
    let raster = Raster::new(1, 1, vec![(255, 255, 255)]).unwrap();
    let buffer = encode(&raster, (5, 6, 5));
    let out = decode(&buffer, true).unwrap();
    // 31 * 8, 63 * 4, 31 * 8: the fixed 5/6/5 inverse, not 255.
    assert_eq!(out.pixels, vec![(248, 252, 248)]);
}

#[test]
fn unpack_word_matches_fields() {
    assert_eq!(unpack_word(0xF800, (5, 6, 5), false), (255, 0, 0));
    assert_eq!(unpack_word(0x07E0, (5, 6, 5), false), (0, 255, 0));
    assert_eq!(unpack_word(0x001F, (5, 6, 5), false), (0, 0, 255));
}

#[test]
fn upscale_exact_values() {
    assert_eq!(upscale(31, 5), 255);
    assert_eq!(upscale(15, 5), 123);
    assert_eq!(upscale(0, 5), 0);
    assert_eq!(upscale(63, 6), 255);
    assert_eq!(upscale(500, 0), 0);
}

#[test]
fn reconstruct_channel_takes_top_bits() {
    assert_eq!(reconstruct_channel(0xF800, 5), 31);
    assert_eq!(reconstruct_channel(0xFFFF, 11), 0x7FF);
    assert_eq!(reconstruct_channel(0xABCD, 16), 0xABCD);
    assert_eq!(reconstruct_channel(0xABCD, 0), 0);
}

#[test]
fn serialization_layout_is_little_endian() {
    let raster = Raster::new(2, 1, vec![(255, 0, 0), (0, 0, 63)]).unwrap();
    let buffer = encode(&raster, (5, 6, 5));
    let bytes = buffer.bytes();
    assert_eq!(
        bytes,
        vec![0x52, 0x51, 5, 6, 5, 2, 0, 1, 0, 0x00, 0xF8, 0x07, 0x00]
    );
    assert_eq!(buffer.data(), vec![0x00, 0xF8, 0x07, 0x00]);
}

#[test]
fn serialize_then_parse_reproduces_everything() {
    let buffer = encode(&raster_2x2(), (4, 4, 8));
    let bytes = buffer.bytes();
    let parsed = EncodedBuffer::from_bytes(&bytes).unwrap();
    assert_eq!(parsed.get_magic(), buffer.get_magic());
    assert_eq!(parsed.get_mask(), buffer.get_mask());
    assert_eq!(parsed.get_width(), buffer.get_width());
    assert_eq!(parsed.get_height(), buffer.get_height());
    assert_eq!(parsed.get_pixels(), buffer.get_pixels());
}

#[test]
fn parse_rejects_wrong_magic() {
    let mut bytes = encode(&raster_2x2(), (5, 6, 5)).bytes();
    bytes[0] = 0x00;
    bytes[1] = 0x01;
    assert!(matches!(
        EncodedBuffer::from_bytes(&bytes),
        Err(FormatError::CorruptHeader)
    ));
}

#[test]
fn parse_rejects_short_header() {
    assert!(matches!(
        EncodedBuffer::from_bytes(&vec![0x52, 0x51, 5, 6]),
        Err(FormatError::CorruptHeader)
    ));
    assert!(matches!(
        EncodedBuffer::from_bytes(&Vec::new()),
        Err(FormatError::CorruptHeader)
    ));
}

#[test]
fn parse_rejects_invalid_stored_mask() {
    // A digit over 8, and a sum that is not 16.
    let over = vec![0x52, 0x51, 9, 6, 5, 1, 0, 0, 0];
    let sum = vec![0x52, 0x51, 5, 5, 5, 1, 0, 0, 0];
    assert!(matches!(
        EncodedBuffer::from_bytes(&over),
        Err(FormatError::CorruptHeader)
    ));
    assert!(matches!(
        EncodedBuffer::from_bytes(&sum),
        Err(FormatError::CorruptHeader)
    ));
}

#[test]
fn parse_rejects_truncated_payload() {
    // The header promises 2x2 pixels but only one word follows.
    let bytes = vec![0x52, 0x51, 5, 6, 5, 2, 0, 2, 0, 0xAA, 0xBB];
    assert!(matches!(
        EncodedBuffer::from_bytes(&bytes),
        Err(FormatError::TruncatedPayload)
    ));
}

#[test]
fn parse_ignores_trailing_bytes() {
    let bytes = vec![0x52, 0x51, 8, 8, 0, 1, 0, 1, 0, 0xCD, 0xAB, 0xFF, 0xFF];
    let parsed = EncodedBuffer::from_bytes(&bytes).unwrap();
    assert_eq!(parsed.get_width(), 1);
    assert_eq!(parsed.get_height(), 1);
    assert_eq!(parsed.get_pixels(), &[0xABCDu16]);
}

#[test]
fn buffer_accessors_and_push() {
    let mut buffer = EncodedBuffer::new(None);
    assert_eq!(buffer.get_mask(), (5, 6, 5));
    assert_eq!(buffer.get_magic(), 0x5152);
    buffer.set_mask((8, 0, 8));
    assert_eq!(buffer.get_mask(), (8, 0, 8));
    buffer.set_width_and_height((2, 1));
    assert_eq!(buffer.get_width(), 2);
    assert_eq!(buffer.get_height(), 1);
    buffer.push(7);
    buffer.push(9);
    assert_eq!(buffer.len(), 2);
    assert_eq!(buffer.get_pixel(0, 0), 7);
    assert_eq!(buffer.get_pixel(1, 0), 9);
    assert_eq!(buffer.get_pixels(), &[7u16, 9u16]);
}

#[test]
fn buffer_new_with_explicit_mask() {
    let buffer = EncodedBuffer::new(Some((4, 4, 8)));
    assert_eq!(buffer.get_mask(), (4, 4, 8));
    assert_eq!(buffer.len(), 0);
}

#[test]
fn raster_new_checks_pixel_count() {
    assert!(Raster::new(2, 2, vec![(0, 0, 0); 4]).is_some());
    assert!(Raster::new(2, 2, vec![(0, 0, 0); 3]).is_none());
}

#[test]
fn raster_bytes_are_flat_rgb() {
    let raster = Raster::new(2, 1, vec![(1, 2, 3), (4, 5, 6)]).unwrap();
    assert_eq!(raster.bytes(), vec![1, 2, 3, 4, 5, 6]);
}

#[test]
fn round_trip_mid_values_follow_the_formula() {
    // floor(t * 255 / (2^bits - 1)) per channel for mask (4, 4, 8):
    // 100 >> 4 == 6 -> 102, 50 >> 4 == 3 -> 51, 25 >> 0 == 25 -> 25.
    let raster = Raster::new(1, 1, vec![(100, 50, 25)]).unwrap();
    let buffer = encode(&raster, (4, 4, 8));
    let out = decode(&buffer, false).unwrap();
    assert_eq!(out.pixels, vec![(102, 51, 25)]);
}

#[test]
fn decode_augment_keeps_low_eight_bits_under_other_masks() {
    // Under a mask other than 5/6/5 the fixed factors overflow by
    // design: 255 * 8 keeps only its low byte, 248.
    let raster = Raster::new(1, 1, vec![(255, 0, 255)]).unwrap();
    let buffer = encode(&raster, (8, 0, 8));
    let out = decode(&buffer, true).unwrap();
    assert_eq!(out.pixels, vec![(248, 0, 248)]);
}
