use banscreen::capture::RasterImage;
use banscreen::capture::decode_channel;
use banscreen::capture::mask_shift;
use banscreen::errors::hex_string;

#[test]
fn shifts_are_derived_from_the_masks() {
    assert_eq!(mask_shift(0xFF0000), 16);
    assert_eq!(mask_shift(0x00FF00), 8);
    assert_eq!(mask_shift(0x0000FF), 0);
    assert_eq!(mask_shift(0), 0);
    // A packing that hard-coded byte positions would get wrong.
    assert_eq!(mask_shift(0x3E0), 5);
}

#[test]
fn channel_extraction_masks_shifts_and_truncates() {
    // 0xRRGGBB packing: pixel 0xABCDEF decodes to (0xAB, 0xCD, 0xEF).
    assert_eq!(decode_channel(0xABCDEF, 0xFF0000), 0xAB);
    assert_eq!(decode_channel(0xABCDEF, 0x00FF00), 0xCD);
    assert_eq!(decode_channel(0xABCDEF, 0x0000FF), 0xEF);
}

#[test]
fn channel_extraction_handles_wide_masks_by_truncating_to_eight_bits() {
    // A ten-bit channel: only the low eight bits of the shifted value stay.
    let pixel: u64 = 0x3FF << 5;
    assert_eq!(decode_channel(pixel, 0x3FF << 5), 0xFF);
}

#[test]
fn an_empty_mask_yields_a_zero_channel() {
    assert_eq!(decode_channel(0xFFFFFFFF, 0), 0);
}

#[test]
fn a_blank_raster_is_black() {
    let img = RasterImage::blank(3, 2);
    assert_eq!(img.width(), 3);
    assert_eq!(img.height(), 2);
    for y in 0..2 {
        for x in 0..3 {
            assert_eq!(img.pixel_at(x, y), (0, 0, 0));
        }
    }
}

#[test]
fn a_duplicated_raster_keeps_its_pixels() {
    let img = RasterImage::blank(2, 2);
    let copy = img.duplicate();
    assert_eq!(copy.width(), 2);
    assert_eq!(copy.height(), 2);
    assert_eq!(copy.pixel_at(1, 1), (0, 0, 0));
}

#[test]
fn handles_are_rendered_as_lowercase_hex() {
    assert_eq!(hex_string(0), "0");
    assert_eq!(hex_string(10), "a");
    assert_eq!(hex_string(255), "ff");
    assert_eq!(hex_string(0xDEADBEEF), "deadbeef");
    assert_eq!(hex_string(u64::MAX), "ffffffffffffffff");
}
