use segment::compositor::{apply_mask, composite, composite_decoded, CompositeError};
use segment::image::Image;
use segment::mask::{decode_mask, trim_frame, Mask};

fn encode(
    color: png::ColorType,
    depth: png::BitDepth,
    width: u32,
    height: u32,
    data: &[u8],
) -> Vec<u8> {
    let mut out = Vec::new();
    {
        let mut encoder = png::Encoder::new(&mut out, width, height);
        encoder.set_color(color);
        encoder.set_depth(depth);
        let mut writer = encoder.write_header().unwrap();
        writer.write_image_data(data).unwrap();
    }
    out
}

fn encode_gray(width: u32, height: u32, pixels: &[u8]) -> Vec<u8> {
    encode(png::ColorType::Grayscale, png::BitDepth::Eight, width, height, pixels)
}

#[test]
fn diagonal_mask_keeps_the_diagonal() {
    let image = Image::new(2, 2, vec![200u8; 12]).unwrap();
    let stream = encode_gray(2, 2, &[0xFF, 0x00, 0x00, 0xFF]);
    let out = composite(&image, &stream).unwrap();
    assert_eq!(out.rows(), 2);
    assert_eq!(out.cols(), 2);
    assert_eq!(out.data(), &vec![200, 200, 200, 0, 0, 0, 0, 0, 0, 200, 200, 200]);
}

#[test]
fn full_mask_gives_the_image_back() {
    let data: Vec<u8> = (0u8..24).map(|v| v.wrapping_mul(11)).collect();
    let image = Image::new(2, 4, data.clone()).unwrap();
    let stream = encode_gray(4, 2, &[0xFF; 8]);
    let out = composite(&image, &stream).unwrap();
    assert_eq!(out.data(), &data);
    assert_eq!(image.data(), &data);
}

#[test]
fn empty_mask_clears_every_channel() {
    let data: Vec<u8> = (1u8..=18).collect();
    let image = Image::new(3, 2, data).unwrap();
    let stream = encode_gray(2, 3, &[0x00; 6]);
    let out = composite(&image, &stream).unwrap();
    assert_eq!(out.rows(), 3);
    assert_eq!(out.cols(), 2);
    assert_eq!(out.data(), &vec![0u8; 18]);
}

#[test]
fn partial_mask_byte_keeps_only_its_bits() {
    let image = Image::new(1, 2, vec![0xFF, 0xAB, 0x0F, 0x12, 0x34, 0x56]).unwrap();
    let out = composite_decoded(&image, vec![0x0F, 0x01]).unwrap();
    assert_eq!(out.data(), &vec![0x0F, 0x0B, 0x0F, 0x00, 0x00, 0x00]);
}

#[test]
fn mask_of_another_size_is_a_dimension_mismatch() {
    let image = Image::new(2, 2, vec![7u8; 12]).unwrap();
    let stream = encode_gray(3, 1, &[0xFF, 0xFF, 0xFF]);
    assert_eq!(composite(&image, &stream).unwrap_err(), CompositeError::MaskDimensionMismatch);
    assert_eq!(
        composite_decoded(&image, vec![0xFF; 5]).unwrap_err(),
        CompositeError::MaskDimensionMismatch
    );
    assert_eq!(
        composite_decoded(&image, vec![0xFF; 8]).unwrap_err(),
        CompositeError::MaskDimensionMismatch
    );
    assert_eq!(
        composite_decoded(&image, Vec::new()).unwrap_err(),
        CompositeError::MaskDimensionMismatch
    );
}

#[test]
fn mask_of_the_same_count_is_reshaped() {
    let image = Image::new(2, 2, vec![9u8; 12]).unwrap();
    let stream = encode_gray(4, 1, &[0xFF, 0x00, 0xFF, 0x00]);
    let out = composite(&image, &stream).unwrap();
    assert_eq!(out.data(), &vec![9, 9, 9, 0, 0, 0, 9, 9, 9, 0, 0, 0]);
}

#[test]
fn malformed_stream_is_a_decode_error() {
    let image = Image::new(1, 1, vec![1, 2, 3]).unwrap();
    assert_eq!(composite(&image, b"not a raster").unwrap_err(), CompositeError::MaskDecodeError);
    assert_eq!(composite(&image, &[]).unwrap_err(), CompositeError::MaskDecodeError);
    assert_eq!(decode_mask(b"\x89PNG\r\n\x1a\n").unwrap_err(), CompositeError::MaskDecodeError);
}

#[test]
fn truncated_stream_is_a_decode_error() {
    let stream = encode_gray(4, 4, &[0xFF; 16]);
    let cut = &stream[..stream.len() - 20];
    assert_eq!(decode_mask(cut).unwrap_err(), CompositeError::MaskDecodeError);
}

#[test]
fn decode_error_comes_before_dimension_mismatch() {
    let image = Image::new(5, 5, vec![0u8; 75]).unwrap();
    assert_eq!(composite(&image, &[1, 2, 3]).unwrap_err(), CompositeError::MaskDecodeError);
}

#[test]
fn encoded_raster_decodes_bit_for_bit() {
    let raster: Vec<u8> = (0u32..35).map(|v| (v * 37 % 256) as u8).collect();
    let stream = encode_gray(7, 5, &raster);
    assert_ne!(stream, raster);
    assert_eq!(decode_mask(&stream).unwrap(), raster);
}

#[test]
fn every_byte_value_survives_encoding() {
    let raster: Vec<u8> = (0u32..256).map(|v| v as u8).collect();
    let stream = encode_gray(16, 16, &raster);
    assert_eq!(decode_mask(&stream).unwrap(), raster);
}

#[test]
fn trim_frame_cuts_to_the_used_bytes() {
    assert_eq!(trim_frame(vec![1, 2, 3, 4], 2).unwrap(), vec![1, 2]);
    assert_eq!(trim_frame(vec![1, 2, 3, 4], 4).unwrap(), vec![1, 2, 3, 4]);
    assert_eq!(trim_frame(vec![1, 2, 3, 4], 0).unwrap(), Vec::<u8>::new());
    assert_eq!(trim_frame(vec![1, 2, 3, 4], 5).unwrap_err(), CompositeError::MaskDecodeError);
}

#[test]
fn apply_mask_needs_the_image_shape() {
    let image = Image::new(2, 3, vec![0xF0u8; 18]).unwrap();
    let flat = Mask::from_bytes(vec![0xFF; 6], 1, 6).unwrap();
    assert_eq!(apply_mask(&image, &flat).unwrap_err(), CompositeError::MaskDimensionMismatch);
    let fitting = Mask::from_bytes(vec![0x3C; 6], 2, 3).unwrap();
    let out = apply_mask(&image, &fitting).unwrap();
    assert_eq!(out.data(), &vec![0x30u8; 18]);
}

#[test]
fn mask_places_are_row_major() {
    let mask = Mask::from_bytes(vec![10, 11, 12, 20, 21, 22], 2, 3).unwrap();
    assert_eq!(mask.rows(), 2);
    assert_eq!(mask.cols(), 3);
    assert_eq!(mask.get(0, 0), Some(10));
    assert_eq!(mask.get(0, 2), Some(12));
    assert_eq!(mask.get(1, 0), Some(20));
    assert_eq!(mask.get(1, 2), Some(22));
    assert_eq!(mask.get(2, 0), None);
    assert_eq!(mask.get(0, 3), None);
    assert_eq!(
        Mask::from_bytes(vec![0; 5], 2, 3).unwrap_err(),
        CompositeError::MaskDimensionMismatch
    );
    assert_eq!(
        Mask::from_bytes(vec![0; 5], usize::MAX, 2).unwrap_err(),
        CompositeError::MaskDimensionMismatch
    );
}

#[test]
fn encoded_raster_comes_through_the_compositor_bit_for_bit() {
    let raster: Vec<u8> = (0u32..12).map(|v| (v * 23 + 5) as u8).collect();
    let stream = encode_gray(4, 3, &raster);
    let image = Image::new(3, 4, vec![0xFF; 36]).unwrap();
    let out = composite(&image, &stream).unwrap();
    for row in 0..3 {
        for col in 0..4 {
            for channel in 0..3 {
                assert_eq!(out.get(row, col, channel), Some(raster[row * 4 + col]));
            }
        }
    }
}

#[test]
fn mask_with_several_bytes_a_pixel_is_a_dimension_mismatch() {
    let image = Image::new(1, 2, vec![1u8; 6]).unwrap();
    let rgb = encode(png::ColorType::Rgb, png::BitDepth::Eight, 2, 1, &[0xFF; 6]);
    assert_eq!(decode_mask(&rgb).unwrap().len(), 6);
    assert_eq!(composite(&image, &rgb).unwrap_err(), CompositeError::MaskDimensionMismatch);
    let deep = encode(png::ColorType::Grayscale, png::BitDepth::Sixteen, 2, 1, &[0xFF; 4]);
    assert_eq!(decode_mask(&deep).unwrap().len(), 4);
    assert_eq!(composite(&image, &deep).unwrap_err(), CompositeError::MaskDimensionMismatch);
}

#[test]
fn packed_mask_is_taken_byte_by_byte() {
    let packed = encode(png::ColorType::Grayscale, png::BitDepth::One, 8, 2, &[0b1010_0000, 0xFF]);
    assert_eq!(decode_mask(&packed).unwrap(), vec![0b1010_0000, 0xFF]);
    let image = Image::new(1, 2, vec![0xF1, 0x33, 0x80, 4, 5, 6]).unwrap();
    let out = composite(&image, &packed).unwrap();
    assert_eq!(out.data(), &vec![0xA0, 0x20, 0x80, 4, 5, 6]);
}

#[test]
fn compositing_twice_changes_nothing_more() {
    let image = Image::new(2, 1, vec![0xDE, 0xAD, 0xBE, 0xEF, 0x12, 0x34]).unwrap();
    let once = composite_decoded(&image, vec![0x5A, 0xC3]).unwrap();
    let twice = composite_decoded(&once, vec![0x5A, 0xC3]).unwrap();
    assert_eq!(once.data(), &vec![0x5A, 0x08, 0x1A, 0xC3, 0x02, 0x00]);
    assert_eq!(twice.data(), once.data());
}
