use image_core::error::ImageError;
use image_core::image::{FlatCanvas, Image, MAX_DIMENSION};

#[test]
fn new_has_the_dimensions_asked_for() {
    let image = Image::new(7, 3).unwrap();
    assert_eq!(image.width(), 7);
    assert_eq!(image.height(), 3);
    assert_eq!(image.pixels().len(), 21);
}

#[test]
fn new_is_blank() {
    let image = Image::new(4, 5).unwrap();
    assert!(image.pixels().iter().all(|&p| p == 0));
}

#[test]
fn new_of_one_pixel() {
    let image = Image::new(1, 1).unwrap();
    assert_eq!(image.pixels(), &[0u32][..]);
}

#[test]
fn new_refuses_zero_width() {
    for height in [0usize, 1, 2, 1000, usize::MAX] {
        assert_eq!(Image::new(0, height).unwrap_err(), ImageError::InvalidDimensions);
    }
}

#[test]
fn new_refuses_zero_height() {
    for width in [0usize, 1, 2, 1000, usize::MAX] {
        assert_eq!(Image::new(width, 0).unwrap_err(), ImageError::InvalidDimensions);
    }
}

#[test]
fn new_refuses_a_width_beyond_the_engine_integer() {
    assert_eq!(Image::new(MAX_DIMENSION + 1, 1).unwrap_err(), ImageError::DimensionOverflow);
    assert_eq!(Image::new(usize::MAX, 1).unwrap_err(), ImageError::DimensionOverflow);
}

#[test]
fn new_refuses_a_height_beyond_the_engine_integer() {
    assert_eq!(Image::new(1, MAX_DIMENSION + 1).unwrap_err(), ImageError::DimensionOverflow);
}

#[test]
fn largest_dimension_is_that_of_a_signed_32_bit_integer() {
    assert_eq!(MAX_DIMENSION, i32::MAX as usize);
}

#[test]
fn new_from_pixels_copies_exactly() {
    let data = [1u32, 2, 3, 4, 5, 6];
    let image = Image::new_from_pixels(3, 2, &data).unwrap();
    assert_eq!(image.width(), 3);
    assert_eq!(image.height(), 2);
    assert_eq!(image.pixels(), &data[..]);
}

#[test]
fn new_from_pixels_ignores_what_follows() {
    let data = [10u32, 20, 30, 40, 50, 60, 70];
    let image = Image::new_from_pixels(2, 2, &data).unwrap();
    assert_eq!(image.pixels(), &[10u32, 20, 30, 40][..]);
}

#[test]
fn new_from_pixels_refuses_too_few() {
    let data = [1u32, 2, 3, 4, 5];
    assert_eq!(
        Image::new_from_pixels(3, 2, &data).unwrap_err(),
        ImageError::InsufficientPixelData
    );
    assert_eq!(Image::new_from_pixels(1, 1, &[]).unwrap_err(), ImageError::InsufficientPixelData);
}

#[test]
fn new_from_pixels_refuses_a_count_beyond_any_buffer() {
    let data = [0u32; 4];
    assert_eq!(
        Image::new_from_pixels(usize::MAX, usize::MAX, &data).unwrap_err(),
        ImageError::InsufficientPixelData
    );
}

#[test]
fn new_from_pixels_with_a_zero_dimension_is_invalid() {
    assert_eq!(Image::new_from_pixels(0, 5, &[]).unwrap_err(), ImageError::InvalidDimensions);
    assert_eq!(Image::new_from_pixels(5, 0, &[1, 2]).unwrap_err(), ImageError::InvalidDimensions);
}

#[test]
fn new_from_pixels_does_not_share_the_source() {
    let mut data = vec![1u32, 2, 3, 4];
    let image = Image::new_from_pixels(2, 2, &data).unwrap();
    data[0] = 99;
    assert_eq!(image.pixels(), &[1u32, 2, 3, 4][..]);
}

#[test]
fn canvas_failure_carries_the_message() {
    let failed: Result<FlatCanvas, String> = Err(String::from("no layers"));
    assert_eq!(
        Image::new_from_canvas_state(failed).unwrap_err(),
        ImageError::EngineError(String::from("no layers"))
    );
}

#[test]
fn canvas_becomes_an_image() {
    let canvas = FlatCanvas { width: 2, height: 3, pixels: vec![1, 2, 3, 4, 5, 6] };
    let image = Image::new_from_canvas_state(Ok(canvas)).unwrap();
    assert_eq!(image.width(), 2);
    assert_eq!(image.height(), 3);
    assert_eq!(image.pixels(), &[1u32, 2, 3, 4, 5, 6][..]);
}

#[test]
fn canvas_with_missing_pixels_is_refused() {
    let canvas = FlatCanvas { width: 2, height: 3, pixels: vec![1, 2, 3] };
    assert_eq!(
        Image::new_from_canvas_state(Ok(canvas)).unwrap_err(),
        ImageError::InsufficientPixelData
    );
}

#[test]
fn canvas_without_area_is_refused() {
    let canvas = FlatCanvas { width: 0, height: 3, pixels: vec![] };
    assert_eq!(
        Image::new_from_canvas_state(Ok(canvas)).unwrap_err(),
        ImageError::InvalidDimensions
    );
}

#[test]
fn dump_is_four_bytes_a_pixel_least_significant_first() {
    let image = Image::new_from_pixels(2, 1, &[0x0403_0201, 0xAABB_CCDD]).unwrap();
    assert_eq!(image.dump(), vec![0x01u8, 0x02, 0x03, 0x04, 0xDD, 0xCC, 0xBB, 0xAA]);
}

#[test]
fn dump_has_no_header() {
    let image = Image::new(3, 5).unwrap();
    let bytes = image.dump();
    assert_eq!(bytes.len(), 3 * 5 * 4);
    assert!(bytes.iter().all(|&b| b == 0));
}

#[test]
fn dump_agrees_with_the_little_endian_bytes_of_each_pixel() {
    let data: Vec<u32> = (0..12u32).map(|i| i.wrapping_mul(0x9E37_79B9)).collect();
    let image = Image::new_from_pixels(4, 3, &data).unwrap();
    let expected: Vec<u8> = data.iter().flat_map(|p| p.to_le_bytes()).collect();
    assert_eq!(image.dump(), expected);
}

#[test]
fn messages_name_the_error() {
    assert_eq!(ImageError::InvalidDimensions.message(), "Empty image");
    assert_eq!(ImageError::DimensionOverflow.message(), "out of range integral type conversion attempted");
    assert_eq!(ImageError::InsufficientPixelData.message(), "Not enough pixels");
    assert_eq!(ImageError::EmptySource.message(), "Empty source image");
    assert_eq!(ImageError::EmptyTarget.message(), "Empty target image");
    assert_eq!(ImageError::MismatchedDimensions.message(), "Mismatched dimensions");
    assert_eq!(ImageError::InvalidPath.message(), "nul byte found in provided data");
}

#[test]
fn engine_message_is_passed_on() {
    let error = ImageError::EngineError(String::from("out of memory"));
    assert_eq!(error.message(), "out of memory");
}
