use image_core::compose::{BackgroundCall, BlendCall};
use image_core::error::ImageError;
use image_core::image::Image;

#[test]
fn blend_of_different_sizes_is_refused() {
    let data: Vec<u32> = (0..100).collect();
    let mut destination = Image::new_from_pixels(10, 10, &data).unwrap();
    let source = Image::new(5, 5).unwrap();
    assert_eq!(
        destination.blend_with(&source, 0xFFFF_FFFF, 255).unwrap_err(),
        ImageError::MismatchedDimensions
    );
    assert_eq!(destination.pixels(), &data[..]);
    assert_eq!((destination.width(), destination.height()), (10, 10));
}

#[test]
fn blend_of_the_same_area_in_another_shape_is_refused() {
    let mut destination = Image::new(4, 6).unwrap();
    let source = Image::new(6, 4).unwrap();
    assert_eq!(
        destination.blend_with(&source, 0, 0).unwrap_err(),
        ImageError::MismatchedDimensions
    );
    let source = Image::new(4, 5).unwrap();
    assert_eq!(
        destination.blend_with(&source, 0, 0).unwrap_err(),
        ImageError::MismatchedDimensions
    );
    let source = Image::new(3, 6).unwrap();
    assert_eq!(
        destination.blend_with(&source, 0, 0).unwrap_err(),
        ImageError::MismatchedDimensions
    );
}

#[test]
fn blend_of_equal_sizes_covers_every_pixel() {
    let mut destination = Image::new(10, 10).unwrap();
    let source = Image::new(10, 10).unwrap();
    assert_eq!(
        destination.blend_with(&source, 0x8040_2010, 128),
        Ok(BlendCall { count: 100, color: 0x8040_2010, opacity: 128 })
    );
}

#[test]
fn blend_check_writes_nothing() {
    let data: Vec<u32> = (0..6).collect();
    let mut destination = Image::new_from_pixels(3, 2, &data).unwrap();
    let source = Image::new_from_pixels(3, 2, &[9, 9, 9, 9, 9, 9]).unwrap();
    destination.blend_with(&source, 1, 2).unwrap();
    assert_eq!(destination.pixels(), &data[..]);
    assert_eq!(source.pixels(), &[9u32, 9, 9, 9, 9, 9][..]);
}

#[test]
fn background_covers_every_pixel() {
    let mut image = Image::new(7, 3).unwrap();
    assert_eq!(image.add_background(0xFF11_2233), BackgroundCall { count: 21, color: 0xFF11_2233 });
    assert!(image.pixels().iter().all(|&p| p == 0));
}

#[test]
fn replaced_pixels_keep_the_dimensions() {
    let mut image = Image::new(3, 2).unwrap();
    assert_eq!(image.replace_pixels(&[1, 2, 3, 4, 5, 6]), Ok(()));
    assert_eq!((image.width(), image.height()), (3, 2));
    assert_eq!(image.pixels(), &[1u32, 2, 3, 4, 5, 6][..]);
}

#[test]
fn replacing_takes_only_the_front() {
    let mut image = Image::new(2, 1).unwrap();
    assert_eq!(image.replace_pixels(&[1, 2, 3]), Ok(()));
    assert_eq!(image.pixels(), &[1u32, 2][..]);
}

#[test]
fn replacing_with_too_few_changes_nothing() {
    let mut image = Image::new_from_pixels(2, 2, &[5, 6, 7, 8]).unwrap();
    assert_eq!(image.replace_pixels(&[1, 2, 3]), Err(ImageError::InsufficientPixelData));
    assert_eq!(image.pixels(), &[5u32, 6, 7, 8][..]);
}

#[test]
fn a_blend_carried_out_by_a_stand_in_engine() {
    let mut destination = Image::new_from_pixels(2, 2, &[1, 2, 3, 4]).unwrap();
    let source = Image::new_from_pixels(2, 2, &[10, 20, 30, 40]).unwrap();
    let call = destination.blend_with(&source, 0, 255).unwrap();
    let mut buffer = destination.pixels().to_vec();
    for i in 0..call.count {
        buffer[i] = buffer[i] + source.pixels()[i];
    }
    destination.replace_pixels(&buffer).unwrap();
    assert_eq!(destination.pixels(), &[11u32, 22, 33, 44][..]);
    assert_eq!(source.pixels(), &[10u32, 20, 30, 40][..]);
}
