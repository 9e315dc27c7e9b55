use image_core::error::ImageError;
use image_core::image::{Image, MAX_DIMENSION};

fn numbered(width: usize, height: usize) -> Image {
    let data: Vec<u32> = (1..=(width * height) as u32).collect();
    Image::new_from_pixels(width, height, &data).unwrap()
}

#[test]
fn cropping_the_whole_gives_the_same_pixels() {
    let image = numbered(5, 4);
    let whole = image.cropped(0, 0, 5, 4).unwrap();
    assert_eq!(whole.width(), 5);
    assert_eq!(whole.height(), 4);
    assert_eq!(whole.pixels(), image.pixels());
}

#[test]
fn cropping_the_whole_of_each_small_size() {
    for width in 1..6 {
        for height in 1..6 {
            let image = numbered(width, height);
            let whole = image.cropped(0, 0, width, height).unwrap();
            assert_eq!(whole.pixels(), image.pixels());
        }
    }
}

#[test]
fn cropping_inside() {
    // 1  2  3  4
    // 5  6  7  8
    // 9 10 11 12
    let image = numbered(4, 3);
    let part = image.cropped(1, 1, 2, 2).unwrap();
    assert_eq!(part.width(), 2);
    assert_eq!(part.height(), 2);
    assert_eq!(part.pixels(), &[6u32, 7, 10, 11][..]);
}

#[test]
fn cropping_a_single_pixel() {
    let image = numbered(4, 3);
    let part = image.cropped(3, 2, 1, 1).unwrap();
    assert_eq!(part.pixels(), &[12u32][..]);
}

#[test]
fn cropping_past_the_right_and_bottom_edge_pads_with_zero() {
    let image = numbered(3, 2);
    let part = image.cropped(2, 1, 3, 3).unwrap();
    assert_eq!(part.pixels(), &[6u32, 0, 0, 0, 0, 0, 0, 0, 0][..]);
}

#[test]
fn cropping_wholly_outside_is_blank() {
    let image = numbered(3, 2);
    let part = image.cropped(10, 10, 2, 2).unwrap();
    assert_eq!(part.pixels(), &[0u32, 0, 0, 0][..]);
}

#[test]
fn cropping_does_not_change_the_source() {
    let image = numbered(3, 3);
    let before = image.pixels().to_vec();
    let _ = image.cropped(1, 1, 5, 5).unwrap();
    assert_eq!(image.pixels(), &before[..]);
}

#[test]
fn cropping_refuses_what_the_engine_integer_cannot_hold() {
    let image = numbered(3, 3);
    let over = MAX_DIMENSION + 1;
    assert_eq!(image.cropped(over, 0, 1, 1).unwrap_err(), ImageError::DimensionOverflow);
    assert_eq!(image.cropped(0, over, 1, 1).unwrap_err(), ImageError::DimensionOverflow);
    assert_eq!(image.cropped(0, 0, over, 1).unwrap_err(), ImageError::DimensionOverflow);
    assert_eq!(image.cropped(0, 0, 1, over).unwrap_err(), ImageError::DimensionOverflow);
}

#[test]
fn cropping_overflow_comes_before_emptiness() {
    let image = numbered(3, 3);
    assert_eq!(
        image.cropped(MAX_DIMENSION + 1, 0, 0, 1).unwrap_err(),
        ImageError::DimensionOverflow
    );
}

#[test]
fn cropping_to_nothing_is_refused() {
    let image = numbered(3, 3);
    assert_eq!(image.cropped(0, 0, 0, 2).unwrap_err(), ImageError::InvalidDimensions);
    assert_eq!(image.cropped(1, 1, 2, 0).unwrap_err(), ImageError::InvalidDimensions);
}

#[test]
fn subimage_with_a_corner_above_and_left_of_the_source() {
    // 1 2
    // 3 4
    let image = numbered(2, 2);
    let part = image.subimage(-1, -1, 4, 3).unwrap();
    assert_eq!(part.width(), 4);
    assert_eq!(part.height(), 3);
    let expected = [0u32, 0, 0, 0, 0, 1, 2, 0, 0, 3, 4, 0];
    assert_eq!(part.pixels(), &expected[..]);
}

#[test]
fn subimage_far_to_the_left_is_blank() {
    let image = numbered(2, 2);
    let part = image.subimage(i32::MIN, 0, 2, 2).unwrap();
    assert_eq!(part.pixels(), &[0u32, 0, 0, 0][..]);
}

#[test]
fn subimage_with_positive_offsets_is_a_crop() {
    let image = numbered(4, 4);
    let a = image.subimage(1, 2, 3, 2).unwrap();
    let b = image.cropped(1, 2, 3, 2).unwrap();
    assert_eq!(a.pixels(), b.pixels());
}

#[test]
fn subimage_to_nothing_is_refused() {
    let image = numbered(2, 2);
    assert_eq!(image.subimage(-1, -1, 0, 1).unwrap_err(), ImageError::InvalidDimensions);
}
