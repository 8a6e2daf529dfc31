use image::{DynamicImage, GrayImage, Luma, Rgb, RgbImage};
use plant_telemetry::bitmap::{image_to_binary, threshold_pixels};

fn gray(width: u32, height: u32, pixels: Vec<u8>) -> DynamicImage {
    DynamicImage::ImageLuma8(GrayImage::from_raw(width, height, pixels).unwrap())
}

#[test]
fn threshold_splits_black_from_white() {
    assert_eq!(threshold_pixels(&[0, 127, 128, 129, 255], 128), vec![0, 0, 0, 255, 255]);
}

#[test]
fn threshold_at_the_ends() {
    assert_eq!(threshold_pixels(&[0, 1, 254, 255], 0), vec![0, 255, 255, 255]);
    assert_eq!(threshold_pixels(&[0, 1, 254, 255], 255), vec![0, 0, 0, 0]);
    assert_eq!(threshold_pixels(&[0, 1, 254, 255], 254), vec![0, 0, 0, 255]);
}

#[test]
fn empty_image_stays_empty() {
    assert_eq!(threshold_pixels(&[], 100), Vec::<u8>::new());
    assert_eq!(image_to_binary(&gray(0, 0, vec![]), 100), Vec::<u8>::new());
}

#[test]
fn every_pixel_has_its_own_answer() {
    let luma: Vec<u8> = (0..=255).collect();
    let binary = threshold_pixels(&luma, 99);
    assert_eq!(binary.len(), 256);
    for (pixel, out) in luma.iter().zip(binary.iter()) {
        assert_eq!(*out, if *pixel > 99 { 255 } else { 0 });
    }
}

#[test]
fn grey_image_is_thresholded_row_by_row() {
    let image = gray(3, 2, vec![10, 200, 30, 40, 128, 129]);
    assert_eq!(image_to_binary(&image, 128), vec![0, 255, 0, 0, 0, 255]);
    assert_eq!(image_to_binary(&image, 9), vec![255; 6]);
    assert_eq!(image_to_binary(&image, 200), vec![0; 6]);
}

#[test]
fn only_the_pixels_of_the_image_count() {
    // The buffer is longer than two by two pixels.
    let image = gray(2, 2, vec![0, 255, 255, 0, 255, 255, 255]);
    assert_eq!(image_to_binary(&image, 100), vec![0, 255, 255, 0]);
}

#[test]
fn colour_image_goes_by_its_luminance() {
    let mut image = RgbImage::new(2, 2);
    image.put_pixel(0, 0, Rgb([255, 255, 255]));
    image.put_pixel(1, 0, Rgb([0, 0, 0]));
    image.put_pixel(0, 1, Rgb([0, 0, 255]));
    image.put_pixel(1, 1, Rgb([0, 255, 0]));
    let image = DynamicImage::ImageRgb8(image);
    let luma = image.to_luma8();
    assert_eq!(*luma.get_pixel(0, 0), Luma([255]));
    // Blue is dark and green is bright to the eye.
    assert_eq!(image_to_binary(&image, 128), vec![255, 0, 0, 255]);
    let expected: Vec<u8> =
        luma.pixels().map(|pixel| if pixel[0] > 20 { 255 } else { 0 }).collect();
    assert_eq!(image_to_binary(&image, 20), expected);
}
