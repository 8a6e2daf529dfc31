//! Bitmaps for the panel.

use image::DynamicImage;
use vstd::prelude::*;

verus! {

/// The byte of a white pixel.
pub const WHITE: u8 = 255;

/// The byte of a black pixel.
pub const BLACK: u8 = 0;

/// A decoded picture of the `image` crate, in whatever pixel format it was
/// stored.
#[verifier::external_type_specification]
#[verifier::external_body]
pub struct ExDynamicImage(DynamicImage);

/// The luminance of each pixel of `image`, row by row from the top left, as
/// `DynamicImage::to_luma8` gives it.
pub uninterp spec fn image_luma(image: DynamicImage) -> Seq<u8>;

/// `DynamicImage::to_luma8`, pixel by pixel: the luminance of `image`.
#[verifier::external_body]
fn luma_pixels(image: &DynamicImage) -> (luma: Vec<u8>)
    ensures
        luma@ == image_luma(*image),
{
    image.to_luma8().pixels().map(|pixel| pixel[0]).collect()
}

/// What a pixel of luminance `luma` becomes under `threshold`: white when it
/// is brighter, black otherwise.
pub open spec fn binary_pixel(luma: u8, threshold: u8) -> u8 {
    if luma > threshold {
        WHITE
    } else {
        BLACK
    }
}

/// The two-level picture of the luminances `luma`.
pub open spec fn binary_pixels(luma: Seq<u8>, threshold: u8) -> Seq<u8> {
    luma.map_values(|pixel: u8| binary_pixel(pixel, threshold))
}

/// The two-level picture of the luminances `luma`: pixel by pixel, white
/// where the luminance is above `threshold` and black elsewhere.
pub fn threshold_pixels(luma: &[u8], threshold: u8) -> (binary: Vec<u8>)
    ensures
        binary@ == binary_pixels(luma@, threshold),
{
    let mut binary: Vec<u8> = Vec::new();
    let mut i: usize = 0;
    while i < luma.len()
        invariant
            i <= luma.len(),
            binary@ == binary_pixels(luma@.take(i as int), threshold),
        decreases luma.len() - i,
    {
        let color: u8 = if luma[i] > threshold {
            WHITE
        } else {
            BLACK
        };
        binary.push(color);
        i += 1;
        assert(binary@ =~= binary_pixels(luma@.take(i as int), threshold));
    }
    assert(luma@.take(i as int) =~= luma@);
    binary
}

/// The two-level picture of `image` for the panel: one byte a pixel, white
/// where the luminance of the pixel is above `threshold` and black elsewhere.
pub fn image_to_binary(image: &DynamicImage, threshold: u8) -> (binary: Vec<u8>)
    ensures
        binary@ == binary_pixels(image_luma(*image), threshold),
{
    let luma = luma_pixels(image);
    threshold_pixels(luma.as_slice(), threshold)
}

} // verus!
