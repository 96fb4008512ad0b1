//! Denoising as a step after the render.
//!
//! The filter itself is the caller's: it takes the channels of every pixel
//! and gives back as many. The library lays the picture out for it and builds
//! the picture that comes back.

use vstd::prelude::*;
use crate::error::Error;
use crate::image::Color;
use crate::raster::Picture;

verus! {

/// The channels of the pixels, one after another: red, green and blue of the
/// first pixel, then of the second, and so on.
pub open spec fn channels(pixels: Seq<Color>) -> Seq<u8> {
    Seq::new(
        3 * pixels.len(),
        |i: int|
            if i % 3 == 0 {
                pixels[i / 3].r
            } else if i % 3 == 1 {
                pixels[i / 3].g
            } else {
                pixels[i / 3].b
            },
    )
}

/// The pixels that the channels make, three channels to a pixel.
pub open spec fn pixels_of(channels: Seq<u8>) -> Seq<Color> {
    Seq::new(
        channels.len() / 3,
        |i: int| Color { r: channels[3 * i], g: channels[3 * i + 1], b: channels[3 * i + 2] },
    )
}

/// Lays out the channels of a picture for a filter.
pub fn create_pfm(image: &Picture) -> (result: Vec<u8>)
    ensures
        result@ == channels(image.colors()),
{
    let pixels = image.pixels();
    let mut result: Vec<u8> = Vec::new();
    let mut k: usize = 0;
    while k < pixels.len()
        invariant
            k <= pixels@.len(),
            pixels@ == image.colors(),
            result@.len() == 3 * k,
            forall|i: int| 0 <= i < 3 * k ==> result@[i] == channels(pixels@)[i],
        decreases pixels@.len() - k,
    {
        let pixel = pixels[k];
        result.push(pixel.r);
        result.push(pixel.g);
        result.push(pixel.b);
        k += 1;
    }
    result
}

/// Builds the picture of the given size from its channels.
pub fn create_image(pfm: &Vec<u8>, width: u32, height: u32) -> (image: Picture)
    requires
        3 * width <= usize::MAX,
        pfm@.len() == 3 * width * height,
    ensures
        image.columns() == width,
        image.rows() == height,
        image.colors() == pixels_of(pfm@),
        channels(image.colors()) == pfm@,
{
    let mut pixels: Vec<Color> = Vec::new();
    let size = pfm.len();
    let count = size / 3;
    assert(3 * width * height == 3 * (width * height)) by (nonlinear_arith);
    let mut k: usize = 0;
    while k < count
        invariant
            k <= count,
            3 * count == size,
            size == pfm@.len(),
            pixels@.len() == k,
            forall|i: int| 0 <= i < k ==> pixels@[i] == pixels_of(pfm@)[i],
        decreases count - k,
    {
        pixels.push(Color::new(pfm[3 * k], pfm[3 * k + 1], pfm[3 * k + 2]));
        k += 1;
    }
    let made = Picture::from_pixels(width, height, &pixels);
    made.unwrap()
}

/// Denoises a picture with the given filter. The result has the size of the
/// picture, and its pixels are what the filter made of the picture's
/// channels; a filter that gives back another number of channels is an error.
pub fn denoise<F: FnOnce(Vec<u8>) -> Vec<u8>>(image: &Picture, filter: F) -> (result: Result<
    Picture,
    Error,
>)
    requires
        forall|pfm: Vec<u8>| pfm@ == channels(image.colors()) ==> filter.requires((pfm,)),
    ensures
        match result {
            Ok(clean) => clean.columns() == image.columns() && clean.rows() == image.rows()
                && exists|pfm: Vec<u8>, filtered: Vec<u8>|
                pfm@ == channels(image.colors()) && filter.ensures((pfm,), filtered)
                    && clean.colors() == pixels_of(filtered@) && channels(clean.colors())
                    == filtered@,
            Err(e) => e.message@ == "the filter changed the size of the image"@ && exists|
                pfm: Vec<u8>,
                filtered: Vec<u8>,
            |
                pfm@ == channels(image.colors()) && filter.ensures((pfm,), filtered)
                    && filtered@.len() != 3 * image.colors().len(),
        },
{
    let width = image.width();
    let height = image.height();
    let pfm_image = create_pfm(image);
    let size = pfm_image.len();
    let filtered = filter(pfm_image);
    if filtered.len() != size {
        return Err(Error::new("the filter changed the size of the image"));
    }
    assert(3 * width * height == 3 * (width * height)) by (nonlinear_arith);
    let clean = create_image(&filtered, width, height);
    Ok(clean)
}

} // verus!
