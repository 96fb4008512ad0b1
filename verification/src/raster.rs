//! The rendered picture, held in the buffer of the `image` crate.
//!
//! The buffer itself is that crate's; what it holds is known to the library
//! by two names, [`samples_of`] and [`size_of`], and every call into the
//! crate says in terms of them what the crate's source shows of it. On top of
//! those calls the library reads and writes the picture pixel by pixel.

use vstd::prelude::*;
use crate::image::Color;

verus! {

/// A picture of three samples to a pixel, in an `image::RgbImage`.
#[verifier::external_body]
pub struct Picture {
    inner: ::image::RgbImage,
}

/// The samples that a picture holds: red, green and blue of its first pixel,
/// then of the next in the row, row after row from the top.
pub uninterp spec fn samples_of(picture: Picture) -> Seq<u8>;

/// The width and the height that a picture was made with, in pixels.
pub uninterp spec fn size_of(picture: Picture) -> (u32, u32);

/// `ImageBuffer::new`: a buffer of the given size whose samples are all zero,
/// three for each pixel. It counts the samples as three times the width, and
/// that times the height, and panics where either product is more than a
/// `usize` holds or the samples are more than a vector holds; the `requires`
/// leaves those sizes out.
#[verifier::external_body]
fn blank(width: u32, height: u32) -> (picture: Picture)
    requires
        3 * width <= usize::MAX,
        3 * width * height <= isize::MAX,
    ensures
        size_of(picture) == (width, height),
        samples_of(picture) == Seq::new((3 * width * height) as nat, |i: int| 0u8),
{
    Picture { inner: ::image::RgbImage::new(width, height) }
}

/// `ImageBuffer::from_raw`: the buffer of the given size over the given
/// samples, or nothing where they are fewer than three for each pixel. It
/// counts the samples it needs as three times the width, and that times the
/// height, and gives nothing where either product is more than a `usize`
/// holds.
#[verifier::external_body]
fn from_raw(width: u32, height: u32, samples: Vec<u8>) -> (picture: Option<Picture>)
    ensures
        picture is Some <==> (3 * width <= usize::MAX && 3 * width * height <= samples@.len()),
        picture is Some ==> size_of(picture->0) == (width, height) && samples_of(picture->0)
            == samples@,
{
    match ::image::RgbImage::from_raw(width, height, samples) {
        Some(inner) => Some(Picture { inner }),
        None => None,
    }
}

/// `ImageBuffer::dimensions`: the width and the height of the buffer. No
/// buffer is so wide that three times its width is more than a `usize`
/// holds, and none holds fewer than three samples for each of its pixels:
/// every way to make one sees to both.
#[verifier::external_body]
fn dimensions(picture: &Picture) -> (size: (u32, u32))
    ensures
        size == size_of(*picture),
        3 * size.0 <= usize::MAX,
        3 * size.0 * size.1 <= samples_of(*picture).len(),
{
    picture.inner.dimensions()
}

/// `ImageBuffer::as_raw`: the samples of the buffer.
#[verifier::external_body]
fn as_raw(picture: &Picture) -> (samples: &Vec<u8>)
    ensures
        samples@ == samples_of(*picture),
{
    picture.inner.as_raw()
}

/// `ImageBuffer::put_pixel`: writes the three samples of the pixel in column
/// `x` of row `y` and leaves the rest as it is. It panics on a place outside
/// the buffer, which the `requires` leaves out.
#[verifier::external_body]
fn put_pixel(picture: &mut Picture, x: u32, y: u32, r: u8, g: u8, b: u8)
    requires
        x < size_of(*old(picture)).0,
        y < size_of(*old(picture)).1,
    ensures
        size_of(*final(picture)) == size_of(*old(picture)),
        samples_of(*final(picture)) == samples_of(*old(picture)).update(
            3 * (y * size_of(*old(picture)).0 + x),
            r,
        ).update(3 * (y * size_of(*old(picture)).0 + x) + 1, g).update(
            3 * (y * size_of(*old(picture)).0 + x) + 2,
            b,
        ),
{
    picture.inner.put_pixel(x, y, ::image::Rgb([r, g, b]));
}

/// The pixel made of the three samples from place `3 * k` on.
pub open spec fn color_at(samples: Seq<u8>, k: int) -> Color {
    Color { r: samples[3 * k], g: samples[3 * k + 1], b: samples[3 * k + 2] }
}

/// In a picture of width `w` and height `h` the pixel in column `x` of row
/// `y` is pixel number `y * w + x`, and its samples lie inside the picture.
proof fn lemma_place(w: int, h: int, x: int, y: int)
    requires
        0 <= x < w,
        0 <= y < h,
    ensures
        0 <= y * w + x < w * h,
        3 * (y * w + x) + 2 < 3 * w * h,
{
    assert(y * w + x < w * h) by (nonlinear_arith)
        requires
            0 <= x < w,
            0 <= y < h,
    ;
    assert(0 <= y * w) by (nonlinear_arith)
        requires
            0 <= y,
            0 <= w,
    ;
    assert(3 * w * h == 3 * (w * h)) by (nonlinear_arith);
}

impl Picture {
    /// The width of the picture, in pixels.
    pub open spec fn columns(self) -> nat {
        size_of(self).0 as nat
    }

    /// The height of the picture, in pixels.
    pub open spec fn rows(self) -> nat {
        size_of(self).1 as nat
    }

    /// The pixels of the picture, row after row from the top.
    pub open spec fn colors(self) -> Seq<Color> {
        Seq::new(self.columns() * self.rows(), |k: int| color_at(samples_of(self), k))
    }

    /// Whether a picture of the given size can be made: three samples for
    /// every pixel of one row can be counted, and those of all rows fit a
    /// vector.
    pub open spec fn fits(width: u32, height: u32) -> bool {
        3 * width <= usize::MAX && 3 * width * height <= isize::MAX
    }

    /// Tests whether a picture of the given size can be made.
    pub fn can_hold(width: u32, height: u32) -> (fits: bool)
        ensures
            fits == Picture::fits(width, height),
    {
        let row: u64 = 3 * (width as u64);
        if row > usize::MAX as u64 {
            return false;
        }
        assert(3 * width * height <= 3 * 0xFFFF_FFFF * 0xFFFF_FFFF) by (nonlinear_arith)
            requires
                0 <= width <= 0xFFFF_FFFF,
                0 <= height <= 0xFFFF_FFFF,
        ;
        let samples: u128 = (row as u128) * (height as u128);
        samples <= isize::MAX as u128
    }

    /// A black picture of the given size.
    pub fn new(width: u32, height: u32) -> (picture: Picture)
        requires
            Picture::fits(width, height),
        ensures
            picture.columns() == width,
            picture.rows() == height,
            picture.colors() == Seq::new(
                (width * height) as nat,
                |k: int| Color { r: 0, g: 0, b: 0 },
            ),
    {
        let picture = blank(width, height);
        proof {
            assert forall|k: int| 0 <= k < width * height implies color_at(
                samples_of(picture),
                k,
            ) == (Color { r: 0, g: 0, b: 0 }) by {
                assert(3 * k + 2 < 3 * width * height) by (nonlinear_arith)
                    requires
                        0 <= k < width * height,
                ;
            }
            assert(picture.colors() =~= Seq::new(
                (width * height) as nat,
                |k: int| Color { r: 0, g: 0, b: 0 },
            ));
        }
        picture
    }

    /// The width of the picture, in pixels. No picture is so wide that the
    /// samples of one row cannot be counted.
    pub fn width(&self) -> (width: u32)
        ensures
            width == self.columns(),
            3 * width <= usize::MAX,
    {
        let (width, _height) = dimensions(self);
        width
    }

    /// The height of the picture, in pixels.
    pub fn height(&self) -> (height: u32)
        ensures
            height == self.rows(),
    {
        let (_width, height) = dimensions(self);
        height
    }

    /// The pixel in column `x` of row `y`.
    pub fn get_pixel(&self, x: u32, y: u32) -> (color: Color)
        requires
            x < self.columns(),
            y < self.rows(),
        ensures
            color == self.colors()[y * self.columns() + x],
    {
        let (width, height) = dimensions(self);
        let samples = as_raw(self);
        let size = samples.len();
        proof {
            lemma_place(width as int, height as int, x as int, y as int);
            assert(0 <= y * width) by (nonlinear_arith)
                requires
                    0 <= y,
                    0 <= width,
            ;
        }
        let first = 3 * (y as usize * width as usize + x as usize);
        Color::new(samples[first], samples[first + 1], samples[first + 2])
    }

    /// Writes the pixel in column `x` of row `y`.
    pub fn put_pixel(&mut self, x: u32, y: u32, color: Color)
        requires
            x < old(self).columns(),
            y < old(self).rows(),
        ensures
            final(self).columns() == old(self).columns(),
            final(self).rows() == old(self).rows(),
            final(self).colors() == old(self).colors().update(
                y * old(self).columns() + x,
                color,
            ),
    {
        let (width, height) = dimensions(self);
        let ghost before = samples_of(*self);
        put_pixel(self, x, y, color.r, color.g, color.b);
        proof {
            let place = y * width + x;
            lemma_place(width as int, height as int, x as int, y as int);
            let after = samples_of(*self);
            assert forall|k: int| 0 <= k < width * height implies color_at(after, k) == (if k
                == place {
                color
            } else {
                color_at(before, k)
            }) by {
                assert(3 * k + 2 < 3 * width * height) by (nonlinear_arith)
                    requires
                        0 <= k < width * height,
                ;
            }
        }
    }

    /// The pixel in column `x` of row `y`, or nothing where the picture has no
    /// such place.
    pub fn get_pixel_checked(&self, x: u32, y: u32) -> (color: Option<Color>)
        ensures
            color == if x < self.columns() && y < self.rows() {
                Some(self.colors()[y * self.columns() + x])
            } else {
                None
            },
    {
        if x < self.width() && y < self.height() {
            Some(self.get_pixel(x, y))
        } else {
            None
        }
    }

    /// Writes the pixel in column `x` of row `y` and says so, or leaves the
    /// picture as it is where it has no such place.
    pub fn put_pixel_checked(&mut self, x: u32, y: u32, color: Color) -> (written: bool)
        ensures
            written == (x < old(self).columns() && y < old(self).rows()),
            final(self).columns() == old(self).columns(),
            final(self).rows() == old(self).rows(),
            final(self).colors() == if written {
                old(self).colors().update(y * old(self).columns() + x, color)
            } else {
                old(self).colors()
            },
    {
        if x < self.width() && y < self.height() {
            self.put_pixel(x, y, color);
            true
        } else {
            false
        }
    }

    /// The pixels of the picture, row after row from the top.
    pub fn pixels(&self) -> (pixels: Vec<Color>)
        ensures
            pixels@ == self.colors(),
    {
        let (width, height) = dimensions(self);
        let samples = as_raw(self);
        let size = samples.len();
        assert(3 * (width * height) == 3 * width * height) by (nonlinear_arith);
        assert(0 <= width * height) by (nonlinear_arith)
            requires
                0 <= width,
                0 <= height,
        ;
        let count: usize = width as usize * height as usize;
        let mut pixels: Vec<Color> = Vec::new();
        let mut k: usize = 0;
        while k < count
            invariant
                k <= count,
                count == width * height,
                3 * count <= size,
                size == samples@.len(),
                samples@ == samples_of(*self),
                pixels@.len() == k,
                forall|i: int| 0 <= i < k ==> pixels@[i] == color_at(samples@, i),
            decreases count - k,
        {
            pixels.push(Color::new(samples[3 * k], samples[3 * k + 1], samples[3 * k + 2]));
            k += 1;
        }
        pixels
    }

    /// The picture of the given size that holds the given pixels, row after
    /// row from the top, or nothing where the pixels are not as many as the
    /// size asks for.
    pub fn from_pixels(width: u32, height: u32, pixels: &Vec<Color>) -> (picture: Option<Picture>)
        ensures
            picture is Some <==> pixels@.len() == width * height && 3 * width <= usize::MAX,
            picture is Some ==> picture->0.columns() == width && picture->0.rows() == height
                && picture->0.colors() == pixels@,
    {
        let count = pixels.len();
        assert(width * height <= 0xFFFF_FFFF * 0xFFFF_FFFF) by (nonlinear_arith)
            requires
                0 <= width <= 0xFFFF_FFFF,
                0 <= height <= 0xFFFF_FFFF,
        ;
        if width as u64 * height as u64 != count as u64 {
            return None;
        }
        let mut samples: Vec<u8> = Vec::new();
        let mut k: usize = 0;
        while k < count
            invariant
                k <= count,
                count == pixels@.len(),
                samples@.len() == 3 * k,
                forall|i: int| 0 <= i < k ==> color_at(samples@, i) == pixels@[i],
            decreases count - k,
        {
            let ghost before = samples@;
            let pixel = pixels[k];
            samples.push(pixel.r);
            samples.push(pixel.g);
            samples.push(pixel.b);
            proof {
                assert forall|i: int| 0 <= i < k implies color_at(samples@, i) == pixels@[i] by {
                    assert(color_at(before, i) == pixels@[i]);
                }
            }
            k += 1;
        }
        assert(3 * (width * height) == 3 * width * height) by (nonlinear_arith);
        from_raw(width, height, samples)
    }
}

} // verus!
