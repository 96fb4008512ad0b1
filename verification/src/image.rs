//! The pixel buffer and its plain-text form.

use vstd::prelude::*;

verus! {

/// The red, green and blue of one pixel, each from 0 to 255.
#[derive(Copy, Clone, Debug, PartialEq, Eq, Structural)]
pub struct Color {
    pub r: u8,
    pub g: u8,
    pub b: u8,
}

impl Color {
    /// The colour of the three channels.
    pub fn new(r: u8, g: u8, b: u8) -> (c: Color)
        ensures
            c == (Color { r, g, b }),
    {
        Color { r, g, b }
    }

    /// Black.
    pub fn black() -> (c: Color)
        ensures
            c == (Color { r: 0, g: 0, b: 0 }),
    {
        Color { r: 0, g: 0, b: 0 }
    }
}

/// Pixels in rows of a fixed width, row after row from the top.
pub struct Image {
    width: u32,
    pixels: Vec<Color>,
}

/// The character of a decimal digit.
pub open spec fn digit(d: nat) -> char
    recommends
        d < 10,
{
    if d == 0 {
        '0'
    } else if d == 1 {
        '1'
    } else if d == 2 {
        '2'
    } else if d == 3 {
        '3'
    } else if d == 4 {
        '4'
    } else if d == 5 {
        '5'
    } else if d == 6 {
        '6'
    } else if d == 7 {
        '7'
    } else if d == 8 {
        '8'
    } else {
        '9'
    }
}

/// A number in decimal, without leading zeros.
pub open spec fn decimal(n: nat) -> Seq<char>
    decreases n,
{
    if n < 10 {
        seq![digit(n)]
    } else {
        decimal(n / 10).push(digit(n % 10))
    }
}

/// One pixel in the plain-text form: its three channels in decimal, a space
/// after each.
pub open spec fn pixel_text(c: Color) -> Seq<char> {
    decimal(c.r as nat).push(' ') + decimal(c.g as nat).push(' ') + decimal(c.b as nat).push(
        ' ',
    )
}

/// The first `n` pixels in the plain-text form, a line break after every
/// `width` of them.
pub open spec fn body_text(pixels: Seq<Color>, width: nat, n: nat) -> Seq<char>
    decreases n,
{
    if n == 0 {
        Seq::empty()
    } else {
        let before = body_text(pixels, width, (n - 1) as nat) + pixel_text(pixels[n - 1]);
        if n % width == 0 {
            before.push('\n')
        } else {
            before
        }
    }
}

/// An image in the plain-text form: the magic number, the width and the
/// height, the greatest channel value, then the pixels.
pub open spec fn ppm_text(width: nat, height: nat, pixels: Seq<Color>) -> Seq<char> {
    seq!['P', '3', '\n'] + decimal(width).push(' ') + decimal(height) + seq![
        '\n',
        '2',
        '5',
        '5',
        '\n',
    ] + body_text(pixels, width, pixels.len())
}

fn digit_str(d: u32) -> (s: &'static str)
    requires
        d < 10,
    ensures
        s@ == seq![digit(d as nat)],
{
    proof {
        reveal_strlit("0");
        reveal_strlit("1");
        reveal_strlit("2");
        reveal_strlit("3");
        reveal_strlit("4");
        reveal_strlit("5");
        reveal_strlit("6");
        reveal_strlit("7");
        reveal_strlit("8");
        reveal_strlit("9");
    }
    let s = if d == 0 {
        "0"
    } else if d == 1 {
        "1"
    } else if d == 2 {
        "2"
    } else if d == 3 {
        "3"
    } else if d == 4 {
        "4"
    } else if d == 5 {
        "5"
    } else if d == 6 {
        "6"
    } else if d == 7 {
        "7"
    } else if d == 8 {
        "8"
    } else {
        "9"
    };
    s
}

/// Writes `n` in decimal at the end of `text`.
fn push_decimal(text: &mut String, n: u32)
    ensures
        final(text)@ == old(text)@ + decimal(n as nat),
    decreases n,
{
    if n >= 10 {
        push_decimal(text, n / 10);
    }
    text.append(digit_str(n % 10));
}

impl Image {
    /// The width of the image, in pixels.
    pub closed spec fn columns(&self) -> nat {
        self.width as nat
    }

    /// The pixels of the image, row after row.
    pub closed spec fn colors(&self) -> Seq<Color> {
        self.pixels@
    }

    /// The height of the image, in pixels: as many whole rows as the pixels
    /// fill.
    pub open spec fn rows(&self) -> nat {
        self.colors().len() / self.columns()
    }

    /// A black image of the given width and height.
    pub fn new(width: u32, height: u32) -> (image: Image)
        requires
            width * height <= u32::MAX,
        ensures
            image.columns() == width,
            image.colors() == Seq::new((width * height) as nat, |i: int| Color { r: 0, g: 0, b: 0 }),
    {
        let count: u32 = width * height;
        let mut pixels: Vec<Color> = Vec::new();
        let mut k: u32 = 0;
        while k < count
            invariant
                k <= count,
                pixels@ == Seq::new(k as nat, |i: int| Color { r: 0, g: 0, b: 0 }),
            decreases count - k,
        {
            pixels.push(Color::black());
            k += 1;
        }
        Image { width, pixels }
    }

    /// The image of the given width that holds the given pixels, row after
    /// row.
    pub fn from_pixels(width: u32, pixels: Vec<Color>) -> (image: Image)
        requires
            pixels@.len() <= u32::MAX,
        ensures
            image.columns() == width,
            image.colors() == pixels@,
    {
        Image { width, pixels }
    }

    /// The pixels, row after row.
    pub fn pixels(&self) -> (slice: &[Color])
        ensures
            slice@ == self.colors(),
    {
        self.pixels.as_slice()
    }

    /// The pixels, row after row, to be written.
    pub fn pixels_mut(&mut self) -> (slice: &mut [Color])
        ensures
            slice@ == old(self).colors(),
            final(self).colors() == final(slice)@,
            final(self).columns() == old(self).columns(),
    {
        self.pixels.as_mut_slice()
    }

    /// The pixel in column `x` of row `y`, to be written.
    pub fn pixel(&mut self, x: u32, y: u32) -> (color: &mut Color)
        requires
            y * old(self).columns() + x <= u32::MAX,
            y * old(self).columns() + x < old(self).colors().len(),
        ensures
            *color == old(self).colors()[y * old(self).columns() + x],
            final(self).colors() == old(self).colors().update(
                y * old(self).columns() + x,
                *final(color),
            ),
            final(self).columns() == old(self).columns(),
    {
        let index: u32 = y * self.width + x;
        &mut self.pixels[index as usize]
    }

    /// The width of the image, in pixels.
    pub fn width(&self) -> (width: u32)
        ensures
            width == self.columns(),
    {
        self.width
    }

    /// The height of the image, in pixels.
    pub fn height(&self) -> (height: u32)
        requires
            self.columns() > 0,
            self.colors().len() <= u32::MAX,
        ensures
            height == self.rows(),
    {
        (self.pixels.len() as u32) / self.width
    }

    /// Builds the image in the plain-text PPM format.
    pub fn ppm(&self) -> (text: String)
        requires
            self.columns() > 0,
            self.colors().len() <= u32::MAX,
        ensures
            text@ == ppm_text(self.columns(), self.rows(), self.colors()),
    {
        proof {
            reveal_strlit("P3\n");
            reveal_strlit(" ");
            reveal_strlit("\n255\n");
            reveal_strlit("\n");
        }
        let width = self.width();
        let mut ppm = String::from_str("P3\n");
        push_decimal(&mut ppm, width);
        ppm.append(" ");
        push_decimal(&mut ppm, self.height());
        ppm.append("\n255\n");
        let ghost head = ppm@;
        assert(head =~= seq!['P', '3', '\n'] + decimal(self.columns()).push(' ') + decimal(
            self.rows(),
        ) + seq!['\n', '2', '5', '5', '\n']);

        let mut row_counter: u32 = 0;
        let mut k: usize = 0;
        while k < self.pixels.len()
            invariant
                k <= self.pixels@.len(),
                width == self.width,
                width > 0,
                row_counter == (k as int) % (width as int),
                ppm@ == head + body_text(self.pixels@, width as nat, k as nat),
                " "@ == seq![' '],
                "\n"@ == seq!['\n'],
            decreases self.pixels@.len() - k,
        {
            let color = self.pixels[k];
            push_decimal(&mut ppm, color.r as u32);
            ppm.append(" ");
            push_decimal(&mut ppm, color.g as u32);
            ppm.append(" ");
            push_decimal(&mut ppm, color.b as u32);
            ppm.append(" ");

            row_counter += 1;
            assert(((k as int) + 1) % (width as int) == 0 <==> row_counter == width) by (nonlinear_arith)
                requires
                    width > 0,
                    row_counter == (k as int) % (width as int) + 1,
            ;
            assert(row_counter != width ==> row_counter == ((k as int) + 1) % (width as int))
                by (nonlinear_arith)
                requires
                    width > 0,
                    row_counter == (k as int) % (width as int) + 1,
            ;
            if row_counter == width {
                ppm.append("\n");
                row_counter = 0;
            }
            k += 1;
            assert(ppm@ =~= head + body_text(self.pixels@, width as nat, k as nat));
        }
        ppm
    }
}

} // verus!
