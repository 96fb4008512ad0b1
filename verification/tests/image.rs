use pathtracer::image::{Color, Image};

#[test]
fn new_image_is_black() {
    let image = Image::new(3, 2);
    assert_eq!(image.width(), 3);
    assert_eq!(image.height(), 2);
    assert_eq!(image.pixels().len(), 6);
    assert!(image.pixels().iter().all(|c| *c == Color { r: 0, g: 0, b: 0 }));
}

#[test]
fn new_image_without_rows_is_empty() {
    let image = Image::new(4, 0);
    assert_eq!(image.width(), 4);
    assert_eq!(image.height(), 0);
    assert!(image.pixels().is_empty());
}

#[test]
fn color_constructors() {
    assert_eq!(Color::new(1, 2, 3), Color { r: 1, g: 2, b: 3 });
    assert_eq!(Color::black(), Color { r: 0, g: 0, b: 0 });
}

#[test]
fn pixel_is_found_by_column_and_row() {
    let mut image = Image::new(3, 2);
    *image.pixel(0, 0) = Color::new(1, 1, 1);
    *image.pixel(2, 0) = Color::new(2, 2, 2);
    *image.pixel(1, 1) = Color::new(3, 3, 3);
    let b = Color::black();
    assert_eq!(
        image.pixels(),
        &[Color::new(1, 1, 1), b, Color::new(2, 2, 2), b, Color::new(3, 3, 3), b]
    );
    assert_eq!(*image.pixel(1, 1), Color::new(3, 3, 3));
    assert_eq!(*image.pixel(1, 0), b);
}

#[test]
fn pixels_mut_writes_through() {
    let mut image = Image::new(2, 1);
    image.pixels_mut()[1] = Color::new(9, 8, 7);
    assert_eq!(image.pixels(), &[Color::black(), Color::new(9, 8, 7)]);
    assert_eq!(image.width(), 2);
}

#[test]
fn from_pixels_keeps_them() {
    let pixels = vec![Color::new(1, 2, 3), Color::new(4, 5, 6)];
    let image = Image::from_pixels(1, pixels.clone());
    assert_eq!(image.width(), 1);
    assert_eq!(image.height(), 2);
    assert_eq!(image.pixels(), pixels.as_slice());
}

#[test]
fn height_counts_whole_rows() {
    let image = Image::from_pixels(2, vec![Color::black(); 5]);
    assert_eq!(image.height(), 2);
    let image = Image::from_pixels(7, vec![Color::black(); 5]);
    assert_eq!(image.height(), 0);
}

#[test]
fn ppm_of_two_rows() {
    let image = Image::from_pixels(
        2,
        vec![
            Color::new(0, 0, 0),
            Color::new(255, 128, 7),
            Color::new(1, 2, 3),
            Color::new(10, 20, 30),
        ],
    );
    assert_eq!(image.ppm(), "P3\n2 2\n255\n0 0 0 255 128 7 \n1 2 3 10 20 30 \n");
}

#[test]
fn ppm_of_one_pixel() {
    let image = Image::from_pixels(1, vec![Color::new(99, 100, 9)]);
    assert_eq!(image.ppm(), "P3\n1 1\n255\n99 100 9 \n");
}

#[test]
fn ppm_of_a_black_image() {
    assert_eq!(Image::new(3, 1).ppm(), "P3\n3 1\n255\n0 0 0 0 0 0 0 0 0 \n");
    assert_eq!(Image::new(1, 3).ppm(), "P3\n1 3\n255\n0 0 0 \n0 0 0 \n0 0 0 \n");
}

#[test]
fn ppm_of_an_image_without_rows() {
    assert_eq!(Image::new(12, 0).ppm(), "P3\n12 0\n255\n");
}

#[test]
fn ppm_breaks_the_line_after_every_full_row_only() {
    let image = Image::from_pixels(2, vec![Color::new(1, 1, 1); 3]);
    assert_eq!(image.ppm(), "P3\n2 1\n255\n1 1 1 1 1 1 \n1 1 1 ");
}

#[test]
fn ppm_writes_wide_sizes_in_full() {
    let image = Image::new(1203, 1);
    let text = image.ppm();
    assert!(text.starts_with("P3\n1203 1\n255\n0 0 0 "));
    assert!(text.ends_with("0 0 0 \n"));
    assert_eq!(text.len(), "P3\n1203 1\n255\n".len() + 1203 * 6 + 1);
}

#[test]
fn ppm_writes_every_channel_value() {
    for n in 0..=255u8 {
        let image = Image::from_pixels(1, vec![Color::new(n, 255 - n, n / 2)]);
        assert_eq!(image.ppm(), format!("P3\n1 1\n255\n{} {} {} \n", n, 255 - n, n / 2));
    }
}
