use rpad::border::{has_frame, measure_border, measure_frame, strip_border, BorderDir};
use rpad::pad::pad;
use rpad::raster::{white, Color, Image};

fn black() -> Color {
    Color::new(0, 0, 0, 255)
}

fn red() -> Color {
    Color::new(255, 0, 0, 255)
}

/// A `w` x `h` image of `outer`, with the rectangle from `(x0, y0)` of size
/// `iw` x `ih` set to `inner`.
fn framed(w: u32, h: u32, outer: Color, x0: u32, y0: u32, iw: u32, ih: u32, inner: Color) -> Image {
    let mut img = Image::filled(w, h, outer);
    for y in y0..y0 + ih {
        for x in x0..x0 + iw {
            img.set_pixel(x, y, inner);
        }
    }
    img
}

/// A `w` x `h` image in which no two pixels are equal.
fn distinct(w: u32, h: u32) -> Image {
    let mut img = Image::filled(w, h, black());
    for y in 0..h {
        for x in 0..w {
            img.set_pixel(x, y, Color::new((x * 37 + 5) as u8, (y * 53 + 11) as u8, (x * 7 + y * 13) as u8, 200));
        }
    }
    img
}

fn all_pixels(img: &Image, c: Color) -> bool {
    (0..img.height()).all(|y| (0..img.width()).all(|x| img.get_pixel(x, y) == c))
}

#[test]
fn ring_of_two_is_removed_and_padded_by_three() {
    let img = framed(10, 10, black(), 2, 2, 6, 6, red());
    let (inner, color) = strip_border(img);
    assert_eq!(color, black());
    assert_eq!((inner.width(), inner.height()), (6, 6));
    assert!(all_pixels(&inner, red()));

    let out = pad(&inner, color, 3);
    assert_eq!((out.width(), out.height()), (12, 12));
    for y in 0..12 {
        for x in 0..12 {
            let inside = (3..9).contains(&x) && (3..9).contains(&y);
            let expected = if inside { red() } else { black() };
            assert_eq!(out.get_pixel(x, y), expected, "pixel ({}, {})", x, y);
        }
    }
}

#[test]
fn distinct_pixels_have_no_border() {
    let img = distinct(5, 5);
    let reference = img.get_pixel(0, 0);
    for dir in [BorderDir::Left, BorderDir::Top, BorderDir::Right, BorderDir::Bottom] {
        assert_eq!(measure_border(&img, reference, dir), 0);
    }
    assert_eq!(measure_frame(&img), (0, 0, 0, 0));
    assert!(!has_frame(&img));

    let (inner, color) = strip_border(img.clone());
    assert_eq!(inner, img);
    assert_eq!(color, Color::new(255, 255, 255, 255));

    let out = pad(&inner, color, 30);
    assert_eq!((out.width(), out.height()), (65, 65));
    assert_eq!(out.get_pixel(0, 0), white());
    assert_eq!(out.get_pixel(64, 64), white());
    assert_eq!(out.get_pixel(30, 30), img.get_pixel(0, 0));
    assert_eq!(out.get_pixel(34, 32), img.get_pixel(4, 2));
}

#[test]
fn zero_padding_copies_the_input() {
    let img = distinct(4, 3);
    let out = pad(&img, red(), 0);
    assert_eq!(out, img);

    let (inner, color) = strip_border(framed(7, 5, black(), 1, 2, 4, 2, red()));
    let again = pad(&inner, color, 0);
    assert_eq!((again.width(), again.height()), (4, 2));
    assert_eq!(again, inner);
}

#[test]
fn edges_unlike_the_corner_mean_no_frame() {
    let mut img = Image::filled(4, 3, red());
    img.set_pixel(0, 0, black());
    let (inner, color) = strip_border(img.clone());
    assert_eq!(inner, img);
    assert_eq!(color, white());
}

#[test]
fn uniform_image_is_all_border() {
    let img = Image::filled(4, 3, red());
    assert_eq!(measure_border(&img, red(), BorderDir::Left), 4);
    assert_eq!(measure_border(&img, red(), BorderDir::Right), 4);
    assert_eq!(measure_border(&img, red(), BorderDir::Top), 3);
    assert_eq!(measure_border(&img, red(), BorderDir::Bottom), 3);
    let (inner, color) = strip_border(img);
    assert_eq!(color, red());
    assert_eq!((inner.width(), inner.height()), (0, 0));
    let out = pad(&inner, color, 2);
    assert_eq!((out.width(), out.height()), (4, 4));
    assert!(all_pixels(&out, red()));
}

#[test]
fn single_column_uniform_image() {
    let img = Image::filled(1, 3, black());
    assert_eq!(measure_frame(&img), (1, 3, 1, 3));
    let (inner, color) = strip_border(img);
    assert_eq!(color, black());
    assert_eq!((inner.width(), inner.height()), (0, 0));
}

#[test]
fn single_pixel_image_is_its_own_frame() {
    let img = Image::filled(1, 1, red());
    assert!(has_frame(&img));
    let (inner, color) = strip_border(img);
    assert_eq!(color, red());
    assert_eq!((inner.width(), inner.height()), (0, 0));
}

#[test]
fn uneven_frame_is_measured_per_edge() {
    // left 1, top 2, right 3, bottom 1 on an 8 x 6 image
    let img = framed(8, 6, black(), 1, 2, 4, 3, red());
    assert_eq!(measure_border(&img, black(), BorderDir::Left), 1);
    assert_eq!(measure_border(&img, black(), BorderDir::Top), 2);
    assert_eq!(measure_border(&img, black(), BorderDir::Right), 3);
    assert_eq!(measure_border(&img, black(), BorderDir::Bottom), 1);
    assert!(has_frame(&img));
    let (inner, color) = strip_border(img);
    assert_eq!(color, black());
    assert_eq!((inner.width(), inner.height()), (4, 3));
    assert!(all_pixels(&inner, red()));
}

#[test]
fn frame_missing_on_one_edge_is_no_frame() {
    let img = framed(6, 6, black(), 1, 1, 5, 4, red());
    assert_eq!(measure_border(&img, black(), BorderDir::Right), 0);
    assert!(!has_frame(&img));
    let (inner, color) = strip_border(img.clone());
    assert_eq!(inner, img);
    assert_eq!(color, white());
}

#[test]
fn interior_keeps_its_pixels() {
    let mut img = Image::filled(6, 5, black());
    let patch = distinct(3, 2);
    for y in 0..2 {
        for x in 0..3 {
            img.set_pixel(x + 2, y + 1, patch.get_pixel(x, y));
        }
    }
    let (inner, color) = strip_border(img);
    assert_eq!(color, black());
    assert_eq!(inner, patch);
}

#[test]
fn padding_band_and_copy() {
    let img = distinct(2, 3);
    let out = pad(&img, red(), 2);
    assert_eq!((out.width(), out.height()), (6, 7));
    for y in 0..7 {
        for x in 0..6 {
            let expected = if (2..4).contains(&x) && (2..5).contains(&y) {
                img.get_pixel(x - 2, y - 2)
            } else {
                red()
            };
            assert_eq!(out.get_pixel(x, y), expected);
        }
    }
}

#[test]
fn crop_takes_the_given_window() {
    let img = distinct(5, 4);
    let part = img.crop(1, 2, 3, 2);
    assert_eq!((part.width(), part.height()), (3, 2));
    assert_eq!(part.get_pixel(0, 0), img.get_pixel(1, 2));
    assert_eq!(part.get_pixel(2, 1), img.get_pixel(3, 3));
}

#[test]
fn set_pixel_changes_one_pixel() {
    let mut img = Image::filled(3, 2, red());
    img.set_pixel(2, 1, black());
    assert_eq!(img.get_pixel(2, 1), black());
    assert_eq!(img.get_pixel(1, 1), red());
    assert_eq!(img.get_pixel(2, 0), red());
}
