//! Measuring the one-color frame of an image and cutting it away.
use vstd::prelude::*;

use crate::raster::{Color, Image, spec_white, white};

verus! {

/// The edge from which a scan starts; the strip index advances inward.
#[derive(Clone, Copy, Debug, PartialEq, Eq, Structural)]
pub enum BorderDir {
    Left,
    Top,
    Right,
    Bottom,
}

/// Every pixel of the rectangle with top-left corner `(x0, y0)`, `w` columns
/// wide and `h` rows high, equals `c`.
pub open spec fn rect_uniform(img: &Image, c: Color, x0: int, y0: int, w: int, h: int) -> bool {
    forall|x: int, y: int| x0 <= x < x0 + w && y0 <= y < y0 + h ==> #[trigger] img.px(x, y) == c
}

/// How many strips lie between an edge and the opposite one: the width for
/// columns, the height for rows.
pub open spec fn extent(img: &Image, dir: BorderDir) -> int {
    match dir {
        BorderDir::Left | BorderDir::Right => img.width as int,
        BorderDir::Top | BorderDir::Bottom => img.height as int,
    }
}

/// The strip `k` steps inward from edge `dir` is entirely `c`.
pub open spec fn strip_uniform(img: &Image, c: Color, dir: BorderDir, k: int) -> bool {
    match dir {
        BorderDir::Left => forall|y: int| 0 <= y < img.height ==> #[trigger] img.px(k, y) == c,
        BorderDir::Top => forall|x: int| 0 <= x < img.width ==> #[trigger] img.px(x, k) == c,
        BorderDir::Right => forall|y: int|
            0 <= y < img.height ==> #[trigger] img.px(img.width - 1 - k, y) == c,
        BorderDir::Bottom => forall|x: int|
            0 <= x < img.width ==> #[trigger] img.px(x, img.height - 1 - k) == c,
    }
}

/// Scanning from strip `k`: the index of the first strip at or after `k`
/// that is not entirely `c`, or the extent if there is none.
pub open spec fn border_from(img: &Image, c: Color, dir: BorderDir, k: int) -> int
    decreases extent(img, dir) - k,
{
    if 0 <= k < extent(img, dir) && strip_uniform(img, c, dir, k) {
        border_from(img, c, dir, k + 1)
    } else {
        k
    }
}

/// The number of consecutive strips of color `c` from edge `dir` inward.
pub open spec fn border_width(img: &Image, c: Color, dir: BorderDir) -> int {
    border_from(img, c, dir, 0)
}

/// Whether every pixel in the given rectangle equals `ref_pixel`.
pub fn equal_pixels(ref_pixel: &Color, img: &Image, x0: u32, y0: u32, w: u32, h: u32) -> (r: bool)
    requires
        img.wf(),
        x0 + w <= img.width,
        y0 + h <= img.height,
    ensures
        r == rect_uniform(img, *ref_pixel, x0 as int, y0 as int, w as int, h as int),
{
    let mut j: u32 = 0;
    while j < h
        invariant
            img.wf(),
            x0 + w <= img.width,
            y0 + h <= img.height,
            j <= h,
            rect_uniform(img, *ref_pixel, x0 as int, y0 as int, w as int, j as int),
        decreases h - j,
    {
        let row = &img.rows[(y0 + j) as usize];
        let mut i: u32 = 0;
        while i < w
            invariant
                img.wf(),
                x0 + w <= img.width,
                y0 + h <= img.height,
                j < h,
                i <= w,
                *row == img.rows@[y0 + j],
                rect_uniform(img, *ref_pixel, x0 as int, y0 as int, w as int, j as int),
                forall|x: int| x0 <= x < x0 + i ==> #[trigger] img.px(x, y0 + j) == *ref_pixel,
            decreases w - i,
        {
            if row[(x0 + i) as usize] != *ref_pixel {
                assert(img.px(x0 + i, y0 + j) != *ref_pixel);
                return false;
            }
            i = i + 1;
        }
        j = j + 1;
    }
    true
}

/// The number of consecutive strips, from edge `dir` inward, whose pixels
/// all equal `reference`. The scan stops at the first strip that differs, or
/// after the last strip of the image, so the count never exceeds the width
/// (for columns) or the height (for rows).
pub fn measure_border(img: &Image, reference: Color, dir: BorderDir) -> (n: u32)
    requires
        img.wf(),
    ensures
        n == border_width(img, reference, dir),
        n <= extent(img, dir),
        forall|k: int| 0 <= k < n ==> strip_uniform(img, reference, dir, k),
        n < extent(img, dir) ==> !strip_uniform(img, reference, dir, n as int),
{
    let ext: u32 = match dir {
        BorderDir::Left | BorderDir::Right => img.width,
        BorderDir::Top | BorderDir::Bottom => img.height,
    };
    let mut n: u32 = 0;
    let mut scanning: bool = true;
    while scanning && n < ext
        invariant
            img.wf(),
            ext == extent(img, dir),
            n <= ext,
            border_width(img, reference, dir) == border_from(img, reference, dir, n as int),
            forall|k: int| 0 <= k < n ==> strip_uniform(img, reference, dir, k),
            !scanning ==> !strip_uniform(img, reference, dir, n as int),
        decreases ext - n + (if scanning { 1int } else { 0int }),
    {
        let uniform = match dir {
            BorderDir::Left => equal_pixels(&reference, img, n, 0, 1, img.height),
            BorderDir::Top => equal_pixels(&reference, img, 0, n, img.width, 1),
            BorderDir::Right => equal_pixels(&reference, img, img.width - 1 - n, 0, 1, img.height),
            BorderDir::Bottom => equal_pixels(&reference, img, 0, img.height - 1 - n, img.width, 1),
        };
        assert(uniform == strip_uniform(img, reference, dir, n as int));
        if uniform {
            n = n + 1;
        } else {
            scanning = false;
        }
    }
    n
}

/// The measurement from edge `dir`, taking the top-left pixel as the
/// reference color.
pub open spec fn frame_width(img: &Image, dir: BorderDir) -> int {
    border_width(img, img.px(0, 0), dir)
}

/// A frame of the top-left pixel's color is found: every edge starts with at
/// least one strip of that color.
pub open spec fn is_framed(img: &Image) -> bool {
    &&& frame_width(img, BorderDir::Left) > 0
    &&& frame_width(img, BorderDir::Top) > 0
    &&& frame_width(img, BorderDir::Right) > 0
    &&& frame_width(img, BorderDir::Bottom) > 0
}

/// Columns cut from the right: the right measurement, clamped so that the
/// two cuts together never exceed the width. The clamp only acts on an image
/// of one color, where both measurements are the full width.
pub open spec fn right_cut(img: &Image) -> int {
    let l = frame_width(img, BorderDir::Left);
    let r = frame_width(img, BorderDir::Right);
    if r <= img.width - l { r } else { img.width - l }
}

/// Rows cut from the bottom, clamped as `right_cut` clamps columns.
pub open spec fn bottom_cut(img: &Image) -> int {
    let t = frame_width(img, BorderDir::Top);
    let b = frame_width(img, BorderDir::Bottom);
    if b <= img.height - t { b } else { img.height - t }
}

/// `out` and `color` are what removing the frame of `img` gives: with a
/// frame, the interior left after cutting the four measured bands, and the
/// frame's color; without one, `img` itself and opaque white.
pub open spec fn stripped_as(img: &Image, out: &Image, color: Color) -> bool {
    if is_framed(img) {
        let l = frame_width(img, BorderDir::Left);
        let t = frame_width(img, BorderDir::Top);
        &&& color == img.px(0, 0)
        &&& out.is_crop_of(img, l, t, img.width - l - right_cut(img), img.height - t - bottom_cut(img))
    } else {
        &&& *out == *img
        &&& color == spec_white()
    }
}

/// The four measurements of `img`, left, top, right and bottom, each taken
/// with the top-left pixel as the reference color.
pub fn measure_frame(img: &Image) -> (m: (u32, u32, u32, u32))
    requires
        img.wf(),
        img.width >= 1,
        img.height >= 1,
    ensures
        m.0 == frame_width(img, BorderDir::Left),
        m.1 == frame_width(img, BorderDir::Top),
        m.2 == frame_width(img, BorderDir::Right),
        m.3 == frame_width(img, BorderDir::Bottom),
        m.0 <= img.width,
        m.1 <= img.height,
        m.2 <= img.width,
        m.3 <= img.height,
{
    let reference = img.get_pixel(0, 0);
    let l = measure_border(img, reference, BorderDir::Left);
    let t = measure_border(img, reference, BorderDir::Top);
    let r = measure_border(img, reference, BorderDir::Right);
    let b = measure_border(img, reference, BorderDir::Bottom);
    (l, t, r, b)
}

/// Whether `img` has a frame of its top-left pixel's color on all four edges.
pub fn has_frame(img: &Image) -> (r: bool)
    requires
        img.wf(),
        img.width >= 1,
        img.height >= 1,
    ensures
        r == is_framed(img),
{
    let (l, t, r, b) = measure_frame(img);
    l > 0 && t > 0 && r > 0 && b > 0
}

/// Removes the frame of `img`, returning the interior and the frame's
/// color; an image without a frame comes back unchanged, with opaque white.
pub fn strip_border(img: Image) -> (res: (Image, Color))
    requires
        img.wf(),
        img.width >= 1,
        img.height >= 1,
    ensures
        res.0.wf(),
        res.0.width <= img.width,
        res.0.height <= img.height,
        stripped_as(&img, &res.0, res.1),
{
    let (l, t, r, b) = measure_frame(&img);
    if l > 0 && t > 0 && r > 0 && b > 0 {
        let reference = img.get_pixel(0, 0);
        let rc: u32 = if r <= img.width - l { r } else { img.width - l };
        let bc: u32 = if b <= img.height - t { b } else { img.height - t };
        let inner = img.crop(l, t, img.width - l - rc, img.height - t - bc);
        (inner, reference)
    } else {
        (img, white())
    }
}

} // verus!
