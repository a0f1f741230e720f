//! Surrounding an image with a uniform band of one color.
use vstd::prelude::*;

use crate::raster::{Color, Image};

verus! {

/// The pixel at `(x, y)` of `img` padded by `p` pixels of `color` on every
/// side: a copy of the source pixel inside the centered copy, `color` in the
/// band around it.
pub open spec fn padded_px(img: &Image, color: Color, p: int, x: int, y: int) -> Color {
    if p <= x < p + img.width && p <= y < p + img.height {
        img.px(x - p, y - p)
    } else {
        color
    }
}

/// `out` is `img` with a band of `p` pixels of `color` added on all four sides.
pub open spec fn padded_as(img: &Image, color: Color, p: int, out: &Image) -> bool {
    &&& out.wf()
    &&& out.width == img.width + 2 * p
    &&& out.height == img.height + 2 * p
    &&& forall|x: int, y: int| out.contains(x, y) ==> #[trigger] out.px(x, y) == padded_px(img, color, p, x, y)
}

/// A new image, `2 * padding` pixels wider and higher than `img`, holding
/// `img` at offset `(padding, padding)` and `color` everywhere else.
pub fn pad(img: &Image, color: Color, padding: u32) -> (out: Image)
    requires
        img.wf(),
        img.width + 2 * padding <= u32::MAX,
        img.height + 2 * padding <= u32::MAX,
    ensures
        padded_as(img, color, padding as int, &out),
{
    let out_w: u32 = img.width + 2 * padding;
    let out_h: u32 = img.height + 2 * padding;
    let mut rows: Vec<Vec<Color>> = Vec::new();
    let mut y: u32 = 0;
    while y < out_h
        invariant
            img.wf(),
            out_w == img.width + 2 * padding,
            out_h == img.height + 2 * padding,
            y <= out_h,
            rows@.len() == y as int,
            forall|j: int| 0 <= j < y ==> (#[trigger] rows@[j])@.len() == out_w as int,
            forall|i: int, j: int|
                0 <= j < y && 0 <= i < out_w ==> #[trigger] rows@[j]@[i] == padded_px(
                    img,
                    color,
                    padding as int,
                    i,
                    j,
                ),
        decreases out_h - y,
    {
        let inside_row = padding <= y && y - padding < img.height;
        let mut row: Vec<Color> = Vec::new();
        let mut x: u32 = 0;
        while x < out_w
            invariant
                img.wf(),
                out_w == img.width + 2 * padding,
                out_h == img.height + 2 * padding,
                y < out_h,
                x <= out_w,
                inside_row == (padding <= y && y - padding < img.height),
                row@.len() == x as int,
                forall|i: int|
                    0 <= i < x ==> #[trigger] row@[i] == padded_px(img, color, padding as int, i, y as int),
            decreases out_w - x,
        {
            if inside_row && padding <= x && x - padding < img.width {
                row.push(img.rows[(y - padding) as usize][(x - padding) as usize]);
            } else {
                row.push(color);
            }
            x = x + 1;
        }
        rows.push(row);
        y = y + 1;
    }
    Image { width: out_w, height: out_h, rows }
}

} // verus!
