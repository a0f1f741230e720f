//! Properties that relate the scanner, the stripper and the padder.
use vstd::prelude::*;

use crate::border::{
    BorderDir, border_from, border_width, extent, frame_width, is_framed, strip_uniform,
    stripped_as, right_cut, bottom_cut,
};
use crate::pad::padded_as;
use crate::raster::{Color, Image, spec_white};

verus! {

/// `(x, y)` lies on one of the four outermost rows or columns of `img`.
pub open spec fn on_edge(img: &Image, x: int, y: int) -> bool {
    img.contains(x, y) && (x == 0 || y == 0 || x == img.width - 1 || y == img.height - 1)
}

/// A scan from strip `k` never passes the opposite edge and never moves back.
pub proof fn lemma_border_from_bounds(img: &Image, c: Color, dir: BorderDir, k: int)
    requires
        0 <= k <= extent(img, dir),
    ensures
        k <= border_from(img, c, dir, k) <= extent(img, dir),
    decreases extent(img, dir) - k,
{
    if k < extent(img, dir) && strip_uniform(img, c, dir, k) {
        lemma_border_from_bounds(img, c, dir, k + 1);
    }
}

/// Every measurement lies between zero and the number of strips.
pub proof fn lemma_border_width_bounds(img: &Image, c: Color, dir: BorderDir)
    ensures
        0 <= border_width(img, c, dir) <= extent(img, dir),
{
    lemma_border_from_bounds(img, c, dir, 0);
}

/// An image of more than one pixel whose edge pixels all differ from the
/// top-left one (that pixel aside) has no frame: removing the frame gives the
/// image back unchanged, with opaque white.
pub proof fn lemma_no_frame_when_edges_differ(img: &Image, out: &Image, color: Color)
    requires
        img.wf(),
        img.width >= 1,
        img.height >= 1,
        img.width > 1 || img.height > 1,
        forall|x: int, y: int|
            on_edge(img, x, y) && (x, y) != (0int, 0int) ==> #[trigger] img.px(x, y) != img.px(0, 0),
        stripped_as(img, out, color),
    ensures
        !is_framed(img),
        *out == *img,
        color == spec_white(),
{
    let c = img.px(0, 0);
    if img.width > 1 {
        assert(on_edge(img, 1, 0));
        assert(img.px(1, 0) != c);
        assert(!strip_uniform(img, c, BorderDir::Top, 0));
        assert(frame_width(img, BorderDir::Top) == 0);
    } else {
        assert(on_edge(img, 0, 1));
        assert(img.px(0, 1) != c);
        assert(!strip_uniform(img, c, BorderDir::Left, 0));
        assert(frame_width(img, BorderDir::Left) == 0);
    }
}

/// On an image of one color, each strip from `k` on is uniform, so the scan
/// runs to the opposite edge.
proof fn lemma_uniform_scan(img: &Image, c: Color, dir: BorderDir, k: int)
    requires
        img.wf(),
        forall|x: int, y: int| img.contains(x, y) ==> #[trigger] img.px(x, y) == c,
        0 <= k <= extent(img, dir),
    ensures
        border_from(img, c, dir, k) == extent(img, dir),
    decreases extent(img, dir) - k,
{
    if k < extent(img, dir) {
        match dir {
            BorderDir::Left => assert forall|y: int| 0 <= y < img.height implies #[trigger] img.px(k, y) == c by {
                assert(img.contains(k, y));
            }
            BorderDir::Top => assert forall|x: int| 0 <= x < img.width implies #[trigger] img.px(x, k) == c by {
                assert(img.contains(x, k));
            }
            BorderDir::Right => assert forall|y: int| 0 <= y < img.height implies #[trigger] img.px(img.width - 1 - k, y) == c by {
                assert(img.contains(img.width - 1 - k, y));
            }
            BorderDir::Bottom => assert forall|x: int| 0 <= x < img.width implies #[trigger] img.px(x, img.height - 1 - k) == c by {
                assert(img.contains(x, img.height - 1 - k));
            }
        }
        assert(strip_uniform(img, c, dir, k));
        lemma_uniform_scan(img, c, dir, k + 1);
    }
}

/// On an image of one color every measurement is the full number of strips
/// from that edge: the width for columns, the height for rows.
pub proof fn lemma_uniform_border_width(img: &Image, c: Color, dir: BorderDir)
    requires
        img.wf(),
        forall|x: int, y: int| img.contains(x, y) ==> #[trigger] img.px(x, y) == c,
    ensures
        border_width(img, c, dir) == extent(img, dir),
{
    lemma_uniform_scan(img, c, dir, 0);
}

/// Removing the frame of an image of one color leaves an empty interior and
/// gives that color: the whole image is frame.
pub proof fn lemma_uniform_strips_to_empty(img: &Image, out: &Image, color: Color)
    requires
        img.wf(),
        img.width >= 1,
        img.height >= 1,
        forall|x: int, y: int| img.contains(x, y) ==> #[trigger] img.px(x, y) == img.px(0, 0),
        stripped_as(img, out, color),
    ensures
        is_framed(img),
        color == img.px(0, 0),
        out.width == 0,
        out.height == 0,
{
    let c = img.px(0, 0);
    lemma_uniform_border_width(img, c, BorderDir::Left);
    lemma_uniform_border_width(img, c, BorderDir::Top);
    lemma_uniform_border_width(img, c, BorderDir::Right);
    lemma_uniform_border_width(img, c, BorderDir::Bottom);
}

/// The interior that removing a frame leaves fits inside the image: the
/// cuts and the interior add up to the width and to the height.
pub proof fn lemma_strip_in_range(img: &Image, out: &Image, color: Color)
    requires
        img.wf(),
        img.width >= 1,
        img.height >= 1,
        stripped_as(img, out, color),
    ensures
        out.wf(),
        out.width <= img.width,
        out.height <= img.height,
        is_framed(img) ==> frame_width(img, BorderDir::Left) + out.width + right_cut(img) == img.width,
        is_framed(img) ==> frame_width(img, BorderDir::Top) + out.height + bottom_cut(img) == img.height,
{
    let c = img.px(0, 0);
    lemma_border_width_bounds(img, c, BorderDir::Left);
    lemma_border_width_bounds(img, c, BorderDir::Top);
    lemma_border_width_bounds(img, c, BorderDir::Right);
    lemma_border_width_bounds(img, c, BorderDir::Bottom);
}

/// Padding by zero pixels gives an image with the same dimensions and the
/// same pixels as its input.
pub proof fn lemma_pad_zero_is_copy(img: &Image, color: Color, out: &Image)
    requires
        img.wf(),
        padded_as(img, color, 0, out),
    ensures
        out.same_as(img),
{
}

/// Padding by zero pixels the interior that removing a frame leaves, with the
/// color that it gives, reproduces that interior exactly.
pub proof fn lemma_strip_then_pad_zero(img: &Image, inner: &Image, color: Color, out: &Image)
    requires
        img.wf(),
        img.width >= 1,
        img.height >= 1,
        stripped_as(img, inner, color),
        padded_as(inner, color, 0, out),
    ensures
        out.same_as(inner),
{
    lemma_strip_in_range(img, inner, color);
    lemma_pad_zero_is_copy(inner, color, out);
}

/// After padding by `p` pixels, every pixel of the band of width `p` around
/// the output is the padding color, and every pixel inside it is the source
/// pixel that it was copied from.
pub proof fn lemma_pad_content(img: &Image, color: Color, p: nat, out: &Image)
    requires
        img.wf(),
        padded_as(img, color, p as int, out),
    ensures
        forall|x: int, y: int|
            out.contains(x, y) && (x < p || y < p || x >= p + img.width || y >= p + img.height)
                ==> #[trigger] out.px(x, y) == color,
        forall|x: int, y: int| img.contains(x, y) ==> #[trigger] out.px(x + p, y + p) == img.px(x, y),
{
    assert forall|x: int, y: int| img.contains(x, y) implies #[trigger] out.px(x + p, y + p) == img.px(x, y) by {
        assert(out.contains(x + p, y + p));
    }
}

} // verus!
