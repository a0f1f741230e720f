//! Colors and images: a rectangle of RGBA pixels stored row by row.
use vstd::prelude::*;

verus! {

/// An RGBA color with eight bits per channel. Two colors are equal exactly
/// when all four channels are.
#[derive(Clone, Copy, Debug, PartialEq, Eq, Structural)]
pub struct Color {
    pub r: u8,
    pub g: u8,
    pub b: u8,
    pub a: u8,
}

impl Color {
    /// Builds a color from its four channels.
    pub fn new(r: u8, g: u8, b: u8, a: u8) -> (c: Color)
        ensures
            c == (Color { r, g, b, a }),
    {
        Color { r, g, b, a }
    }
}

/// Opaque white: the padding color used when an image has no frame.
pub open spec fn spec_white() -> Color {
    Color { r: 255, g: 255, b: 255, a: 255 }
}

/// Opaque white: the padding color used when an image has no frame.
pub fn white() -> (c: Color)
    ensures
        c == spec_white(),
{
    Color { r: 255, g: 255, b: 255, a: 255 }
}

/// A rectangular raster of pixels, stored as `height` rows of `width`
/// pixels each. Pixel `(x, y)` is column `x` of row `y`.
#[derive(Clone, Debug, PartialEq, Eq)]
pub struct Image {
    pub width: u32,
    pub height: u32,
    pub rows: Vec<Vec<Color>>,
}

impl Image {
    /// The rows match the stated dimensions, so that every coordinate
    /// inside them addresses exactly one pixel.
    pub open spec fn wf(&self) -> bool {
        &&& self.rows@.len() == self.height as int
        &&& forall|y: int| 0 <= y < self.height ==> (#[trigger] self.rows@[y])@.len() == self.width as int
    }

    /// Whether `(x, y)` lies inside the image.
    pub open spec fn contains(&self, x: int, y: int) -> bool {
        0 <= x < self.width && 0 <= y < self.height
    }

    /// The pixel at column `x` of row `y`.
    pub open spec fn px(&self, x: int, y: int) -> Color {
        self.rows@[y]@[x]
    }

    /// Both images have the same dimensions and the same pixel everywhere.
    pub open spec fn same_as(&self, other: &Image) -> bool {
        &&& self.width == other.width
        &&& self.height == other.height
        &&& forall|x: int, y: int| self.contains(x, y) ==> #[trigger] self.px(x, y) == other.px(x, y)
    }

    /// An image of the given dimensions with every pixel set to `color`.
    pub fn filled(width: u32, height: u32, color: Color) -> (img: Image)
        ensures
            img.wf(),
            img.width == width,
            img.height == height,
            forall|x: int, y: int| img.contains(x, y) ==> #[trigger] img.px(x, y) == color,
    {
        let mut rows: Vec<Vec<Color>> = Vec::new();
        let mut y: u32 = 0;
        while y < height
            invariant
                y <= height,
                rows@.len() == y as int,
                forall|j: int| 0 <= j < y ==> (#[trigger] rows@[j])@.len() == width as int,
                forall|i: int, j: int|
                    0 <= j < y && 0 <= i < width ==> #[trigger] rows@[j]@[i] == color,
            decreases height - y,
        {
            let mut row: Vec<Color> = Vec::new();
            let mut x: u32 = 0;
            while x < width
                invariant
                    x <= width,
                    row@.len() == x as int,
                    forall|i: int| 0 <= i < x ==> #[trigger] row@[i] == color,
                decreases width - x,
            {
                row.push(color);
                x = x + 1;
            }
            rows.push(row);
            y = y + 1;
        }
        Image { width, height, rows }
    }

    /// The number of columns.
    pub fn width(&self) -> (w: u32)
        ensures
            w == self.width,
    {
        self.width
    }

    /// The number of rows.
    pub fn height(&self) -> (h: u32)
        ensures
            h == self.height,
    {
        self.height
    }

    /// The pixel at `(x, y)`.
    pub fn get_pixel(&self, x: u32, y: u32) -> (c: Color)
        requires
            self.wf(),
            self.contains(x as int, y as int),
        ensures
            c == self.px(x as int, y as int),
    {
        self.rows[y as usize][x as usize]
    }

    /// Sets the pixel at `(x, y)` to `c`, leaving every other pixel as it was.
    pub fn set_pixel(&mut self, x: u32, y: u32, c: Color)
        requires
            old(self).wf(),
            old(self).contains(x as int, y as int),
        ensures
            final(self).wf(),
            final(self).width == old(self).width,
            final(self).height == old(self).height,
            final(self).px(x as int, y as int) == c,
            forall|i: int, j: int|
                old(self).contains(i, j) && (i, j) != (x as int, y as int) ==> #[trigger] final(self).px(i, j)
                    == old(self).px(i, j),
    {
        self.rows[y as usize][x as usize] = c;
    }
    /// `self` is the part of `img` with top-left corner `(x0, y0)`, `w`
    /// columns wide and `h` rows high.
    pub open spec fn is_crop_of(&self, img: &Image, x0: int, y0: int, w: int, h: int) -> bool {
        &&& self.wf()
        &&& self.width == w
        &&& self.height == h
        &&& forall|x: int, y: int| self.contains(x, y) ==> #[trigger] self.px(x, y) == img.px(x0 + x, y0 + y)
    }

    /// A new image holding the part of `self` with top-left corner
    /// `(x0, y0)`, `w` columns wide and `h` rows high.
    pub fn crop(&self, x0: u32, y0: u32, w: u32, h: u32) -> (out: Image)
        requires
            self.wf(),
            x0 + w <= self.width,
            y0 + h <= self.height,
        ensures
            out.is_crop_of(self, x0 as int, y0 as int, w as int, h as int),
    {
        let mut rows: Vec<Vec<Color>> = Vec::new();
        let mut j: u32 = 0;
        while j < h
            invariant
                self.wf(),
                x0 + w <= self.width,
                y0 + h <= self.height,
                j <= h,
                rows@.len() == j as int,
                forall|y: int| 0 <= y < j ==> (#[trigger] rows@[y])@.len() == w as int,
                forall|x: int, y: int|
                    0 <= y < j && 0 <= x < w ==> #[trigger] rows@[y]@[x] == self.px(x0 + x, y0 + y),
            decreases h - j,
        {
            let src = &self.rows[(y0 + j) as usize];
            let mut row: Vec<Color> = Vec::new();
            let mut i: u32 = 0;
            while i < w
                invariant
                    self.wf(),
                    x0 + w <= self.width,
                    y0 + h <= self.height,
                    j < h,
                    i <= w,
                    *src == self.rows@[y0 + j],
                    row@.len() == i as int,
                    forall|x: int| 0 <= x < i ==> #[trigger] row@[x] == self.px(x0 + x, y0 + j),
                decreases w - i,
            {
                row.push(src[(x0 + i) as usize]);
                i = i + 1;
            }
            rows.push(row);
            j = j + 1;
        }
        Image { width: w, height: h, rows }
    }
}

} // verus!
