//! Pixel data of one update, and where it goes on the panel.

use vstd::prelude::*;
use crate::geom::{Point, Rectangle};
use crate::vnc::Rect;

verus! {

/// A colour of the panel.
#[derive(Clone, Copy, Debug, PartialEq, Eq, Structural)]
pub enum Color {
    Gray(u8),
    Rgb(u8, u8, u8),
}

impl Color {
    /// The red, green and blue levels of the colour; a gray has all three at
    /// its gray level.
    pub open spec fn spec_rgb(&self) -> Seq<u8> {
        match self {
            Color::Gray(level) => seq![*level, *level, *level],
            Color::Rgb(red, green, blue) => seq![*red, *green, *blue],
        }
    }

    /// The red, green and blue levels of the colour.
    pub fn rgb(&self) -> (levels: [u8; 3])
        ensures
            levels@ == self.spec_rgb(),
    {
        let levels = match self {
            Color::Gray(level) => [*level, *level, *level],
            Color::Rgb(red, green, blue) => [*red, *green, *blue],
        };
        assert(levels@ =~= self.spec_rgb());
        levels
    }
}

/// White.
pub open spec fn spec_white() -> Color {
    Color::Gray(255)
}

/// Red, the colour that marks a pixel asked for outside the data.
pub open spec fn spec_red() -> Color {
    Color::Rgb(255, 0, 0)
}

/// White.
pub fn white() -> (c: Color)
    ensures
        c == spec_white(),
{
    Color::Gray(255)
}

/// Red, the colour that marks a pixel asked for outside the data.
pub fn red() -> (c: Color)
    ensures
        c == spec_red(),
{
    Color::Rgb(255, 0, 0)
}

/// Pixel data that is only read: `width` by `height` pixels, row by row,
/// `samples` bytes each.
#[derive(Debug, Clone, Copy)]
pub struct ReadonlyPixmap<'a> {
    pub width: u32,
    pub height: u32,
    pub samples: usize,
    pub data: &'a Vec<u8>,
}

/// Where on the panel the top left corner of a pixmap goes.
pub struct MapDelta {
    pub left: u32,
    pub top: u32,
}

/// One pixel to set on the panel.
#[derive(Clone, Copy, Debug, PartialEq, Eq, Structural)]
pub struct PixelWrite {
    pub x: u32,
    pub y: u32,
    pub color: Color,
}

/// Position in the data of the first byte of the pixel at `(x, y)`, in rows
/// of `width` pixels with `samples` bytes each.
pub open spec fn pixel_addr(width: u32, samples: usize, x: u32, y: u32) -> int {
    samples * (y * width + x)
}

/// The colour of the pixel at `(x, y)` in `data`.
///
/// Without data every pixel is white. With one byte per pixel the byte is a
/// gray level. Else the first three bytes of the pixel are blue, green and
/// red, and a pixel needs four bytes in the data. A pixel outside the data is
/// red.
pub open spec fn pixel_at(data: Seq<u8>, width: u32, samples: usize, x: u32, y: u32) -> Color {
    let addr = pixel_addr(width, samples, x, y);
    if data.len() == 0 {
        spec_white()
    } else if samples == 1 {
        if addr < data.len() {
            Color::Gray(data[addr])
        } else {
            spec_red()
        }
    } else {
        if addr + 4 <= data.len() {
            Color::Rgb(data[addr + 2], data[addr + 1], data[addr])
        } else {
            spec_red()
        }
    }
}

/// Position in the list of writes of the pixel at column `x` of row `y`, in a
/// pixmap of the given width.
pub open spec fn write_index(width: int, x: int, y: int) -> int {
    y * width + x
}

/// `writes` puts the pixmap of `width` by `height` pixels in `data` on the
/// panel with its top left corner at `(left, top)`: one write for each pixel,
/// row by row from the top, each row from the left.
pub open spec fn is_pixel_writes(
    writes: Seq<PixelWrite>,
    data: Seq<u8>,
    width: u32,
    height: u32,
    samples: usize,
    left: u32,
    top: u32,
) -> bool {
    &&& writes.len() == width * height
    &&& forall|x: u32, y: u32|
        x < width && y < height ==> 0 <= write_index(width as int, x as int, y as int)
            < writes.len() && writes[#[trigger] write_index(width as int, x as int, y as int)] == (
        PixelWrite {
            x: (x + left) as u32,
            y: (y + top) as u32,
            color: pixel_at(data, width, samples, x, y),
        })
}

impl<'a> ReadonlyPixmap<'a> {
    /// The colour of the pixel at `(x, y)`.
    pub open spec fn spec_get_pixel(&self, x: u32, y: u32) -> Color {
        pixel_at(self.data@, self.width, self.samples, x, y)
    }

    /// The write that puts the pixel at `(x, y)` on the panel, the pixmap's
    /// top left corner being at `delta`.
    pub open spec fn spec_write(&self, delta: &MapDelta, x: u32, y: u32) -> PixelWrite {
        PixelWrite {
            x: (x + delta.left) as u32,
            y: (y + delta.top) as u32,
            color: self.spec_get_pixel(x, y),
        }
    }

    /// Every pixel of the pixmap has a position on the panel when the
    /// pixmap's top left corner is at `delta`.
    pub open spec fn fits_at(&self, delta: &MapDelta) -> bool {
        self.width > 0 && self.height > 0 ==> delta.left + self.width <= u32::MAX + 1 && delta.top
            + self.height <= u32::MAX + 1
    }

    /// Reads the pixel at `(x, y)`.
    pub fn get_pixel(&self, x: u32, y: u32) -> (color: Color)
        ensures
            color == self.spec_get_pixel(x, y),
    {
        if self.data.len() == 0 {
            return white();
        }
        assert(y * self.width <= 0xffff_ffff * 0xffff_ffff) by (nonlinear_arith)
            requires
                0 <= y <= 0xffff_ffff,
                0 <= self.width <= 0xffff_ffff,
        ;
        let index: u128 = y as u128 * self.width as u128 + x as u128;
        assert(self.samples * index <= 0xffff_ffff_ffff_ffff * 0xffff_ffff_ffff_ffff)
            by (nonlinear_arith)
            requires
                0 <= self.samples <= 0xffff_ffff_ffff_ffff,
                0 <= index <= 0xffff_ffff_ffff_ffff,
        ;
        let addr: u128 = self.samples as u128 * index;
        let max: u128 = self.data.len() as u128;
        if self.samples == 1 {
            if addr >= max {
                return red();
            }
            Color::Gray(self.data[addr as usize])
        } else {
            if max < addr + 4 {
                return red();
            }
            let first: usize = addr as usize;
            Color::Rgb(self.data[first + 2], self.data[first + 1], self.data[first])
        }
    }
}

/// The pixel data of an update of the region `vnc_rect`, for a panel with
/// `color_samples` colour channels: one byte per pixel where the panel has
/// one channel, four otherwise.
pub fn to_map<'a>(vnc_rect: &'a Rect, pixels: &'a Vec<u8>, color_samples: usize) -> (pixmap:
    ReadonlyPixmap<'a>)
    ensures
        pixmap.width == vnc_rect.width,
        pixmap.height == vnc_rect.height,
        pixmap.samples == if color_samples == 1 { 1usize } else { 4usize },
        pixmap.data == pixels,
{
    let colors: usize = if color_samples == 1 {
        1
    } else {
        4
    };
    ReadonlyPixmap {
        width: vnc_rect.width as u32,
        height: vnc_rect.height as u32,
        samples: colors,
        data: pixels,
    }
}

/// The region of the panel that an update of `vnc_rect` touches.
pub open spec fn spec_delta_rect(vnc_rect: Rect) -> Rectangle {
    Rectangle {
        min: Point { x: vnc_rect.left as i32, y: vnc_rect.top as i32 },
        max: Point {
            x: (vnc_rect.left + vnc_rect.width) as i32,
            y: (vnc_rect.top + vnc_rect.height) as i32,
        },
    }
}

/// The region of the panel that an update of `vnc_rect` touches.
pub fn to_delta_rect(vnc_rect: &Rect) -> (rect: Rectangle)
    ensures
        rect == spec_delta_rect(*vnc_rect),
        rect.wf(),
        rect.spec_width() == vnc_rect.width,
        rect.spec_height() == vnc_rect.height,
{
    let w: i32 = vnc_rect.width as i32;
    let h: i32 = vnc_rect.height as i32;
    let l: i32 = vnc_rect.left as i32;
    let t: i32 = vnc_rect.top as i32;
    Rectangle::new(l, t, l + w, t + h)
}

/// Where on the panel the top left corner of an update of `dst` goes.
pub fn to_delta_map(dst: &Rect) -> (delta: MapDelta)
    ensures
        delta.left == dst.left,
        delta.top == dst.top,
{
    MapDelta { left: dst.left as u32, top: dst.top as u32 }
}

/// Every position in the list of writes belongs to exactly one pixel: the
/// one in column `k % width` of row `k / width`.
pub proof fn lemma_write_index_covers(width: int, height: int, k: int)
    requires
        0 <= width,
        0 <= k < width * height,
    ensures
        0 <= k % width < width,
        0 <= k / width < height,
        write_index(width, k % width, k / width) == k,
        forall|x: int, y: int|
            0 <= x < width && 0 <= y < height && write_index(width, x, y) == k ==> x == k % width
                && y == k / width,
{
    assert(width > 0) by (nonlinear_arith)
        requires
            0 <= width,
            0 <= k < width * height,
    ;
    vstd::arithmetic::div_mod::lemma_fundamental_div_mod(k, width);
    vstd::arithmetic::div_mod::lemma_mod_bound(k, width);
    assert(width * (k / width) == (k / width) * width) by (nonlinear_arith);
    assert(0 <= k / width < height) by (nonlinear_arith)
        requires
            0 <= k < width * height,
            width > 0,
            k == width * (k / width) + k % width,
            0 <= k % width < width,
    ;
    assert forall|x: int, y: int|
        0 <= x < width && 0 <= y < height && write_index(width, x, y) == k implies x == k % width
            && y == k / width by {
        vstd::arithmetic::div_mod::lemma_fundamental_div_mod_converse(k, width, y, x);
    }
}

proof fn lemma_write_index(width: int, x: int, y: int, rows: int)
    requires
        0 <= x < width,
        0 <= y < rows,
    ensures
        0 <= write_index(width, x, y) < rows * width,
        write_index(width, 0, y + 1) == write_index(width, 0, y) + width,
        write_index(width, x, y) == write_index(width, 0, y) + x,
{
    assert(y * width + width == (y + 1) * width) by (nonlinear_arith);
    assert((y + 1) * width <= rows * width) by (nonlinear_arith)
        requires
            y + 1 <= rows,
            width >= 0,
    ;
    assert(0 <= y * width) by (nonlinear_arith)
        requires
            0 <= y,
            0 <= width,
    ;
}

/// The writes that put a pixmap on the panel with its top left corner at
/// `delta`: one for each pixel, row by row from the top, each row from the
/// left.
pub fn set_pixel_map_ro(delta: &MapDelta, pixmap: &ReadonlyPixmap) -> (writes: Vec<PixelWrite>)
    requires
        pixmap.fits_at(delta),
    ensures
        is_pixel_writes(
            writes@,
            pixmap.data@,
            pixmap.width,
            pixmap.height,
            pixmap.samples,
            delta.left,
            delta.top,
        ),
{
    let mut writes: Vec<PixelWrite> = Vec::new();
    let width = pixmap.width;
    let height = pixmap.height;
    let mut y: u32 = 0;
    while y < height
        invariant
            width == pixmap.width,
            height == pixmap.height,
            pixmap.fits_at(delta),
            y <= height,
            writes@.len() == write_index(width as int, 0, y as int),
            forall|px: u32, py: u32|
                px < width && py < y ==> 0 <= write_index(width as int, px as int, py as int)
                    < writes@.len() && writes@[#[trigger] write_index(
                    width as int,
                    px as int,
                    py as int,
                )] == pixmap.spec_write(delta, px, py),
        decreases height - y,
    {
        let mut x: u32 = 0;
        while x < width
            invariant
                width == pixmap.width,
                height == pixmap.height,
                pixmap.fits_at(delta),
                y < height,
                x <= width,
                writes@.len() == write_index(width as int, 0, y as int) + x,
                forall|px: u32, py: u32|
                    px < width && py < y ==> 0 <= write_index(
                        width as int,
                        px as int,
                        py as int,
                    ) < writes@.len() && writes@[#[trigger] write_index(
                        width as int,
                        px as int,
                        py as int,
                    )] == pixmap.spec_write(delta, px, py),
                forall|px: u32|
                    px < x ==> writes@[#[trigger] write_index(width as int, px as int, y as int)]
                        == pixmap.spec_write(delta, px, y),
            decreases width - x,
        {
            let px = x + delta.left;
            let py = y + delta.top;
            let color = pixmap.get_pixel(x, y);
            proof {
                lemma_write_index(width as int, x as int, y as int, height as int);
                assert forall|qx: u32| qx < x implies write_index(
                    width as int,
                    qx as int,
                    y as int,
                ) < writes@.len() by {
                    lemma_write_index(width as int, qx as int, y as int, height as int);
                }
            }
            writes.push(PixelWrite { x: px, y: py, color });
            x += 1;
        }
        proof {
            if width > 0 {
                lemma_write_index(width as int, 0, y as int, height as int);
            } else {
                assert(write_index(width as int, 0, y as int) == 0) by (nonlinear_arith)
                    requires
                        width == 0,
                ;
                assert(write_index(width as int, 0, y + 1) == 0) by (nonlinear_arith)
                    requires
                        width == 0,
                ;
            }
            assert forall|px: u32, py: u32| px < width && py < y + 1 implies 0 <= write_index(
                width as int,
                px as int,
                py as int,
            ) < writes@.len() && writes@[#[trigger] write_index(
                width as int,
                px as int,
                py as int,
            )] == pixmap.spec_write(delta, px, py) by {
                lemma_write_index(width as int, px as int, py as int, y + 1);
            }
        }
        y += 1;
    }
    proof {
        assert(write_index(width as int, 0, height as int) == width * height) by (nonlinear_arith);
    }
    writes
}

} // verus!
