//! Drawing lists of coloured points onto a framebuffer.
use crate::color::{raw_bits, rgb565_bits};
use crate::config::Orientation;
use crate::geometry::{pixel_written, write_pixel};
use embedded_graphics_core::geometry::{Point, Size};
use embedded_graphics_core::pixelcolor::Rgb565;
use embedded_graphics_core::primitives::Rectangle;
use vstd::prelude::*;

verus! {

/// A point with its colour.
#[derive(Clone, Copy, Debug)]
pub struct Pixel {
    pub x: i32,
    pub y: i32,
    pub color: Rgb565,
}

/// Whether `(x, y)` lies in the box that has its corner at the origin and is
/// `width` wide and `height` high.
pub open spec fn in_bounding_box(width: int, height: int, x: int, y: int) -> bool {
    0 <= x < width && 0 <= y < height
}

/// Calls `Rectangle::contains` on the rectangle with its top left corner at
/// the origin and the given size. A point is inside when neither coordinate
/// is negative and both are below the size on their axis; an empty rectangle
/// contains nothing. Sizes beyond `i32::MAX` are left out: the rectangle's
/// corner arithmetic is not defined for them.
#[verifier::external_body]
pub(crate) fn bounding_box_contains(width: u32, height: u32, x: i32, y: i32) -> (inside: bool)
    requires
        width <= i32::MAX,
        height <= i32::MAX,
    ensures
        inside == in_bounding_box(width as int, height as int, x as int, y as int),
{
    Rectangle::new(Point::zero(), Size::new(width, height)).contains(Point::new(x, y))
}

/// The buffer after one point has been drawn: a point outside the bounding
/// box is skipped, any other is set like a pixel. Pixel coordinates have 16
/// bits, so a coordinate of 65536 or more counts modulo 65536.
pub open spec fn pixel_drawn(
    buffer: Seq<u8>,
    orientation: Orientation,
    width: int,
    height: int,
    pixel: Pixel,
) -> Seq<u8> {
    if in_bounding_box(width, height, pixel.x as int, pixel.y as int) {
        pixel_written(
            buffer,
            orientation,
            width,
            height,
            pixel.x as int % 0x1_0000,
            pixel.y as int % 0x1_0000,
            rgb565_bits(pixel.color),
        )
    } else {
        buffer
    }
}

/// The buffer after a list of points has been drawn, first to last.
pub open spec fn drawn(
    buffer: Seq<u8>,
    orientation: Orientation,
    width: int,
    height: int,
    pixels: Seq<Pixel>,
) -> Seq<u8>
    decreases pixels.len(),
{
    if pixels.len() == 0 {
        buffer
    } else {
        pixel_drawn(
            drawn(buffer, orientation, width, height, pixels.drop_last()),
            orientation,
            width,
            height,
            pixels.last(),
        )
    }
}

/// Draws one point onto `buffer`.
pub fn draw_pixel(
    buffer: &mut [u8],
    orientation: Orientation,
    width: u32,
    height: u32,
    pixel: Pixel,
)
    requires
        width <= i32::MAX,
        height <= i32::MAX,
    ensures
        final(buffer)@ == pixel_drawn(
            old(buffer)@,
            orientation,
            width as int,
            height as int,
            pixel,
        ),
{
    if bounding_box_contains(width, height, pixel.x, pixel.y) {
        let px: i32 = pixel.x;
        let py: i32 = pixel.y;
        let x: u16 = #[verifier::truncate] (px as u16);
        let y: u16 = #[verifier::truncate] (py as u16);
        assert(x == px as int % 0x1_0000 && y == py as int % 0x1_0000) by (bit_vector)
            requires
                px >= 0,
                py >= 0,
                x == px as u16,
                y == py as u16,
        ;
        write_pixel(buffer, orientation, width, height, x, y, raw_bits(pixel.color));
    }
}

/// Draws a list of points onto `buffer`, first to last.
pub fn draw_pixels(
    buffer: &mut [u8],
    orientation: Orientation,
    width: u32,
    height: u32,
    pixels: &[Pixel],
)
    requires
        width <= i32::MAX,
        height <= i32::MAX,
    ensures
        final(buffer)@ == drawn(
            old(buffer)@,
            orientation,
            width as int,
            height as int,
            pixels@,
        ),
{
    let mut i: usize = 0;
    while i < pixels.len()
        invariant
            i <= pixels@.len(),
            width <= i32::MAX,
            height <= i32::MAX,
            buffer@ == drawn(
                old(buffer)@,
                orientation,
                width as int,
                height as int,
                pixels@.take(i as int),
            ),
        decreases pixels@.len() - i,
    {
        proof {
            let next = pixels@.take(i + 1);
            assert(next.drop_last() =~= pixels@.take(i as int));
            assert(next.last() == pixels@[i as int]);
        }
        draw_pixel(buffer, orientation, width, height, pixels[i]);
        i += 1;
    }
    assert(pixels@.take(i as int) =~= pixels@);
}

} // verus!
