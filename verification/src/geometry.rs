//! From pixel coordinates to places in the framebuffer.
//!
//! A framebuffer holds two bytes per pixel, high byte first. One rule maps a
//! coordinate to its place, and every buffer owner in this crate uses it:
//!
//! * in the landscape orientations a pixel is dropped when `x >= width`;
//!   otherwise its index is `y * width + x`;
//! * in the portrait orientations a pixel is dropped when `y >= width`;
//!   otherwise its index is `y * height + x`.
//!
//! `width` and `height` are the panel's dimensions as declared, whatever the
//! orientation. A pixel whose two bytes would not both lie inside the buffer is
//! dropped as well. Dropping is silent: it is no error.
use crate::color::{color_bytes, high_byte, low_byte};
use crate::config::Orientation;
use vstd::prelude::*;

verus! {

/// The index of the pixel slot for `(x, y)`, or `None` where the orientation's
/// bound rejects the coordinate.
pub open spec fn pixel_index(
    orientation: Orientation,
    width: int,
    height: int,
    x: int,
    y: int,
) -> Option<int> {
    if orientation.spec_is_landscape() {
        if x >= width {
            None
        } else {
            Some(y * width + x)
        }
    } else {
        if y >= width {
            None
        } else {
            Some(y * height + x)
        }
    }
}

/// The offset of the first of the two bytes of pixel `(x, y)` in a buffer of
/// `len` bytes, or `None` where the pixel is dropped.
pub open spec fn byte_offset(
    orientation: Orientation,
    width: int,
    height: int,
    len: int,
    x: int,
    y: int,
) -> Option<int> {
    match pixel_index(orientation, width, height, x, y) {
        Some(index) => if 2 * index + 1 < len {
            Some(2 * index)
        } else {
            None
        },
        None => None,
    }
}

/// The buffer after pixel `(x, y)` has been set to the colour word `bits`.
pub open spec fn pixel_written(
    buffer: Seq<u8>,
    orientation: Orientation,
    width: int,
    height: int,
    x: int,
    y: int,
    bits: u16,
) -> Seq<u8> {
    match byte_offset(orientation, width, height, buffer.len() as int, x, y) {
        Some(offset) => buffer.update(offset, high_byte(bits)).update(offset + 1, low_byte(bits)),
        None => buffer,
    }
}

/// A buffer of `len` bytes in which every pixel slot holds the colour word `bits`.
pub open spec fn cleared(len: nat, bits: u16) -> Seq<u8> {
    Seq::new(
        len,
        |i: int|
            if i % 2 == 0 {
                high_byte(bits)
            } else {
                low_byte(bits)
            },
    )
}

/// Computes where in a buffer of `len` bytes the pixel `(x, y)` lives.
pub fn pixel_offset(
    orientation: Orientation,
    width: u32,
    height: u32,
    len: usize,
    x: u16,
    y: u16,
) -> (offset: Option<usize>)
    ensures
        offset matches Some(k) ==> byte_offset(
            orientation,
            width as int,
            height as int,
            len as int,
            x as int,
            y as int,
        ) == Some(k as int),
        offset is None ==> byte_offset(
            orientation,
            width as int,
            height as int,
            len as int,
            x as int,
            y as int,
        ) is None,
{
    let stride: u64 = if orientation.is_landscape() {
        if x as u32 >= width {
            return None;
        }
        width as u64
    } else {
        if y as u32 >= width {
            return None;
        }
        height as u64
    };
    assert(y * stride <= 0xffff * 0xffff_ffff) by (nonlinear_arith)
        requires
            y <= 0xffff,
            stride <= 0xffff_ffff,
    ;
    let first: u64 = (y as u64 * stride + x as u64) * 2;
    if first + 1 < len as u64 {
        Some(first as usize)
    } else {
        None
    }
}

/// Sets pixel `(x, y)` of `buffer` to the colour word `bits`, high byte first.
/// A pixel that the orientation's bound rejects, or that does not lie inside
/// the buffer, changes nothing.
pub fn write_pixel(
    buffer: &mut [u8],
    orientation: Orientation,
    width: u32,
    height: u32,
    x: u16,
    y: u16,
    bits: u16,
)
    ensures
        final(buffer)@ == pixel_written(
            old(buffer)@,
            orientation,
            width as int,
            height as int,
            x as int,
            y as int,
            bits,
        ),
{
    let (high, low) = color_bytes(bits);
    match pixel_offset(orientation, width, height, buffer.len(), x, y) {
        Some(offset) => {
            buffer[offset] = high;
            buffer[offset + 1] = low;
        },
        None => {},
    }
}

/// Fills `buffer` with the colour word `bits`: every even offset gets the high
/// byte, every odd offset the low byte.
pub fn fill(buffer: &mut [u8], bits: u16)
    ensures
        final(buffer)@ == cleared(old(buffer)@.len(), bits),
{
    let (high, low) = color_bytes(bits);
    let len: usize = buffer.len();
    let mut i: usize = 0;
    while i < len
        invariant
            i <= len,
            len == buffer@.len(),
            len == old(buffer)@.len(),
            high == high_byte(bits),
            low == low_byte(bits),
            forall|j: int| 0 <= j < i ==> buffer@[j] == cleared(len as nat, bits)[j],
        decreases len - i,
    {
        buffer[i] = if i % 2 == 0 {
            high
        } else {
            low
        };
        i += 1;
    }
    assert(buffer@ =~= cleared(len as nat, bits));
}

} // verus!
