//! A framebuffer of its own, for composing a picture away from the panel.
use crate::color::{raw_bits, rgb565_bits};
use crate::config::Orientation;
use crate::geometry::{cleared, fill, pixel_written, write_pixel};
use crate::surface::{draw_pixel, draw_pixels, drawn, pixel_drawn, Pixel};
use embedded_graphics_core::pixelcolor::Rgb565;
use vstd::prelude::*;

verus! {

/// A drawable surface of `width` by `height` pixels over a buffer of `N`
/// bytes, two bytes per pixel.
#[derive(Debug)]
pub struct Frame<const N: usize> {
    width: u32,
    height: u32,
    orientation: Orientation,
    buffer: [u8; N],
}

/// The mathematical model of a frame.
pub struct FrameState {
    pub width: u32,
    pub height: u32,
    pub orientation: Orientation,
    pub buffer: Seq<u8>,
}

impl FrameState {
    /// The buffer has exactly two bytes for each pixel.
    pub open spec fn wf(self) -> bool {
        self.buffer.len() == self.width * self.height * 2
    }
}

impl<const N: usize> View for Frame<N> {
    type V = FrameState;

    closed spec fn view(&self) -> FrameState {
        FrameState {
            width: self.width,
            height: self.height,
            orientation: self.orientation,
            buffer: self.buffer@,
        }
    }
}

impl<const N: usize> Frame<N> {
    /// Makes a frame over `buffer`, if the buffer is of the size that the
    /// dimensions ask for: `width * height * 2` bytes.
    pub fn new(width: u32, height: u32, orientation: Orientation, buffer: [u8; N]) -> (frame:
        Option<Self>)
        ensures
            frame is Some <==> N == width * height * 2,
            frame matches Some(f) ==> f@ == (FrameState {
                width,
                height,
                orientation,
                buffer: buffer@,
            }) && f@.wf(),
    {
        assert(width * height <= 0xffff_ffff * 0xffff_ffff) by (nonlinear_arith)
            requires
                0 <= width <= 0xffff_ffff,
                0 <= height <= 0xffff_ffff,
        ;
        let pixels: u64 = width as u64 * height as u64;
        let bytes: u128 = pixels as u128 * 2;
        if N as u128 == bytes {
            Some(Frame { width, height, orientation, buffer })
        } else {
            None
        }
    }

    /// The declared width in pixels.
    pub fn width(&self) -> (width: u32)
        ensures
            width == self@.width,
    {
        self.width
    }

    /// The declared height in pixels.
    pub fn height(&self) -> (height: u32)
        ensures
            height == self@.height,
    {
        self.height
    }

    /// The orientation by which coordinates are mapped into the buffer.
    pub fn orientation(&self) -> (orientation: Orientation)
        ensures
            orientation == self@.orientation,
    {
        self.orientation
    }

    /// The bytes of the frame, two per pixel, high byte first.
    pub fn buffer(&self) -> (buffer: &[u8; N])
        ensures
            buffer@ == self@.buffer,
    {
        &self.buffer
    }

    /// The buffer's length is fixed by the type.
    pub proof fn lemma_buffer_len(&self)
        ensures
            self@.buffer.len() == N,
    {
    }

    /// Sets the pixel at `(x, y)` to the colour word `bits`, high byte first.
    /// A pixel that the orientation's bound rejects, or that does not lie
    /// inside the buffer, is dropped and the frame stays as it is.
    pub fn set_pixel_raw(&mut self, x: u16, y: u16, bits: u16)
        ensures
            final(self)@ == (FrameState {
                buffer: pixel_written(
                    old(self)@.buffer,
                    old(self)@.orientation,
                    old(self)@.width as int,
                    old(self)@.height as int,
                    x as int,
                    y as int,
                    bits,
                ),
                ..old(self)@
            }),
    {
        write_pixel(&mut self.buffer, self.orientation, self.width, self.height, x, y, bits);
    }

    /// Sets the pixel at `(x, y)` to `color`: `set_pixel_raw` with the
    /// colour's 16-bit word.
    pub fn set_pixel(&mut self, x: u16, y: u16, color: Rgb565)
        ensures
            final(self)@ == (FrameState {
                buffer: pixel_written(
                    old(self)@.buffer,
                    old(self)@.orientation,
                    old(self)@.width as int,
                    old(self)@.height as int,
                    x as int,
                    y as int,
                    rgb565_bits(color),
                ),
                ..old(self)@
            }),
    {
        self.set_pixel_raw(x, y, raw_bits(color));
    }

    /// Fills every pixel slot with the colour word `bits`.
    pub fn clear_raw(&mut self, bits: u16)
        ensures
            final(self)@ == (FrameState { buffer: cleared(N as nat, bits), ..old(self)@ }),
    {
        fill(&mut self.buffer, bits);
    }

    /// Fills every pixel slot with `color`. Never fails.
    pub fn clear(&mut self, color: Rgb565) -> (result: Result<(), ()>)
        ensures
            result is Ok,
            final(self)@ == (FrameState {
                buffer: cleared(N as nat, rgb565_bits(color)),
                ..old(self)@
            }),
    {
        self.clear_raw(raw_bits(color));
        Ok(())
    }

    /// Draws one point: skipped when outside the box from the origin to
    /// `(width, height)`, set like a pixel otherwise.
    pub fn draw_pixel(&mut self, pixel: Pixel)
        requires
            old(self)@.width <= i32::MAX,
            old(self)@.height <= i32::MAX,
        ensures
            final(self)@ == (FrameState {
                buffer: pixel_drawn(
                    old(self)@.buffer,
                    old(self)@.orientation,
                    old(self)@.width as int,
                    old(self)@.height as int,
                    pixel,
                ),
                ..old(self)@
            }),
    {
        draw_pixel(&mut self.buffer, self.orientation, self.width, self.height, pixel);
    }

    /// Draws a list of points, first to last. Points outside the box from the
    /// origin to `(width, height)` are skipped. Never fails.
    pub fn draw_iter(&mut self, pixels: &[Pixel]) -> (result: Result<(), ()>)
        requires
            old(self)@.width <= i32::MAX,
            old(self)@.height <= i32::MAX,
        ensures
            result is Ok,
            final(self)@ == (FrameState {
                buffer: drawn(
                    old(self)@.buffer,
                    old(self)@.orientation,
                    old(self)@.width as int,
                    old(self)@.height as int,
                    pixels@,
                ),
                ..old(self)@
            }),
    {
        draw_pixels(&mut self.buffer, self.orientation, self.width, self.height, pixels);
        Ok(())
    }

    /// The declared dimensions, width first.
    pub fn size(&self) -> (size: (u32, u32))
        ensures
            size == (self@.width, self@.height),
    {
        (self.width, self.height)
    }
}

impl Default for Frame<40960> {
    /// A blank landscape frame of 160 by 128 pixels.
    fn default() -> (frame: Self)
        ensures
            frame@ == (FrameState {
                width: 160,
                height: 128,
                orientation: Orientation::Landscape,
                buffer: Seq::new(40960, |i: int| 0u8),
            }),
            frame@.wf(),
    {
        let frame = Frame {
            width: 160,
            height: 128,
            orientation: Orientation::Landscape,
            buffer: [0u8; 40960],
        };
        assert(frame.buffer@ =~= Seq::new(40960, |i: int| 0u8));
        frame
    }
}

} // verus!
