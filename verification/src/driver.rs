//! The driver: what it remembers of the panel, and the transactions it issues.
use crate::bus::{
    address_window_trace, be_bytes, command_trace, command_views, emit, flush_trace, hard_reset,
    hard_reset_trace, init_commands, init_sequence, init_trace, sequence_trace, start_data, trace,
    write_command, write_data, BusOp, MAX_PARAMS,
};
use crate::color::{color_bytes, raw_bits, rgb565_bits};
use crate::config::{madctl_byte, Config, Orientation, PixelColor};
use crate::error::Error;
use crate::frame::Frame;
use crate::geometry::{cleared, fill, pixel_written, write_pixel};
use crate::instruction::Instruction;
use crate::surface::{draw_pixel, draw_pixels, drawn, pixel_drawn, Pixel};
use embedded_graphics_core::pixelcolor::Rgb565;
use vstd::prelude::*;
use vstd::slice::slice_to_vec;

verus! {

/// The number of buffer bytes that a panel of `width` by `height` pixels needs.
pub open spec fn spec_buffer_size(width: u16, height: u16) -> int {
    width * height * 2
}

/// The number of buffer bytes that a panel of `width` by `height` pixels
/// needs: two for each pixel.
pub fn buffer_size(width: u16, height: u16) -> (size: usize)
    requires
        spec_buffer_size(width, height) <= usize::MAX,
    ensures
        size == spec_buffer_size(width, height),
{
    assert(width * height <= 0xffff * 0xffff) by (nonlinear_arith)
        requires
            0 <= width <= 0xffff,
            0 <= height <= 0xffff,
    ;
    let pixels: u64 = width as u64 * height as u64;
    (pixels * 2) as usize
}

/// The low 16 bits of a dimension.
pub open spec fn low_word(value: u32) -> u16 {
    (value % 0x1_0000) as u16
}

/// What the driver remembers of the panel.
pub struct DriverState {
    /// Channel order of the panel.
    pub rgb: PixelColor,
    /// Whether the colours are inverted.
    pub inverted: bool,
    /// Columns by which every address window is shifted.
    pub dx: u16,
    /// Rows by which every address window is shifted.
    pub dy: u16,
    /// The orientation last set.
    pub orientation: Orientation,
}

/// The interface to the controller: its settings, the offset of the picture
/// and the orientation. Its operations yield the transactions to perform.
#[derive(Clone, Copy, Debug)]
pub struct ST7735IF {
    rgb: PixelColor,
    inverted: bool,
    dx: u16,
    dy: u16,
    orientation: Orientation,
}

impl View for ST7735IF {
    type V = DriverState;

    closed spec fn view(&self) -> DriverState {
        DriverState {
            rgb: self.rgb,
            inverted: self.inverted,
            dx: self.dx,
            dy: self.dy,
            orientation: self.orientation,
        }
    }
}

impl ST7735IF {
    /// An interface with the settings of `config` and no offset.
    pub fn new(config: Config) -> (iface: Self)
        ensures
            iface@ == (DriverState {
                rgb: config.rgb,
                inverted: config.inverted,
                dx: 0,
                dy: 0,
                orientation: config.orientation,
            }),
    {
        ST7735IF {
            rgb: config.rgb,
            inverted: config.inverted,
            orientation: config.orientation,
            dx: 0,
            dy: 0,
        }
    }

    /// The orientation last set.
    pub fn orientation(&self) -> (orientation: Orientation)
        ensures
            orientation == self@.orientation,
    {
        self.orientation
    }

    /// The offset of the picture, columns first.
    pub fn offset(&self) -> (offset: (u16, u16))
        ensures
            offset == (self@.dx, self@.dy),
    {
        (self.dx, self.dy)
    }

    /// The transaction that initialises the panel: the reset pulse, the fixed
    /// sequence of instructions with their settle delays, and the configured
    /// orientation. The driver's state stays as it is.
    pub fn init(&self) -> (ops: Vec<BusOp>)
        ensures
            trace(ops@) == init_trace(self@.rgb, self@.inverted, self@.orientation),
    {
        let mut ops: Vec<BusOp> = Vec::new();
        assert(trace(ops@) =~= Seq::empty());
        hard_reset(&mut ops);
        let commands = init_commands(self.rgb, self.inverted);
        let ghost table = init_sequence(self.rgb, self.inverted);
        let mut i: usize = 0;
        while i < commands.len()
            invariant
                i <= commands@.len(),
                forall|j: int|
                    0 <= j < commands@.len() ==> (#[trigger] commands@[j]).params@.len()
                        <= MAX_PARAMS,
                command_views(commands@) == table,
                table == init_sequence(self.rgb, self.inverted),
                trace(ops@) == hard_reset_trace() + sequence_trace(table.take(i as int)),
            decreases commands@.len() - i,
        {
            proof {
                let next = table.take(i + 1);
                assert(next.drop_last() =~= table.take(i as int));
                assert(next.last() == commands@[i as int]@);
            }
            commands[i].emit(&mut ops);
            i += 1;
            assert(trace(ops@) =~= hard_reset_trace() + sequence_trace(table.take(i as int)));
        }
        assert(table.take(i as int) =~= table);
        let madctl: [u8; 1] = [self.orientation.bits() | self.rgb.bits()];
        assert(madctl@ =~= seq![madctl_byte(self.orientation, self.rgb)]);
        write_command(&mut ops, Instruction::MADCTL, madctl.as_slice());
        ops
    }

    /// The transaction that resets the controller by its reset line.
    pub fn hard_reset(&self) -> (ops: Vec<BusOp>)
        ensures
            trace(ops@) == hard_reset_trace(),
    {
        let mut ops: Vec<BusOp> = Vec::new();
        assert(trace(ops@) =~= Seq::empty());
        hard_reset(&mut ops);
        assert(trace(ops@) =~= hard_reset_trace());
        ops
    }

    /// The transaction that tells the controller to rotate the picture: the
    /// memory access control instruction with the rotation flags and the
    /// channel order. The driver's state stays as it is until
    /// `set_orientation` records the outcome.
    pub fn orientation_command(&self, orientation: Orientation) -> (ops: Vec<BusOp>)
        ensures
            trace(ops@) == command_trace(
                Instruction::MADCTL,
                seq![madctl_byte(orientation, self@.rgb)],
            ),
    {
        let mut ops: Vec<BusOp> = Vec::new();
        assert(trace(ops@) =~= Seq::empty());
        let madctl: [u8; 1] = [orientation.bits() | self.rgb.bits()];
        assert(madctl@ =~= seq![madctl_byte(orientation, self.rgb)]);
        write_command(&mut ops, Instruction::MADCTL, madctl.as_slice());
        assert(trace(ops@) =~= command_trace(
            Instruction::MADCTL,
            seq![madctl_byte(orientation, self@.rgb)],
        ));
        ops
    }

    /// Records how the transaction of `orientation_command` went. When it
    /// went through, `orientation` becomes the driver's orientation and later
    /// pixels are mapped by it; when it failed, the driver keeps its
    /// orientation. The outcome is handed back as it came.
    pub fn set_orientation<E>(&mut self, orientation: Orientation, sent: Result<(), Error<E>>) -> (result:
        Result<(), Error<E>>)
        ensures
            result == sent,
            sent is Ok ==> final(self)@ == (DriverState { orientation, ..old(self)@ }),
            sent is Err ==> final(self)@ == old(self)@,
    {
        if sent.is_ok() {
            self.orientation = orientation;
        }
        sent
    }

    /// Sets the offset by which every address window is shifted. Nothing is
    /// sent to the controller.
    pub fn set_offset(&mut self, dx: u16, dy: u16)
        ensures
            final(self)@ == (DriverState { dx, dy, ..old(self)@ }),
    {
        self.dx = dx;
        self.dy = dy;
    }

    /// The transaction that opens the address window from `(sx, sy)` to
    /// `(ex, ey)`, shifted by the offset. The shifted corners must fit in 16
    /// bits.
    pub fn set_address_window(&self, sx: u16, sy: u16, ex: u16, ey: u16) -> (ops: Vec<BusOp>)
        requires
            sx + self@.dx <= u16::MAX,
            ex + self@.dx <= u16::MAX,
            sy + self@.dy <= u16::MAX,
            ey + self@.dy <= u16::MAX,
        ensures
            trace(ops@) == address_window_trace(self@.dx, self@.dy, sx, sy, ex, ey),
    {
        let mut ops: Vec<BusOp> = Vec::new();
        assert(trace(ops@) =~= Seq::empty());
        self.push_address_window(&mut ops, sx, sy, ex, ey);
        assert(trace(ops@) =~= address_window_trace(self@.dx, self@.dy, sx, sy, ex, ey));
        ops
    }

    /// The transaction that sends a frame to the panel: the window over the
    /// frame's dimensions, the memory write instruction, and the frame's
    /// buffer in one piece. Window corners have 16 bits, so a dimension of
    /// 65536 or more counts modulo 65536.
    pub fn flush_frame<const N: usize>(&self, frame: &Frame<N>) -> (ops: Vec<BusOp>)
        requires
            low_word(frame@.width) >= 1,
            low_word(frame@.height) >= 1,
            low_word(frame@.width) - 1 + self@.dx <= u16::MAX,
            low_word(frame@.height) - 1 + self@.dy <= u16::MAX,
        ensures
            trace(ops@) == flush_trace(
                self@.dx,
                self@.dy,
                low_word(frame@.width),
                low_word(frame@.height),
                frame@.buffer,
            ),
    {
        let full_width: u32 = frame.width();
        let full_height: u32 = frame.height();
        let width: u16 = #[verifier::truncate] (full_width as u16);
        let height: u16 = #[verifier::truncate] (full_height as u16);
        assert(width == full_width % 0x1_0000 && height == full_height % 0x1_0000)
            by (bit_vector)
            requires
                width == full_width as u16,
                height == full_height as u16,
        ;
        let mut ops: Vec<BusOp> = Vec::new();
        assert(trace(ops@) =~= Seq::empty());
        self.push_frame(&mut ops, width, height, frame.buffer().as_slice());
        assert(trace(ops@) =~= flush_trace(
            self@.dx,
            self@.dy,
            low_word(frame@.width),
            low_word(frame@.height),
            frame@.buffer,
        ));
        ops
    }

    /// Appends the two instructions of an address window to a transaction.
    fn push_address_window(&self, ops: &mut Vec<BusOp>, sx: u16, sy: u16, ex: u16, ey: u16)
        requires
            sx + self@.dx <= u16::MAX,
            ex + self@.dx <= u16::MAX,
            sy + self@.dy <= u16::MAX,
            ey + self@.dy <= u16::MAX,
        ensures
            trace(final(ops)@) == trace(old(ops)@) + address_window_trace(
                self@.dx,
                self@.dy,
                sx,
                sy,
                ex,
                ey,
            ),
    {
        let none: [u8; 0] = [];
        write_command(ops, Instruction::CASET, none.as_slice());
        start_data(ops);
        let (sx_high, sx_low) = color_bytes(sx + self.dx);
        let (ex_high, ex_low) = color_bytes(ex + self.dx);
        let columns: [u8; 4] = [sx_high, sx_low, ex_high, ex_low];
        assert(columns@ =~= be_bytes((sx + self@.dx) as u16) + be_bytes((ex + self@.dx) as u16));
        write_data(ops, columns.as_slice());
        write_command(ops, Instruction::RASET, none.as_slice());
        start_data(ops);
        let (sy_high, sy_low) = color_bytes(sy + self.dy);
        let (ey_high, ey_low) = color_bytes(ey + self.dy);
        let rows: [u8; 4] = [sy_high, sy_low, ey_high, ey_low];
        assert(rows@ =~= be_bytes((sy + self@.dy) as u16) + be_bytes((ey + self@.dy) as u16));
        write_data(ops, rows.as_slice());
        assert(trace(ops@) =~= trace(old(ops)@) + address_window_trace(
            self@.dx,
            self@.dy,
            sx,
            sy,
            ex,
            ey,
        ));
    }

    /// Appends a whole frame to a transaction: the window over the full
    /// panel, the memory write instruction, and `data` in one piece.
    fn push_frame(&self, ops: &mut Vec<BusOp>, width: u16, height: u16, data: &[u8])
        requires
            width >= 1,
            height >= 1,
            width - 1 + self@.dx <= u16::MAX,
            height - 1 + self@.dy <= u16::MAX,
        ensures
            trace(final(ops)@) == trace(old(ops)@) + flush_trace(
                self@.dx,
                self@.dy,
                width,
                height,
                data@,
            ),
    {
        let none: [u8; 0] = [];
        self.push_address_window(ops, 0, 0, width - 1, height - 1);
        write_command(ops, Instruction::RAMWR, none.as_slice());
        start_data(ops);
        emit(ops, BusOp::Write(slice_to_vec(data)));
        assert(trace(ops@) =~= trace(old(ops)@) + flush_trace(
            self@.dx,
            self@.dy,
            width,
            height,
            data@,
        ));
    }
}

/// The mathematical model of a display: the driver's state and the bytes of
/// its framebuffer.
pub struct PanelState {
    pub driver: DriverState,
    pub buffer: Seq<u8>,
}

/// A panel of `WIDTH` by `HEIGHT` pixels with its framebuffer of `N` bytes.
/// A display exists only where `N` is `WIDTH * HEIGHT * 2`.
#[derive(Debug)]
pub struct ST7735<const WIDTH: u16, const HEIGHT: u16, const N: usize> {
    iface: ST7735IF,
    buffer: [u8; N],
}

impl<const WIDTH: u16, const HEIGHT: u16, const N: usize> View for ST7735<WIDTH, HEIGHT, N> {
    type V = PanelState;

    closed spec fn view(&self) -> PanelState {
        PanelState { driver: self.iface@, buffer: self.buffer@ }
    }
}

impl<const WIDTH: u16, const HEIGHT: u16, const N: usize> ST7735<WIDTH, HEIGHT, N> {
    /// The buffer has exactly two bytes for each pixel of the panel.
    pub open spec fn wf(&self) -> bool {
        N == spec_buffer_size(WIDTH, HEIGHT)
    }

    /// Makes a display with a blank framebuffer, if `N` is the size that the
    /// panel's dimensions ask for; any other `N` is refused.
    pub fn new(config: Config) -> (display: Option<Self>)
        ensures
            display is Some <==> N == spec_buffer_size(WIDTH, HEIGHT),
            display matches Some(d) ==> d.wf() && d@ == (PanelState {
                driver: DriverState {
                    rgb: config.rgb,
                    inverted: config.inverted,
                    dx: 0,
                    dy: 0,
                    orientation: config.orientation,
                },
                buffer: Seq::new(N as nat, |i: int| 0u8),
            }),
    {
        assert(WIDTH * HEIGHT <= 0xffff * 0xffff) by (nonlinear_arith)
            requires
                0 <= WIDTH <= 0xffff,
                0 <= HEIGHT <= 0xffff,
        ;
        let bytes: u64 = WIDTH as u64 * HEIGHT as u64 * 2;
        if N as u128 == bytes as u128 {
            let display = ST7735 { iface: ST7735IF::new(config), buffer: [0u8; N] };
            assert(display.buffer@ =~= Seq::new(N as nat, |i: int| 0u8));
            Some(display)
        } else {
            None
        }
    }

    /// A display holds a buffer of the size its panel needs, and that size is
    /// the length of its buffer.
    pub proof fn lemma_buffer_len(&self)
        ensures
            self@.buffer.len() == N,
            self.wf() <==> self@.buffer.len() == spec_buffer_size(WIDTH, HEIGHT),
    {
    }

    /// The bytes of the framebuffer, two per pixel, high byte first.
    pub fn buffer(&self) -> (buffer: &[u8; N])
        ensures
            buffer@ == self@.buffer,
    {
        &self.buffer
    }

    /// The orientation by which pixels are mapped into the buffer.
    pub fn orientation(&self) -> (orientation: Orientation)
        ensures
            orientation == self@.driver.orientation,
    {
        self.iface.orientation()
    }

    /// The offset of the picture, columns first.
    pub fn offset(&self) -> (offset: (u16, u16))
        ensures
            offset == (self@.driver.dx, self@.driver.dy),
    {
        self.iface.offset()
    }

    /// The transaction that initialises the panel.
    pub fn init(&self) -> (ops: Vec<BusOp>)
        ensures
            trace(ops@) == init_trace(
                self@.driver.rgb,
                self@.driver.inverted,
                self@.driver.orientation,
            ),
    {
        self.iface.init()
    }

    /// The transaction that sends the framebuffer to the panel: column
    /// address set and row address set over the full panel, memory write, and
    /// the whole buffer as one data write.
    pub fn flush(&self) -> (ops: Vec<BusOp>)
        requires
            WIDTH >= 1,
            HEIGHT >= 1,
            WIDTH - 1 + self@.driver.dx <= u16::MAX,
            HEIGHT - 1 + self@.driver.dy <= u16::MAX,
        ensures
            trace(ops@) == flush_trace(
                self@.driver.dx,
                self@.driver.dy,
                WIDTH,
                HEIGHT,
                self@.buffer,
            ),
    {
        let mut ops: Vec<BusOp> = Vec::new();
        assert(trace(ops@) =~= Seq::empty());
        self.iface.push_frame(&mut ops, WIDTH, HEIGHT, self.buffer.as_slice());
        assert(trace(ops@) =~= flush_trace(
            self@.driver.dx,
            self@.driver.dy,
            WIDTH,
            HEIGHT,
            self@.buffer,
        ));
        ops
    }

    /// The transaction that sends `buf` to the panel in place of the
    /// display's own buffer, with the same window and instruction.
    pub fn flush_buffer(&self, buf: &[u8]) -> (ops: Vec<BusOp>)
        requires
            WIDTH >= 1,
            HEIGHT >= 1,
            WIDTH - 1 + self@.driver.dx <= u16::MAX,
            HEIGHT - 1 + self@.driver.dy <= u16::MAX,
        ensures
            trace(ops@) == flush_trace(self@.driver.dx, self@.driver.dy, WIDTH, HEIGHT, buf@),
    {
        let mut ops: Vec<BusOp> = Vec::new();
        assert(trace(ops@) =~= Seq::empty());
        self.iface.push_frame(&mut ops, WIDTH, HEIGHT, buf);
        assert(trace(ops@) =~= flush_trace(
            self@.driver.dx,
            self@.driver.dy,
            WIDTH,
            HEIGHT,
            buf@,
        ));
        ops
    }

    /// Sets the pixel at `(x, y)` to the colour word `color`, high byte
    /// first. A pixel that the orientation's bound rejects, or that does not
    /// lie inside the buffer, is dropped and the display stays as it is.
    pub fn set_pixel(&mut self, x: u16, y: u16, color: u16)
        ensures
            final(self)@ == (PanelState {
                buffer: pixel_written(
                    old(self)@.buffer,
                    old(self)@.driver.orientation,
                    WIDTH as int,
                    HEIGHT as int,
                    x as int,
                    y as int,
                    color,
                ),
                ..old(self)@
            }),
    {
        write_pixel(
            &mut self.buffer,
            self.iface.orientation(),
            WIDTH as u32,
            HEIGHT as u32,
            x,
            y,
            color,
        );
    }

    /// Sets the offset by which every address window is shifted.
    pub fn set_offset(&mut self, dx: u16, dy: u16)
        ensures
            final(self)@ == (PanelState {
                driver: DriverState { dx, dy, ..old(self)@.driver },
                ..old(self)@
            }),
    {
        self.iface.set_offset(dx, dy);
    }

    /// Draws one point: skipped when outside the box from the origin to
    /// `(WIDTH, HEIGHT)`, set like a pixel otherwise.
    pub fn draw_pixel(&mut self, pixel: Pixel)
        ensures
            final(self)@ == (PanelState {
                buffer: pixel_drawn(
                    old(self)@.buffer,
                    old(self)@.driver.orientation,
                    WIDTH as int,
                    HEIGHT as int,
                    pixel,
                ),
                ..old(self)@
            }),
    {
        draw_pixel(
            &mut self.buffer,
            self.iface.orientation(),
            WIDTH as u32,
            HEIGHT as u32,
            pixel,
        );
    }

    /// Draws a list of points, first to last. Points outside the box from the
    /// origin to `(WIDTH, HEIGHT)` are skipped. Never fails.
    pub fn draw_iter(&mut self, pixels: &[Pixel]) -> (result: Result<(), ()>)
        ensures
            result is Ok,
            final(self)@ == (PanelState {
                buffer: drawn(
                    old(self)@.buffer,
                    old(self)@.driver.orientation,
                    WIDTH as int,
                    HEIGHT as int,
                    pixels@,
                ),
                ..old(self)@
            }),
    {
        draw_pixels(
            &mut self.buffer,
            self.iface.orientation(),
            WIDTH as u32,
            HEIGHT as u32,
            pixels,
        );
        Ok(())
    }

    /// Fills every pixel slot with the colour word `bits`.
    pub fn clear_raw(&mut self, bits: u16)
        ensures
            final(self)@ == (PanelState { buffer: cleared(N as nat, bits), ..old(self)@ }),
    {
        fill(&mut self.buffer, bits);
    }

    /// Fills every pixel slot with `color`. Never fails.
    pub fn clear(&mut self, color: Rgb565) -> (result: Result<(), ()>)
        ensures
            result is Ok,
            final(self)@ == (PanelState {
                buffer: cleared(N as nat, rgb565_bits(color)),
                ..old(self)@
            }),
    {
        self.clear_raw(raw_bits(color));
        Ok(())
    }

    /// The panel's dimensions, width first.
    pub fn size(&self) -> (size: (u32, u32))
        ensures
            size == (WIDTH as u32, HEIGHT as u32),
    {
        (WIDTH as u32, HEIGHT as u32)
    }
}

} // verus!
