//! What holds of the framebuffer and of the transactions, whatever the input.
use crate::bus::{be_bytes, flush_trace, init_sequence, Signal};
use crate::color::{high_byte, low_byte, word_of};
use crate::config::{Orientation, PixelColor};
use crate::geometry::{byte_offset, cleared, pixel_written};
use crate::instruction::Instruction;
use vstd::prelude::*;

verus! {

/// The number of pixel slots from one row of the buffer to the next: the
/// panel's width in the landscape orientations, its height in the portrait
/// orientations.
pub open spec fn stride(orientation: Orientation, width: int, height: int) -> int {
    if orientation.spec_is_landscape() {
        width
    } else {
        height
    }
}

/// Whether `(x, y)` lies on the picture as the orientation turns it: `width`
/// by `height` in the landscape orientations, `height` by `width` in the
/// portrait orientations.
pub open spec fn on_picture(orientation: Orientation, width: int, height: int, x: int, y: int) -> bool {
    if orientation.spec_is_landscape() {
        0 <= x < width && 0 <= y < height
    } else {
        0 <= x < height && 0 <= y < width
    }
}

/// The two bytes of a colour word make up the word again.
pub proof fn lemma_word_of_bytes(bits: u16)
    ensures
        word_of(high_byte(bits), low_byte(bits)) == bits,
{
}

/// Setting a pixel that has a place in the buffer puts the high byte of the
/// colour at the pixel's offset and the low byte behind it, and changes no
/// other byte.
pub proof fn lemma_set_pixel_writes_two_bytes(
    buffer: Seq<u8>,
    orientation: Orientation,
    width: int,
    height: int,
    x: int,
    y: int,
    bits: u16,
    offset: int,
)
    requires
        0 <= width,
        0 <= height,
        0 <= x,
        0 <= y,
        byte_offset(orientation, width, height, buffer.len() as int, x, y) == Some(offset),
    ensures
        0 <= offset,
        offset + 1 < buffer.len(),
        offset == 2 * (y * stride(orientation, width, height) + x),
        pixel_written(buffer, orientation, width, height, x, y, bits).len() == buffer.len(),
        pixel_written(buffer, orientation, width, height, x, y, bits)[offset] == high_byte(bits),
        pixel_written(buffer, orientation, width, height, x, y, bits)[offset + 1] == low_byte(
            bits,
        ),
        forall|j: int|
            0 <= j < buffer.len() && j != offset && j != offset + 1 ==> pixel_written(
                buffer,
                orientation,
                width,
                height,
                x,
                y,
                bits,
            )[j] == buffer[j],
{
    let s = stride(orientation, width, height);
    assert(0 <= y * s) by (nonlinear_arith)
        requires
            0 <= y,
            0 <= s,
    ;
}

/// A pixel on the picture always has its place in a buffer of the right
/// size: at twice its row-major index.
pub proof fn lemma_pixel_on_picture_has_place(
    orientation: Orientation,
    width: int,
    height: int,
    x: int,
    y: int,
)
    requires
        0 <= width,
        0 <= height,
        on_picture(orientation, width, height, x, y),
    ensures
        byte_offset(orientation, width, height, width * height * 2, x, y) == Some(
            2 * (y * stride(orientation, width, height) + x),
        ),
{
    if orientation.spec_is_landscape() {
        assert(y * width + x < width * height) by (nonlinear_arith)
            requires
                0 <= x < width,
                0 <= y < height,
        ;
    } else {
        assert(y * height + x < width * height) by (nonlinear_arith)
            requires
                0 <= x < height,
                0 <= y < width,
        ;
    }
}

/// A pixel within the panel's declared `width` and `height` has its place in
/// a buffer of the right size in the landscape orientations, and in the
/// portrait orientations where the panel is at least as wide as it is high.
pub proof fn lemma_pixel_on_panel_has_place(
    orientation: Orientation,
    width: int,
    height: int,
    x: int,
    y: int,
)
    requires
        0 <= x < width,
        0 <= y < height,
        orientation.spec_is_landscape() || height <= width,
    ensures
        byte_offset(orientation, width, height, width * height * 2, x, y) == Some(
            2 * (y * stride(orientation, width, height) + x),
        ),
{
    if orientation.spec_is_landscape() {
        assert(y * width + x < width * height) by (nonlinear_arith)
            requires
                0 <= x < width,
                0 <= y < height,
        ;
    } else {
        assert(y * height + x < width * height) by (nonlinear_arith)
            requires
                0 <= x < width,
                0 <= y < height,
                height <= width,
        ;
    }
}

/// A pixel at or beyond the orientation's bound leaves the buffer as it is:
/// `x >= width` in the landscape orientations, `y >= width` in the portrait
/// orientations.
pub proof fn lemma_pixel_beyond_bound_is_dropped(
    buffer: Seq<u8>,
    orientation: Orientation,
    width: int,
    height: int,
    x: int,
    y: int,
    bits: u16,
)
    requires
        if orientation.spec_is_landscape() {
            x >= width
        } else {
            y >= width
        },
    ensures
        pixel_written(buffer, orientation, width, height, x, y, bits) == buffer,
{
}

/// A pixel whose two bytes do not both lie inside the buffer leaves the
/// buffer as it is.
pub proof fn lemma_pixel_outside_buffer_is_dropped(
    buffer: Seq<u8>,
    orientation: Orientation,
    width: int,
    height: int,
    x: int,
    y: int,
    bits: u16,
)
    requires
        2 * (y * stride(orientation, width, height) + x) + 1 >= buffer.len(),
    ensures
        pixel_written(buffer, orientation, width, height, x, y, bits) == buffer,
{
}

/// After a clear every pixel slot of the panel reads back the colour: slot
/// `p` holds the high byte at `2 * p` and the low byte behind it.
pub proof fn lemma_clear_fills_every_slot(width: int, height: int, bits: u16)
    requires
        0 <= width,
        0 <= height,
    ensures
        cleared((width * height * 2) as nat, bits).len() == width * height * 2,
        forall|p: int|
            0 <= p < width * height ==> {
                &&& (#[trigger] cleared((width * height * 2) as nat, bits)[2 * p]) == high_byte(
                    bits,
                )
                &&& cleared((width * height * 2) as nat, bits)[2 * p + 1] == low_byte(bits)
                &&& word_of(
                    cleared((width * height * 2) as nat, bits)[2 * p],
                    cleared((width * height * 2) as nat, bits)[2 * p + 1],
                ) == bits
            },
{
    assert(0 <= width * height) by (nonlinear_arith)
        requires
            0 <= width,
            0 <= height,
    ;
}

/// Set a pixel, clear the buffer with any colour, set the pixel again: its
/// two bytes are what the first write made them, and every other byte is
/// what the clear made it.
pub proof fn lemma_set_clear_set_round_trip(
    buffer: Seq<u8>,
    orientation: Orientation,
    width: int,
    height: int,
    x: int,
    y: int,
    bits: u16,
    clear_bits: u16,
)
    requires
        0 <= width,
        0 <= height,
        0 <= x,
        0 <= y,
    ensures
        ({
            let first = pixel_written(buffer, orientation, width, height, x, y, bits);
            let blank = cleared(first.len(), clear_bits);
            let again = pixel_written(blank, orientation, width, height, x, y, bits);
            &&& again.len() == buffer.len()
            &&& match byte_offset(orientation, width, height, buffer.len() as int, x, y) {
                Some(offset) => {
                    &&& again[offset] == first[offset]
                    &&& again[offset + 1] == first[offset + 1]
                    &&& forall|j: int|
                        0 <= j < buffer.len() && j != offset && j != offset + 1 ==> again[j]
                            == blank[j]
                },
                None => again == blank,
            }
        }),
{
    let s = stride(orientation, width, height);
    assert(0 <= y * s) by (nonlinear_arith)
        requires
            0 <= y,
            0 <= s,
    ;
}

/// A flush is, signal by signal: column address set with the two columns,
/// row address set with the two rows, memory write, and the whole buffer as
/// one data write.
pub proof fn lemma_flush_signals(dx: u16, dy: u16, width: u16, height: u16, data: Seq<u8>)
    requires
        width >= 1,
        height >= 1,
        width - 1 + dx <= u16::MAX,
        height - 1 + dy <= u16::MAX,
    ensures
        flush_trace(dx, dy, width, height, data) == seq![
            Signal::DcLow,
            Signal::Write(seq![0x2Au8]),
            Signal::DcHigh,
            Signal::Write(
                seq![
                    high_byte(dx),
                    low_byte(dx),
                    high_byte((width - 1 + dx) as u16),
                    low_byte((width - 1 + dx) as u16),
                ],
            ),
            Signal::DcLow,
            Signal::Write(seq![0x2Bu8]),
            Signal::DcHigh,
            Signal::Write(
                seq![
                    high_byte(dy),
                    low_byte(dy),
                    high_byte((height - 1 + dy) as u16),
                    low_byte((height - 1 + dy) as u16),
                ],
            ),
            Signal::DcLow,
            Signal::Write(seq![0x2Cu8]),
            Signal::DcHigh,
            Signal::Write(data),
        ],
{
    let columns = seq![
        high_byte(dx),
        low_byte(dx),
        high_byte((width - 1 + dx) as u16),
        low_byte((width - 1 + dx) as u16),
    ];
    let rows = seq![
        high_byte(dy),
        low_byte(dy),
        high_byte((height - 1 + dy) as u16),
        low_byte((height - 1 + dy) as u16),
    ];
    let ex = (width - 1) as u16;
    let ey = (height - 1) as u16;
    assert(be_bytes((0u16 + dx) as u16) + be_bytes((ex + dx) as u16) =~= columns);
    assert(be_bytes((0u16 + dy) as u16) + be_bytes((ey + dy) as u16) =~= rows);
    assert(flush_trace(dx, dy, width, height, data) =~= seq![
        Signal::DcLow,
        Signal::Write(seq![0x2Au8]),
        Signal::DcHigh,
        Signal::Write(columns),
        Signal::DcLow,
        Signal::Write(seq![0x2Bu8]),
        Signal::DcHigh,
        Signal::Write(rows),
        Signal::DcLow,
        Signal::Write(seq![0x2Cu8]),
        Signal::DcHigh,
        Signal::Write(data),
    ]);
}

/// Initialisation issues sixteen instructions after the reset pulse. The
/// thirteenth turns inversion on or off as `inverted` says, the fourteenth
/// carries the channel order, and only the software reset, the wake-up and
/// the switch-on are followed by a delay, of 200 ms each.
pub proof fn lemma_init_sequence_shape(rgb: PixelColor, inverted: bool)
    ensures
        init_sequence(rgb, inverted).len() == 16,
        init_sequence(rgb, inverted)[12].0 == if inverted {
            Instruction::INVON
        } else {
            Instruction::INVOFF
        },
        init_sequence(rgb, inverted)[13] == (Instruction::MADCTL, seq![rgb.spec_bits()], 0u32),
        forall|i: int|
            0 <= i < 16 ==> (#[trigger] init_sequence(rgb, inverted)[i]).2 == if i == 0 || i == 1
                || i == 15 {
                200u32
            } else {
                0u32
            },
        forall|i: int| 0 <= i < 16 ==> (#[trigger] init_sequence(rgb, inverted)[i]).1.len() <= 8,
{
}

} // verus!
