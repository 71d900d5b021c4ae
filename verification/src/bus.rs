//! Transactions on the bus.
//!
//! A transaction is a list of bus operations: the command/data line and the
//! reset line are driven, bytes are written to the transport, and settle
//! delays are waited out. The functions here build such lists; whoever owns
//! the hardware performs them in order and stops at the first failure.
use crate::color::{high_byte, low_byte};
use crate::config::{madctl_byte, Orientation, PixelColor};
use crate::error::Error;
use crate::instruction::Instruction;
use vstd::prelude::*;
use vstd::slice::slice_to_vec;

verus! {

/// The most parameter bytes that one instruction may carry.
pub const MAX_PARAMS: usize = 8;

/// One operation on the bus or on a control line.
#[derive(Debug, PartialEq, Eq)]
pub enum BusOp {
    /// Drive the command/data line low: what follows is an opcode.
    DcLow,
    /// Drive the command/data line high: what follows is data.
    DcHigh,
    /// Drive the reset line low.
    RstLow,
    /// Drive the reset line high.
    RstHigh,
    /// Write these bytes to the transport as one transaction.
    Write(Vec<u8>),
    /// Wait for this many milliseconds.
    DelayMs(u32),
}

/// The mathematical model of a bus operation.
pub enum Signal {
    DcLow,
    DcHigh,
    RstLow,
    RstHigh,
    Write(Seq<u8>),
    DelayMs(u32),
}

impl View for BusOp {
    type V = Signal;

    open spec fn view(&self) -> Signal {
        match *self {
            BusOp::DcLow => Signal::DcLow,
            BusOp::DcHigh => Signal::DcHigh,
            BusOp::RstLow => Signal::RstLow,
            BusOp::RstHigh => Signal::RstHigh,
            BusOp::Write(bytes) => Signal::Write(bytes@),
            BusOp::DelayMs(ms) => Signal::DelayMs(ms),
        }
    }
}

/// The signals that a list of bus operations puts on the wire, in order.
pub open spec fn trace(ops: Seq<BusOp>) -> Seq<Signal> {
    ops.map_values(|op: BusOp| op@)
}

/// One instruction with its parameter bytes and the delay that follows it.
#[derive(Debug, PartialEq, Eq)]
pub struct Command {
    pub instruction: Instruction,
    pub params: Vec<u8>,
    pub delay_time: u32,
}

impl View for Command {
    type V = (Instruction, Seq<u8>, u32);

    open spec fn view(&self) -> (Instruction, Seq<u8>, u32) {
        (self.instruction, self.params@, self.delay_time)
    }
}

/// The models of a list of commands.
pub open spec fn command_views(commands: Seq<Command>) -> Seq<(Instruction, Seq<u8>, u32)> {
    commands.map_values(|c: Command| c@)
}

/// An instruction on the wire: the opcode with the command/data line low,
/// then, if there are any, the parameters with the line high.
pub open spec fn command_trace(instruction: Instruction, params: Seq<u8>) -> Seq<Signal> {
    if params.len() == 0 {
        seq![Signal::DcLow, Signal::Write(seq![instruction.spec_opcode()])]
    } else {
        seq![
            Signal::DcLow,
            Signal::Write(seq![instruction.spec_opcode()]),
            Signal::DcHigh,
            Signal::Write(params),
        ]
    }
}

/// An instruction on the wire, followed by its settle delay where it has one.
pub open spec fn timed_command_trace(command: (Instruction, Seq<u8>, u32)) -> Seq<Signal> {
    if command.2 > 0 {
        command_trace(command.0, command.1).push(Signal::DelayMs(command.2))
    } else {
        command_trace(command.0, command.1)
    }
}

/// A list of instructions on the wire, one after the other.
pub open spec fn sequence_trace(commands: Seq<(Instruction, Seq<u8>, u32)>) -> Seq<Signal>
    decreases commands.len(),
{
    if commands.len() == 0 {
        Seq::empty()
    } else {
        sequence_trace(commands.drop_last()) + timed_command_trace(commands.last())
    }
}

/// A data transfer on the wire: the command/data line goes high, then the
/// bytes are written in one piece.
pub open spec fn data_trace(data: Seq<u8>) -> Seq<Signal> {
    seq![Signal::DcHigh, Signal::Write(data)]
}

/// The reset pulse: high, 10 ms, low, 10 ms, high.
pub open spec fn hard_reset_trace() -> Seq<Signal> {
    seq![
        Signal::RstHigh,
        Signal::DelayMs(10),
        Signal::RstLow,
        Signal::DelayMs(10),
        Signal::RstHigh,
    ]
}

/// The instructions that bring the panel up, in the order in which the
/// controller's power sequencing needs them, each with its parameters and its
/// settle delay in milliseconds.
pub open spec fn init_sequence(rgb: PixelColor, inverted: bool) -> Seq<
    (Instruction, Seq<u8>, u32),
> {
    seq![
        (Instruction::SWRESET, seq![], 200u32),
        (Instruction::SLPOUT, seq![], 200u32),
        (Instruction::FRMCTR1, seq![0x01u8, 0x2Cu8, 0x2Du8], 0u32),
        (Instruction::FRMCTR2, seq![0x01u8, 0x2Cu8, 0x2Du8], 0u32),
        (Instruction::FRMCTR3, seq![0x01u8, 0x2Cu8, 0x2Du8, 0x01u8, 0x2Cu8, 0x2Du8], 0u32),
        (Instruction::INVCTR, seq![0x07u8], 0u32),
        (Instruction::PWCTR1, seq![0xA2u8, 0x02u8, 0x84u8], 0u32),
        (Instruction::PWCTR2, seq![0xC5u8], 0u32),
        (Instruction::PWCTR3, seq![0x0Au8, 0x00u8], 0u32),
        (Instruction::PWCTR4, seq![0x8Au8, 0x2Au8], 0u32),
        (Instruction::PWCTR5, seq![0x8Au8, 0xEEu8], 0u32),
        (Instruction::VMCTR1, seq![0x0Eu8], 0u32),
        (
            if inverted {
                Instruction::INVON
            } else {
                Instruction::INVOFF
            },
            seq![],
            0u32,
        ),
        (Instruction::MADCTL, seq![rgb.spec_bits()], 0u32),
        (Instruction::COLMOD, seq![0x05u8], 0u32),
        (Instruction::DISPON, seq![], 200u32),
    ]
}

/// Everything that initialisation puts on the wire: the reset pulse, the
/// instructions of `init_sequence`, and last the memory access control
/// instruction that sets the orientation.
pub open spec fn init_trace(rgb: PixelColor, inverted: bool, orientation: Orientation) -> Seq<
    Signal,
> {
    hard_reset_trace() + sequence_trace(init_sequence(rgb, inverted)) + command_trace(
        Instruction::MADCTL,
        seq![madctl_byte(orientation, rgb)],
    )
}

/// A 16-bit value as two bytes, most significant first.
pub open spec fn be_bytes(value: u16) -> Seq<u8> {
    seq![high_byte(value), low_byte(value)]
}

/// The pair of instructions that opens the window from `(sx, sy)` to
/// `(ex, ey)`, both corners included and shifted by `(dx, dy)`: column address
/// set with the two columns, then row address set with the two rows.
pub open spec fn address_window_trace(
    dx: u16,
    dy: u16,
    sx: u16,
    sy: u16,
    ex: u16,
    ey: u16,
) -> Seq<Signal> {
    command_trace(Instruction::CASET, seq![]) + data_trace(
        be_bytes((sx + dx) as u16) + be_bytes((ex + dx) as u16),
    ) + command_trace(Instruction::RASET, seq![]) + data_trace(
        be_bytes((sy + dy) as u16) + be_bytes((ey + dy) as u16),
    )
}

/// A whole frame on the wire: the window over the full panel of `width` by
/// `height` pixels, the memory write instruction, and `data` in one piece.
pub open spec fn flush_trace(dx: u16, dy: u16, width: u16, height: u16, data: Seq<u8>) -> Seq<
    Signal,
> {
    address_window_trace(dx, dy, 0, 0, (width - 1) as u16, (height - 1) as u16) + command_trace(
        Instruction::RAMWR,
        seq![],
    ) + data_trace(data)
}

/// The trace of a list grows by one signal with each operation pushed.
pub proof fn lemma_trace_push(ops: Seq<BusOp>, op: BusOp)
    ensures
        trace(ops.push(op)) == trace(ops).push(op@),
{
    assert(trace(ops.push(op)) =~= trace(ops).push(op@));
}

/// Appends one operation to a transaction.
pub(crate) fn emit(ops: &mut Vec<BusOp>, op: BusOp)
    ensures
        trace(final(ops)@) == trace(old(ops)@).push(op@),
{
    proof {
        lemma_trace_push(ops@, op);
    }
    ops.push(op);
}

impl Command {
    /// A command made of its three parts.
    pub fn new(instruction: Instruction, params: Vec<u8>, delay_time: u32) -> (command: Self)
        ensures
            command@ == (instruction, params@, delay_time),
    {
        Command { instruction, params, delay_time }
    }

    /// Appends the command to a transaction: the instruction, then its settle
    /// delay if that is not zero.
    pub fn emit(&self, ops: &mut Vec<BusOp>)
        requires
            self.params@.len() <= MAX_PARAMS,
        ensures
            trace(final(ops)@) == trace(old(ops)@) + timed_command_trace(self@),
    {
        write_command(ops, self.instruction, self.params.as_slice());
        if self.delay_time > 0 {
            emit(ops, BusOp::DelayMs(self.delay_time));
        }
        assert(trace(ops@) =~= trace(old(ops)@) + timed_command_trace(self@));
    }
}

/// Appends one instruction to a transaction: the command/data line goes low
/// and the opcode byte is written; if there are parameters, the line goes high
/// and they are written in one piece.
pub fn write_command(ops: &mut Vec<BusOp>, instruction: Instruction, params: &[u8])
    requires
        params@.len() <= MAX_PARAMS,
    ensures
        trace(final(ops)@) == trace(old(ops)@) + command_trace(instruction, params@),
{
    emit(ops, BusOp::DcLow);
    let mut opcode: Vec<u8> = Vec::new();
    opcode.push(instruction.opcode());
    assert(opcode@ =~= seq![instruction.spec_opcode()]);
    emit(ops, BusOp::Write(opcode));
    if params.len() > 0 {
        emit(ops, BusOp::DcHigh);
        emit(ops, BusOp::Write(slice_to_vec(params)));
    }
    assert(trace(ops@) =~= trace(old(ops)@) + command_trace(instruction, params@));
}

/// Appends the switch to data mode: the command/data line goes high.
pub fn start_data(ops: &mut Vec<BusOp>)
    ensures
        trace(final(ops)@) == trace(old(ops)@).push(Signal::DcHigh),
{
    emit(ops, BusOp::DcHigh);
}

/// Appends one write of up to `MAX_PARAMS` data bytes.
pub fn write_data(ops: &mut Vec<BusOp>, data: &[u8])
    requires
        data@.len() <= MAX_PARAMS,
    ensures
        trace(final(ops)@) == trace(old(ops)@).push(Signal::Write(data@)),
{
    emit(ops, BusOp::Write(slice_to_vec(data)));
}

/// Appends the reset pulse, which puts the controller into its power-on state.
pub fn hard_reset(ops: &mut Vec<BusOp>)
    ensures
        trace(final(ops)@) == trace(old(ops)@) + hard_reset_trace(),
{
    emit(ops, BusOp::RstHigh);
    emit(ops, BusOp::DelayMs(10));
    emit(ops, BusOp::RstLow);
    emit(ops, BusOp::DelayMs(10));
    emit(ops, BusOp::RstHigh);
    assert(trace(ops@) =~= trace(old(ops)@) + hard_reset_trace());
}

/// The table of instructions that bring the panel up.
pub fn init_commands(rgb: PixelColor, inverted: bool) -> (commands: Vec<Command>)
    ensures
        command_views(commands@) == init_sequence(rgb, inverted),
        forall|i: int|
            0 <= i < commands@.len() ==> (#[trigger] commands@[i]).params@.len() <= MAX_PARAMS,
{
    let inversion = if inverted {
        Instruction::INVON
    } else {
        Instruction::INVOFF
    };
    let commands = vec![
        Command::new(Instruction::SWRESET, vec![], 200),
        Command::new(Instruction::SLPOUT, vec![], 200),
        Command::new(Instruction::FRMCTR1, vec![0x01, 0x2C, 0x2D], 0),
        Command::new(Instruction::FRMCTR2, vec![0x01, 0x2C, 0x2D], 0),
        Command::new(Instruction::FRMCTR3, vec![0x01, 0x2C, 0x2D, 0x01, 0x2C, 0x2D], 0),
        Command::new(Instruction::INVCTR, vec![0x07], 0),
        Command::new(Instruction::PWCTR1, vec![0xA2, 0x02, 0x84], 0),
        Command::new(Instruction::PWCTR2, vec![0xC5], 0),
        Command::new(Instruction::PWCTR3, vec![0x0A, 0x00], 0),
        Command::new(Instruction::PWCTR4, vec![0x8A, 0x2A], 0),
        Command::new(Instruction::PWCTR5, vec![0x8A, 0xEE], 0),
        Command::new(Instruction::VMCTR1, vec![0x0E], 0),
        Command::new(inversion, vec![], 0),
        Command::new(Instruction::MADCTL, vec![rgb.bits()], 0),
        Command::new(Instruction::COLMOD, vec![0x05], 0),
        Command::new(Instruction::DISPON, vec![], 200),
    ];
    assert(command_views(commands@) =~~= init_sequence(rgb, inverted));
    commands
}

/// Where the playing of a transaction starts: at its first operation, if it
/// has one.
pub fn first_step(ops: &[BusOp]) -> (step: Option<usize>)
    ensures
        step == if ops@.len() > 0 {
            Some(0usize)
        } else {
            None
        },
{
    if ops.len() > 0 {
        Some(0)
    } else {
        None
    }
}

/// Where the playing of a transaction goes on after operation `at` has come
/// back with `outcome`. A failure ends the transaction at once and is handed
/// on as it is: nothing is tried again and no later operation is performed.
/// After a success the next operation follows, until none is left.
pub fn next_step<E>(ops: &[BusOp], at: usize, outcome: Result<(), Error<E>>) -> (step: Result<
    Option<usize>,
    Error<E>,
>)
    requires
        at < ops@.len(),
    ensures
        outcome matches Err(e) ==> step == Err::<Option<usize>, Error<E>>(e),
        outcome is Ok ==> step == Ok::<Option<usize>, Error<E>>(
            if at + 1 < ops@.len() {
                Some((at + 1) as usize)
            } else {
                None
            },
        ),
{
    let len: usize = ops.len();
    match outcome {
        Err(e) => Err(e),
        Ok(()) => if at + 1 < len {
            Ok(Some(at + 1))
        } else {
            Ok(None)
        },
    }
}

} // verus!
