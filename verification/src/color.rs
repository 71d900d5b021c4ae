//! The 16-bit colour format of the panel.
use embedded_graphics_core::pixelcolor::raw::RawData;
use embedded_graphics_core::pixelcolor::raw::RawU16;
use embedded_graphics_core::pixelcolor::Rgb565;
use vstd::prelude::*;

verus! {

/// `embedded_graphics_core::pixelcolor::Rgb565`, carried through as an opaque value.
#[verifier::external_type_specification]
#[verifier::external_body]
pub struct ExRgb565(Rgb565);

/// The 16-bit word that `embedded_graphics_core` stores for a colour: what
/// `RawU16::from(color).into_inner()` returns.
pub uninterp spec fn rgb565_bits(color: Rgb565) -> u16;

/// Calls `RawU16::from(color).into_inner()`. The contract only gives the
/// returned storage word its name, `rgb565_bits(color)`; it says nothing of
/// how the channels are laid out in it.
#[verifier::external_body]
pub(crate) fn raw_bits(color: Rgb565) -> (bits: u16)
    ensures
        bits == rgb565_bits(color),
{
    RawU16::from(color).into_inner()
}

/// The byte of a colour word that goes first on the wire.
pub open spec fn high_byte(bits: u16) -> u8 {
    (bits / 256) as u8
}

/// The byte of a colour word that goes second on the wire.
pub open spec fn low_byte(bits: u16) -> u8 {
    (bits % 256) as u8
}

/// The colour word that two consecutive buffer bytes stand for.
pub open spec fn word_of(high: u8, low: u8) -> u16 {
    (high * 256 + low) as u16
}

/// Splits a colour word into its wire bytes, high byte first.
pub fn color_bytes(bits: u16) -> (bytes: (u8, u8))
    ensures
        bytes.0 == high_byte(bits),
        bytes.1 == low_byte(bits),
        word_of(bytes.0, bytes.1) == bits,
{
    let low: u8 = (bits & 0xff) as u8;
    let high: u8 = ((bits & 0xff00) >> 8) as u8;
    assert(low == (bits % 256) as u8 && high == (bits / 256) as u8) by (bit_vector)
        requires
            low == (bits & 0xff) as u8,
            high == ((bits & 0xff00) >> 8) as u8,
    ;
    (high, low)
}

} // verus!
