//! Panel settings: channel order, inversion and orientation.
use vstd::prelude::*;

verus! {

/// Order of the colour channels in a pixel.
#[derive(Clone, Copy, Debug, PartialEq, Eq, Structural)]
pub enum PixelColor {
    /// Red, green, blue.
    RGB,
    /// Blue, green, red.
    BGR,
}

impl PixelColor {
    /// The flag that selects this channel order in the memory access control byte.
    pub open spec fn spec_bits(self) -> u8 {
        match self {
            PixelColor::RGB => 0x00,
            PixelColor::BGR => 0x08,
        }
    }

    /// The flag that selects this channel order in the memory access control byte.
    #[verifier::when_used_as_spec(spec_bits)]
    pub fn bits(self) -> (byte: u8)
        ensures
            byte == self.spec_bits(),
    {
        match self {
            PixelColor::RGB => 0x00,
            PixelColor::BGR => 0x08,
        }
    }
}

/// Rotation of the picture on the panel.
#[derive(Clone, Copy, Debug, PartialEq, Eq, Structural)]
pub enum Orientation {
    Portrait,
    Landscape,
    PortraitSwapped,
    LandscapeSwapped,
}

impl Orientation {
    /// The flags that select this rotation in the memory access control byte.
    pub open spec fn spec_bits(self) -> u8 {
        match self {
            Orientation::Portrait => 0x00,
            Orientation::Landscape => 0x60,
            Orientation::PortraitSwapped => 0xC0,
            Orientation::LandscapeSwapped => 0xA0,
        }
    }

    /// The flags that select this rotation in the memory access control byte.
    #[verifier::when_used_as_spec(spec_bits)]
    pub fn bits(self) -> (byte: u8)
        ensures
            byte == self.spec_bits(),
    {
        match self {
            Orientation::Portrait => 0x00,
            Orientation::Landscape => 0x60,
            Orientation::PortraitSwapped => 0xC0,
            Orientation::LandscapeSwapped => 0xA0,
        }
    }

    /// Whether rows of the buffer run along the panel's width.
    pub open spec fn spec_is_landscape(self) -> bool {
        self == Orientation::Landscape || self == Orientation::LandscapeSwapped
    }

    /// Whether rows of the buffer run along the panel's width.
    #[verifier::when_used_as_spec(spec_is_landscape)]
    pub fn is_landscape(self) -> (b: bool)
        ensures
            b == self.spec_is_landscape(),
    {
        match self {
            Orientation::Landscape | Orientation::LandscapeSwapped => true,
            Orientation::Portrait | Orientation::PortraitSwapped => false,
        }
    }
}

/// The parameter byte of the memory access control instruction: the rotation
/// flags joined with the channel order flag.
pub open spec fn madctl_byte(orientation: Orientation, rgb: PixelColor) -> u8 {
    orientation.spec_bits() | rgb.spec_bits()
}

/// Display settings, read once when a driver is made.
#[derive(Clone, Copy, Debug, PartialEq, Eq, Structural)]
pub struct Config {
    /// Channel order of the panel.
    pub rgb: PixelColor,
    /// Whether the colours are inverted.
    pub inverted: bool,
    /// Rotation of the picture.
    pub orientation: Orientation,
}

impl Default for Config {
    fn default() -> (config: Self)
        ensures
            config == (Config {
                rgb: PixelColor::RGB,
                inverted: false,
                orientation: Orientation::Landscape,
            }),
    {
        Config { rgb: PixelColor::RGB, inverted: false, orientation: Orientation::Landscape }
    }
}

} // verus!
