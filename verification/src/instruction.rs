//! The instructions of the ST7735 that the driver issues.
use vstd::prelude::*;

verus! {

/// An instruction of the controller. Each stands for one opcode byte.
#[derive(Clone, Copy, Debug, PartialEq, Eq, Structural)]
pub enum Instruction {
    /// Software reset.
    SWRESET,
    /// Leave sleep mode.
    SLPOUT,
    /// Display inversion off.
    INVOFF,
    /// Display inversion on.
    INVON,
    /// Display on.
    DISPON,
    /// Column address set.
    CASET,
    /// Row address set.
    RASET,
    /// Memory write.
    RAMWR,
    /// Memory data access control.
    MADCTL,
    /// Interface pixel format.
    COLMOD,
    /// Frame rate control, normal mode.
    FRMCTR1,
    /// Frame rate control, idle mode.
    FRMCTR2,
    /// Frame rate control, partial mode.
    FRMCTR3,
    /// Display inversion control.
    INVCTR,
    /// Power control 1.
    PWCTR1,
    /// Power control 2.
    PWCTR2,
    /// Power control 3.
    PWCTR3,
    /// Power control 4.
    PWCTR4,
    /// Power control 5.
    PWCTR5,
    /// VCOM control 1.
    VMCTR1,
}

impl Instruction {
    /// The opcode byte of the instruction.
    pub open spec fn spec_opcode(self) -> u8 {
        match self {
            Instruction::SWRESET => 0x01,
            Instruction::SLPOUT => 0x11,
            Instruction::INVOFF => 0x20,
            Instruction::INVON => 0x21,
            Instruction::DISPON => 0x29,
            Instruction::CASET => 0x2A,
            Instruction::RASET => 0x2B,
            Instruction::RAMWR => 0x2C,
            Instruction::MADCTL => 0x36,
            Instruction::COLMOD => 0x3A,
            Instruction::FRMCTR1 => 0xB1,
            Instruction::FRMCTR2 => 0xB2,
            Instruction::FRMCTR3 => 0xB3,
            Instruction::INVCTR => 0xB4,
            Instruction::PWCTR1 => 0xC0,
            Instruction::PWCTR2 => 0xC1,
            Instruction::PWCTR3 => 0xC2,
            Instruction::PWCTR4 => 0xC3,
            Instruction::PWCTR5 => 0xC4,
            Instruction::VMCTR1 => 0xC5,
        }
    }

    /// The opcode byte of the instruction.
    #[verifier::when_used_as_spec(spec_opcode)]
    pub fn opcode(self) -> (byte: u8)
        ensures
            byte == self.spec_opcode(),
    {
        match self {
            Instruction::SWRESET => 0x01,
            Instruction::SLPOUT => 0x11,
            Instruction::INVOFF => 0x20,
            Instruction::INVON => 0x21,
            Instruction::DISPON => 0x29,
            Instruction::CASET => 0x2A,
            Instruction::RASET => 0x2B,
            Instruction::RAMWR => 0x2C,
            Instruction::MADCTL => 0x36,
            Instruction::COLMOD => 0x3A,
            Instruction::FRMCTR1 => 0xB1,
            Instruction::FRMCTR2 => 0xB2,
            Instruction::FRMCTR3 => 0xB3,
            Instruction::INVCTR => 0xB4,
            Instruction::PWCTR1 => 0xC0,
            Instruction::PWCTR2 => 0xC1,
            Instruction::PWCTR3 => 0xC2,
            Instruction::PWCTR4 => 0xC3,
            Instruction::PWCTR5 => 0xC4,
            Instruction::VMCTR1 => 0xC5,
        }
    }
}

} // verus!
