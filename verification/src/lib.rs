//! Driver logic for ST7735 TFT panels attached over SPI.
//!
//! The crate holds everything that decides what goes onto the bus and into the
//! framebuffer: the instruction set, the initialisation sequence, the address
//! window, the mapping from coordinates to buffer offsets and the pixel format.
//! It performs no I/O itself. Every driver operation yields the list of bus
//! operations that make up its transaction; the caller plays that list, in
//! order and up to the first failure, against the SPI device, the two control
//! lines and the delay provider.
pub mod bus;
pub mod color;
pub mod config;
pub mod driver;
pub mod error;
pub mod frame;
pub mod geometry;
pub mod instruction;
pub mod laws;
pub mod surface;

pub use bus::{BusOp, Command};
pub use config::{Config, Orientation, PixelColor};
pub use driver::{buffer_size, ST7735, ST7735IF};
pub use error::Error;
pub use frame::Frame;
pub use instruction::Instruction;
pub use surface::Pixel;
