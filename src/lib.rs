//! A driver for the NanoHat OLED module: a 128x64 monochrome dot-matrix
//! display whose controller is reached over an I2C bus.
//!
//! The library holds the driver's logic: the command bytes, the built-in
//! font, the conversion of grayscale images into the controller's
//! page-packed memory layout, and the framing of commands and data into
//! bounded bus writes. Every operation appends the block writes it needs
//! to an outbox; the caller hands them to the bus in order with a
//! [`Transfer`], which stops at the first write that fails.
pub mod command;
pub mod error;
pub mod font;
pub mod frame;
pub mod oled;
pub mod render;

pub use crate::command::{AddressingMode, Command};
pub use crate::error::OledError;
pub use crate::font::bitmap;
pub use crate::frame::{bulk_writes, BusWrite, Transfer, COMMAND_MODE, DATA_MODE, MAX_CHUNK};
pub use crate::oled::{Oled, DEFAULT_CONTRAST};
pub use crate::render::{render, BITMAP_LEN, IMAGE_LEN};

use vstd::prelude::*;

verus! {

/// The width of the display, in pixels.
pub const OLED_WIDTH: usize = 128;

/// The height of the display, in pixels.
pub const OLED_HEIGHT: usize = 64;

/// The I2C slave address of the display.
pub const OLED_ADDRESS: u16 = 0x3c;

/// The number of pixel rows in one memory page.
pub const OLED_PAGE_HEIGHT: usize = 8;

/// The number of memory pages.
pub const OLED_PAGES: usize = 8;

} // verus!
