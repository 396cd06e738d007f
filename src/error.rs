//! The errors that the driver's logic reports.
use vstd::prelude::*;

verus! {

/// Input that the driver refuses before any bus write.
#[derive(Clone, Copy, Debug, PartialEq, Eq, Structural)]
pub enum OledError {
    /// An image whose length is not the display's width times its height.
    InvalidImageSize { len: usize },
    /// A character for which the built-in font has no glyph.
    UnsupportedChar { c: char },
}

} // verus!
