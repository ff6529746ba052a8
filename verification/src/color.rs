//! The color command: one solid fill color for the entire strip.

use vstd::prelude::*;

verus! {

/// A solid fill color for the whole strip: one unsigned 8-bit value per
/// channel. Immutable once constructed; created by the listener from a parsed
/// request and consumed exactly once by the driver.
#[derive(Clone, Copy, Debug, PartialEq, Eq, Structural)]
pub struct ColorCommand {
    pub r: u8,
    pub g: u8,
    pub b: u8,
}

impl ColorCommand {
    /// Builds the command for the given red, green and blue channels.
    pub fn new(r: u8, g: u8, b: u8) -> (c: ColorCommand)
        ensures
            c == (ColorCommand { r, g, b }),
    {
        ColorCommand { r, g, b }
    }

    /// The neutral color the driver renders at start-up: all channels off.
    pub fn off() -> (c: ColorCommand)
        ensures
            c == (ColorCommand { r: 0u8, g: 0u8, b: 0u8 }),
    {
        ColorCommand { r: 0, g: 0, b: 0 }
    }
}

} // verus!
