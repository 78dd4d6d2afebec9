//! Colours as the store encodes them.

use vstd::prelude::*;

verus! {

/// A colour with an alpha channel.
///
/// Each channel is the bit pattern of a single-precision intensity between
/// zero and one, so that a colour passes through the mirror unchanged, down
/// to the last bit, whatever its source computed.
#[derive(Clone, Copy, Debug, PartialEq, Eq, Structural)]
pub struct Color {
    pub red: u32,
    pub green: u32,
    pub blue: u32,
    pub alpha: u32,
}

impl Color {
    /// A colour from the bit patterns of its four channels.
    pub fn from_bits(red: u32, green: u32, blue: u32, alpha: u32) -> (color: Color)
        ensures
            color == (Color { red, green, blue, alpha }),
    {
        Color { red, green, blue, alpha }
    }
}

} // verus!
