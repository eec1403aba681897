//! RGBA colours of eight bits per channel.
use vstd::prelude::*;
use crate::units::{channel_level, level_of};

verus! {

/// One pixel: red, green, blue and opacity, each `0..=255`.
#[derive(Clone, Copy, Debug, PartialEq, Eq, Structural)]
pub struct Rgba {
    pub r: u8,
    pub g: u8,
    pub b: u8,
    pub a: u8,
}

/// The colour that three intensities assemble to: each limited to the unit
/// interval and scaled to eight bits, at full opacity.
pub open spec fn assembled(r: int, g: int, b: int) -> Rgba {
    Rgba { r: level_of(r) as u8, g: level_of(g) as u8, b: level_of(b) as u8, a: 255 }
}

impl Rgba {
    /// What a buffer holds where nothing was drawn: black, fully transparent.
    pub open spec fn blank() -> Rgba {
        Rgba { r: 0, g: 0, b: 0, a: 0 }
    }

    /// The blank pixel.
    pub fn transparent() -> (c: Rgba)
        ensures
            c == Rgba::blank(),
    {
        Rgba { r: 0, g: 0, b: 0, a: 0 }
    }

    /// A colour at full opacity.
    pub fn opaque(r: u8, g: u8, b: u8) -> (c: Rgba)
        ensures
            c == (Rgba { r, g, b, a: 255 }),
    {
        Rgba { r, g, b, a: 255 }
    }

    /// Assembles a colour from three intensities in millionths. Intensities
    /// outside the unit interval are clamped, never wrapped.
    pub fn from_intensities(r: i64, g: i64, b: i64) -> (c: Rgba)
        ensures
            c == assembled(r as int, g as int, b as int),
    {
        Rgba { r: channel_level(r), g: channel_level(g), b: channel_level(b), a: 255 }
    }

    /// The four channels in the order red, green, blue, opacity.
    pub open spec fn channels(self) -> Seq<u8> {
        seq![self.r, self.g, self.b, self.a]
    }
}

} // verus!
