//! The named colours that the eyes are painted with.
//!
//! Each is a web colour, given by its three 8-bit channels and brought to 16 bits
//! by rounding, as `embedded_graphics` does for its own named colours.

use crate::color::{nearest_rgb565, rescaled_channel, Rgb565};
use vstd::prelude::*;

verus! {

/// A named web colour.
#[derive(Clone, Copy, Debug, PartialEq, Eq, Structural)]
pub enum NamedColor {
    Black,
    White,
    BlueViolet,
    Chocolate,
    DarkOrchid,
    DarkTurquoise,
    DeepSkyBlue,
    Goldenrod,
    Indigo,
    LightGreen,
    LimeGreen,
    MediumOrchid,
    MediumPurple,
    Orange,
    Plum,
    RebeccaPurple,
    SlateGray,
    Violet,
}

/// The purples through which the iris cycles while the eyes are startled.
pub const IRIS_PALETTE_PURPLE: [NamedColor; 8] = [
    NamedColor::Indigo,
    NamedColor::RebeccaPurple,
    NamedColor::DarkOrchid,
    NamedColor::BlueViolet,
    NamedColor::MediumPurple,
    NamedColor::MediumOrchid,
    NamedColor::Violet,
    NamedColor::Plum,
];

/// The purples through which the iris cycles, in order.
pub open spec fn purple_palette() -> Seq<NamedColor> {
    seq![
        NamedColor::Indigo,
        NamedColor::RebeccaPurple,
        NamedColor::DarkOrchid,
        NamedColor::BlueViolet,
        NamedColor::MediumPurple,
        NamedColor::MediumOrchid,
        NamedColor::Violet,
        NamedColor::Plum,
    ]
}

impl NamedColor {
    /// The red, green and blue of the colour, each out of 255.
    pub open spec fn channels(self) -> (u8, u8, u8) {
        match self {
            NamedColor::Black => (0, 0, 0),
            NamedColor::White => (255, 255, 255),
            NamedColor::BlueViolet => (138, 43, 226),
            NamedColor::Chocolate => (210, 105, 30),
            NamedColor::DarkOrchid => (153, 50, 204),
            NamedColor::DarkTurquoise => (0, 206, 209),
            NamedColor::DeepSkyBlue => (0, 191, 255),
            NamedColor::Goldenrod => (218, 165, 32),
            NamedColor::Indigo => (75, 0, 130),
            NamedColor::LightGreen => (144, 238, 144),
            NamedColor::LimeGreen => (50, 205, 50),
            NamedColor::MediumOrchid => (186, 85, 211),
            NamedColor::MediumPurple => (147, 112, 219),
            NamedColor::Orange => (255, 165, 0),
            NamedColor::Plum => (221, 160, 221),
            NamedColor::RebeccaPurple => (102, 51, 153),
            NamedColor::SlateGray => (112, 128, 144),
            NamedColor::Violet => (238, 130, 238),
        }
    }

    /// The 16-bit colour nearest to the named one.
    pub open spec fn rgb565(self) -> Rgb565 {
        nearest_rgb565(self.channels().0, self.channels().1, self.channels().2)
    }

    /// Returns the red, green and blue of the colour, each out of 255.
    pub fn rgb888(self) -> (c: (u8, u8, u8))
        ensures
            c == self.channels(),
    {
        match self {
            NamedColor::Black => (0, 0, 0),
            NamedColor::White => (255, 255, 255),
            NamedColor::BlueViolet => (138, 43, 226),
            NamedColor::Chocolate => (210, 105, 30),
            NamedColor::DarkOrchid => (153, 50, 204),
            NamedColor::DarkTurquoise => (0, 206, 209),
            NamedColor::DeepSkyBlue => (0, 191, 255),
            NamedColor::Goldenrod => (218, 165, 32),
            NamedColor::Indigo => (75, 0, 130),
            NamedColor::LightGreen => (144, 238, 144),
            NamedColor::LimeGreen => (50, 205, 50),
            NamedColor::MediumOrchid => (186, 85, 211),
            NamedColor::MediumPurple => (147, 112, 219),
            NamedColor::Orange => (255, 165, 0),
            NamedColor::Plum => (221, 160, 221),
            NamedColor::RebeccaPurple => (102, 51, 153),
            NamedColor::SlateGray => (112, 128, 144),
            NamedColor::Violet => (238, 130, 238),
        }
    }

    /// Returns the 16-bit colour nearest to the named one.
    pub fn color(self) -> (c: Rgb565)
        ensures
            c == self.rgb565(),
    {
        let (red, green, blue) = self.rgb888();
        Rgb565::from_rgb888(red, green, blue)
    }
}

/// Black has no light in any channel, and white has all of it in each.
pub proof fn lemma_black_and_white()
    ensures
        NamedColor::Black.rgb565().raw == 0,
        NamedColor::White.rgb565().raw == 0xFFFF,
{
    assert(NamedColor::Black.channels() == (0u8, 0u8, 0u8));
    assert(NamedColor::White.channels() == (255u8, 255u8, 255u8));
    assert(rescaled_channel(0, 31) == 0 && rescaled_channel(0, 63) == 0);
    assert(rescaled_channel(255, 31) == 31 && rescaled_channel(255, 63) == 63);
}

} // verus!
