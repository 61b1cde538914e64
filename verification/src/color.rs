//! 16-bit colours and fixed-point lightness.
//!
//! A colour is held as the 16 bits that the display takes: five of red, six of green,
//! five of blue. Channels are taken out and put together by `embedded_graphics`; what
//! is computed from them is verified here.

use embedded_graphics::pixelcolor::raw::RawU16;
use embedded_graphics::pixelcolor::{IntoStorage, Rgb888, RgbColor};
use vstd::prelude::*;

verus! {

/// The largest value of the red channel.
pub const MAX_RED: u8 = 31;

/// The largest value of the green channel.
pub const MAX_GREEN: u8 = 63;

/// The largest value of the blue channel.
pub const MAX_BLUE: u8 = 31;

/// The lightness factor that changes nothing.
pub const FACTOR_UNITY: isize = 256;

/// Lightness factor: nine tenths.
pub const FACTOR_DARKEN_10: isize = 230;

/// Lightness factor: eight tenths.
pub const FACTOR_DARKEN_20: isize = 204;

/// Lightness factor: seven tenths.
pub const FACTOR_DARKEN_30: isize = 179;

/// Lightness factor: six tenths.
pub const FACTOR_DARKEN_40: isize = 153;

/// Lightness factor: one half.
pub const FACTOR_DARKEN_50: isize = 128;

/// Lightness factor: eleven tenths.
pub const FACTOR_BRIGHTEN_10: isize = 281;

/// Lightness factor: twelve tenths.
pub const FACTOR_BRIGHTEN_20: isize = 307;

/// Lightness factor: thirteen tenths.
pub const FACTOR_BRIGHTEN_30: isize = 332;

/// Lightness factor: fourteen tenths.
pub const FACTOR_BRIGHTEN_40: isize = 358;

/// Lightness factor: one and a half.
pub const FACTOR_BRIGHTEN_50: isize = 384;

/// A colour of five bits of red, six of green and five of blue, packed from the top.
#[derive(Clone, Copy, Debug, PartialEq, Eq, Structural)]
pub struct Rgb565 {
    /// The packed channels.
    pub raw: u16,
}

/// The colour with the given channels, each within its range.
pub open spec fn rgb565(red: int, green: int, blue: int) -> Rgb565 {
    Rgb565 { raw: (red * 2048 + green * 32 + blue) as u16 }
}

/// An 8-bit channel value brought to the range `0..=max` and rounded to the nearest
/// step, in fixed point with 24 fractional bits.
pub open spec fn rescaled_channel(value: int, max: int) -> int {
    (value * ((max * 0x100_0000) / 255) + 0x80_0000) / 0x100_0000
}

/// The colour nearest to a colour of three 8-bit channels.
pub open spec fn nearest_rgb565(red: u8, green: u8, blue: u8) -> Rgb565 {
    rgb565(
        rescaled_channel(red as int, 31),
        rescaled_channel(green as int, 63),
        rescaled_channel(blue as int, 31),
    )
}

/// A channel scaled by `factor / 256`, rounded down, and held within `0..=max`.
pub open spec fn scaled_channel(value: int, factor: int, max: int) -> int {
    let scaled = (value * factor) / 256;
    if scaled < 0 {
        0
    } else if scaled > max {
        max
    } else {
        scaled
    }
}

/// A colour with each channel scaled by `factor / 256`.
pub open spec fn adjusted(color: Rgb565, factor: int) -> Rgb565 {
    rgb565(
        scaled_channel(color.red(), factor, 31),
        scaled_channel(color.green(), factor, 63),
        scaled_channel(color.blue(), factor, 31),
    )
}

/// The colour that keeps the top bits of each byte of `0xRRGGBB`.
pub open spec fn truncated_rgb565(hex_color: u32) -> Rgb565 {
    rgb565(
        ((hex_color as int / 0x1_0000) % 256) / 8,
        ((hex_color as int / 0x100) % 256) / 4,
        (hex_color as int % 256) / 8,
    )
}

/// `embedded_graphics::pixelcolor::Rgb565::new`, read back with `into_storage`: each
/// channel loses the bits above its width, and the three are packed red, green, blue
/// from the top.
#[verifier::external_body]
fn pack_channels(red: u8, green: u8, blue: u8) -> (raw: u16)
    ensures
        raw == (red % 32) * 2048 + (green % 64) * 32 + (blue % 32),
{
    embedded_graphics::pixelcolor::Rgb565::new(red, green, blue).into_storage()
}

/// `RgbColor::r` of the `embedded_graphics` colour with the given bits: the top five.
#[verifier::external_body]
fn red_of_bits(raw: u16) -> (red: u8)
    ensures
        red == raw / 2048,
{
    embedded_graphics::pixelcolor::Rgb565::from(RawU16::new(raw)).r()
}

/// `RgbColor::g` of the `embedded_graphics` colour with the given bits: the middle six.
#[verifier::external_body]
fn green_of_bits(raw: u16) -> (green: u8)
    ensures
        green == (raw / 32) % 64,
{
    embedded_graphics::pixelcolor::Rgb565::from(RawU16::new(raw)).g()
}

/// `RgbColor::b` of the `embedded_graphics` colour with the given bits: the low five.
#[verifier::external_body]
fn blue_of_bits(raw: u16) -> (blue: u8)
    ensures
        blue == raw % 32,
{
    embedded_graphics::pixelcolor::Rgb565::from(RawU16::new(raw)).b()
}

/// The conversion of `embedded_graphics` from `Rgb888` to `Rgb565`, by which it also
/// defines its named web colours: each channel is rescaled to its new range and
/// rounded to the nearest step.
#[verifier::external_body]
fn nearest_bits(red: u8, green: u8, blue: u8) -> (raw: u16)
    ensures
        raw == nearest_rgb565(red, green, blue).raw,
{
    embedded_graphics::pixelcolor::Rgb565::from(Rgb888::new(red, green, blue)).into_storage()
}

/// A rescaled channel lies within its new range.
pub proof fn lemma_rescaled_channel_bounds(value: int, max: int)
    requires
        0 <= value <= 255,
        max == 31 || max == 63,
    ensures
        0 <= rescaled_channel(value, max) <= max,
{
    if max == 31 {
        assert((31 * 0x100_0000) / 255 == 2039583);
    } else {
        assert((63 * 0x100_0000) / 255 == 4144959);
    }
}

/// A scaled channel lies within `0..=max`, whatever the factor.
pub proof fn lemma_scaled_channel_bounds(value: int, factor: int, max: int)
    requires
        0 <= max,
    ensures
        0 <= scaled_channel(value, factor, max) <= max,
{
}

impl Rgb565 {
    /// The red channel.
    pub open spec fn red(self) -> int {
        self.raw as int / 2048
    }

    /// The green channel.
    pub open spec fn green(self) -> int {
        (self.raw as int / 32) % 64
    }

    /// The blue channel.
    pub open spec fn blue(self) -> int {
        self.raw as int % 32
    }

    /// The colour with the given channels. Bits of a channel above its width are dropped.
    pub fn new(red: u8, green: u8, blue: u8) -> (color: Rgb565)
        ensures
            color == rgb565(red as int % 32, green as int % 64, blue as int % 32),
            color.red() == red % 32,
            color.green() == green % 64,
            color.blue() == blue % 32,
    {
        Rgb565 { raw: pack_channels(red, green, blue) }
    }

    /// The colour nearest to the colour of three 8-bit channels.
    pub fn from_rgb888(red: u8, green: u8, blue: u8) -> (color: Rgb565)
        ensures
            color == nearest_rgb565(red, green, blue),
    {
        Rgb565 { raw: nearest_bits(red, green, blue) }
    }

    /// The colour with the given packed bits.
    pub fn from_storage(raw: u16) -> (color: Rgb565)
        ensures
            color.raw == raw,
    {
        Rgb565 { raw }
    }

    /// The packed bits of the colour.
    pub fn into_storage(self) -> (raw: u16)
        ensures
            raw == self.raw,
    {
        self.raw
    }

    /// The red channel, at most 31.
    pub fn r(&self) -> (red: u8)
        ensures
            red == self.red(),
            red <= MAX_RED,
    {
        red_of_bits(self.raw)
    }

    /// The green channel, at most 63.
    pub fn g(&self) -> (green: u8)
        ensures
            green == self.green(),
            green <= MAX_GREEN,
    {
        green_of_bits(self.raw)
    }

    /// The blue channel, at most 31.
    pub fn b(&self) -> (blue: u8)
        ensures
            blue == self.blue(),
            blue <= MAX_BLUE,
    {
        blue_of_bits(self.raw)
    }
}

/// A colour is its three channels: each lies in its range, and together they give
/// the colour back.
pub proof fn lemma_channels_make_color(color: Rgb565)
    ensures
        0 <= color.red() <= 31,
        0 <= color.green() <= 63,
        0 <= color.blue() <= 31,
        color == rgb565(color.red(), color.green(), color.blue()),
{
}

/// The channels of a colour made of three values in range are those values.
pub proof fn lemma_channels_of_rgb565(red: int, green: int, blue: int)
    requires
        0 <= red <= 31,
        0 <= green <= 63,
        0 <= blue <= 31,
    ensures
        rgb565(red, green, blue).red() == red,
        rgb565(red, green, blue).green() == green,
        rgb565(red, green, blue).blue() == blue,
{
}

/// Scales one channel by `factor / 256` and holds it within `0..=max`.
fn scale_channel(value: u8, factor: isize, max: u8) -> (scaled: u8)
    requires
        value <= max,
        max <= 63,
    ensures
        scaled == scaled_channel(value as int, factor as int, max as int),
{
    if factor <= 0 {
        assert((value as int * factor as int) / 256 <= 0) by (nonlinear_arith)
            requires
                value >= 0,
                factor <= 0,
        ;
        0
    } else {
        let wide_value: u128 = value as u128;
        let wide_factor: u128 = factor as u128;
        assert(wide_value * wide_factor <= 63 * 0x8000_0000_0000_0000) by (nonlinear_arith)
            requires
                wide_value <= 63,
                wide_factor <= 0x8000_0000_0000_0000,
        ;
        let product: u128 = wide_value * wide_factor;
        let shifted: u128 = product >> 8;
        assert(shifted == product / 256) by (bit_vector)
            requires
                shifted == product >> 8,
        ;
        assert(product == value as int * factor as int);
        if shifted > max as u128 {
            max
        } else {
            shifted as u8
        }
    }
}

/// Scales the lightness of a colour by the fixed-point `factor`: 256 leaves it as it
/// is, less darkens, more brightens. Each channel is multiplied by the factor, shifted
/// right by eight bits and held within its range.
pub fn adjust_lightness_rgb565(color: Rgb565, factor: isize) -> (res: Rgb565)
    ensures
        res == adjusted(color, factor as int),
        res.red() == scaled_channel(color.red(), factor as int, 31),
        res.green() == scaled_channel(color.green(), factor as int, 63),
        res.blue() == scaled_channel(color.blue(), factor as int, 31),
{
    let r_final = scale_channel(color.r(), factor, MAX_RED);
    let g_final = scale_channel(color.g(), factor, MAX_GREEN);
    let b_final = scale_channel(color.b(), factor, MAX_BLUE);
    Rgb565::new(r_final, g_final, b_final)
}

/// Converts a colour written as `0xRRGGBB` by keeping the top five, six and five bits
/// of its three bytes. Bits above the three bytes are ignored.
pub fn hex_to_rgb565(hex_color: u32) -> (color: Rgb565)
    ensures
        color == truncated_rgb565(hex_color),
{
    let r_8bit: u32 = (hex_color >> 16) & 0xFF;
    let g_8bit: u32 = (hex_color >> 8) & 0xFF;
    let b_8bit: u32 = hex_color & 0xFF;
    let r_5bit: u32 = r_8bit >> 3;
    let g_6bit: u32 = g_8bit >> 2;
    let b_5bit: u32 = b_8bit >> 3;
    assert(r_5bit == ((hex_color / 0x1_0000) % 256) / 8 && g_6bit == ((hex_color / 0x100) % 256)
        / 4 && b_5bit == (hex_color % 256) / 8) by (bit_vector)
        requires
            r_5bit == ((hex_color >> 16) & 0xFF) >> 3,
            g_6bit == ((hex_color >> 8) & 0xFF) >> 2,
            b_5bit == (hex_color & 0xFF) >> 3,
    ;
    Rgb565::new(r_5bit as u8, g_6bit as u8, b_5bit as u8)
}

/// A factor of 256 leaves every channel, and so the colour, unchanged.
pub proof fn lemma_unity_factor_keeps_color(color: Rgb565)
    ensures
        adjusted(color, 256) == color,
        scaled_channel(color.red(), 256, 31) == color.red(),
        scaled_channel(color.green(), 256, 63) == color.green(),
        scaled_channel(color.blue(), 256, 31) == color.blue(),
{
    lemma_channels_make_color(color);
}

/// A factor of 128 halves every channel, rounding down, and no channel leaves its
/// range.
pub proof fn lemma_half_factor_halves_channels(color: Rgb565)
    ensures
        adjusted(color, 128).red() == color.red() / 2,
        adjusted(color, 128).green() == color.green() / 2,
        adjusted(color, 128).blue() == color.blue() / 2,
        adjusted(color, 128).red() <= 31,
        adjusted(color, 128).green() <= 63,
        adjusted(color, 128).blue() <= 31,
{
    lemma_adjusted_channels(color, 128);
    lemma_channels_make_color(color);
    lemma_half_factor_halves(color.red(), 31);
    lemma_half_factor_halves(color.green(), 63);
    lemma_half_factor_halves(color.blue(), 31);
}

/// A factor of 128 halves a channel, rounding down.
pub proof fn lemma_half_factor_halves(value: int, max: int)
    requires
        0 <= value <= max,
    ensures
        scaled_channel(value, 128, max) == value / 2,
{
}

/// Whatever the factor, every channel of the adjusted colour is the scaled channel of
/// the colour it was made from, and lies within its range.
pub proof fn lemma_adjusted_channels(color: Rgb565, factor: int)
    ensures
        adjusted(color, factor).red() == scaled_channel(color.red(), factor, 31),
        adjusted(color, factor).green() == scaled_channel(color.green(), factor, 63),
        adjusted(color, factor).blue() == scaled_channel(color.blue(), factor, 31),
        0 <= adjusted(color, factor).red() <= 31,
        0 <= adjusted(color, factor).green() <= 63,
        0 <= adjusted(color, factor).blue() <= 31,
{
    lemma_channels_of_rgb565(
        scaled_channel(color.red(), factor, 31),
        scaled_channel(color.green(), factor, 63),
        scaled_channel(color.blue(), factor, 31),
    );
}

/// A factor of zero or less gives black; a channel never grows under a factor of at
/// most 256 and never shrinks under one of at least 256.
pub proof fn lemma_scaled_channel_monotone(value: int, factor: int, max: int)
    requires
        0 <= value <= max,
    ensures
        factor <= 0 ==> scaled_channel(value, factor, max) == 0,
        0 <= factor <= 256 ==> scaled_channel(value, factor, max) <= value,
        factor >= 256 ==> scaled_channel(value, factor, max) >= value,
{
    if factor <= 0 {
        assert((value * factor) / 256 <= 0) by (nonlinear_arith)
            requires
                value >= 0,
                factor <= 0,
        ;
    }
    if 0 <= factor <= 256 {
        assert(0 <= (value * factor) / 256 <= value) by (nonlinear_arith)
            requires
                value >= 0,
                0 <= factor <= 256,
        ;
    }
    if factor >= 256 {
        assert((value * factor) / 256 >= value) by (nonlinear_arith)
            requires
                value >= 0,
                factor >= 256,
        ;
    }
}

} // verus!
