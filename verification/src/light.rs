//! The light actuator: on/off, color and brightness state, and the value
//! each state drives onto the LED.
//!
//! The LED hardware takes one RGB value per refresh. What is driven is the
//! configured color, gamma-corrected for perception, then scaled by the
//! brightness — or by zero while the light is off. The RMT transfer itself
//! is the device driver's business; these methods update the state and
//! return the exact value the caller must write to the device.

use vstd::prelude::*;

verus! {

/// An eight-bit RGB color value.
#[derive(Clone, Copy, PartialEq, Eq, Structural, Debug)]
pub struct Rgb {
    pub r: u8,
    pub g: u8,
    pub b: u8,
}

/// What gamma correction makes of one eight-bit channel: a fixed table
/// remaps each value, by the value alone.
pub uninterp spec fn gamma_byte(c: u8) -> u8;

/// Relies on smart_leds::gamma: every channel of every item is remapped
/// through the crate's fixed 256-entry gamma table, each channel
/// independently and by its own value alone.
#[verifier::external_body]
fn gamma_correct(c: Rgb) -> (out: Rgb)
    ensures
        out.r == gamma_byte(c.r),
        out.g == gamma_byte(c.g),
        out.b == gamma_byte(c.b),
{
    let rgb8 = smart_leds::RGB8 { r: c.r, g: c.g, b: c.b };
    let corrected = smart_leds::gamma(core::iter::once(rgb8)).next().unwrap();
    Rgb { r: corrected.r, g: corrected.g, b: corrected.b }
}

/// One channel scaled to a brightness level, as the LED helper computes it.
pub open spec fn scaled_channel(c: u8, level: u8) -> int {
    (c * (level + 1)) / 256
}

/// Relies on smart_leds::brightness: every channel of every item is scaled
/// to `channel * (level + 1) / 256`.
#[verifier::external_body]
fn scale_rgb(c: Rgb, level: u8) -> (out: Rgb)
    ensures
        out.r as int == scaled_channel(c.r, level),
        out.g as int == scaled_channel(c.g, level),
        out.b as int == scaled_channel(c.b, level),
{
    let rgb8 = smart_leds::RGB8 { r: c.r, g: c.g, b: c.b };
    let scaled = smart_leds::brightness(core::iter::once(rgb8), level).next().unwrap();
    Rgb { r: scaled.r, g: scaled.g, b: scaled.b }
}

/// The state of the light source.
pub struct Light {
    pub on: bool,
    pub color: Rgb,
    pub brightness: u8,
}

impl Light {
    /// The brightness level actually applied: the configured one while the
    /// light is on, zero while it is off.
    pub open spec fn effective_level(&self) -> u8 {
        if self.on {
            self.brightness
        } else {
            0
        }
    }

    /// What one channel of this state drives onto the LED:
    /// gamma-corrected, then scaled by the effective brightness. An
    /// effective level of zero darkens every channel completely.
    pub open spec fn output_channel(&self, c: u8) -> int {
        scaled_channel(gamma_byte(c), self.effective_level())
    }

    /// The whole state's LED value is the configured color's channels,
    /// each mapped by `output_channel`.
    pub open spec fn drives(&self, out: Rgb) -> bool {
        &&& out.r as int == self.output_channel(self.color.r)
        &&& out.g as int == self.output_channel(self.color.g)
        &&& out.b as int == self.output_channel(self.color.b)
    }

    /// The startup state: off, full brightness, white.
    pub fn new() -> (l: Light)
        ensures
            !l.on,
            l.color == (Rgb { r: 255, g: 255, b: 255 }),
            l.brightness == 100,
    {
        Light { on: false, color: Rgb { r: 255, g: 255, b: 255 }, brightness: 100 }
    }

    /// Compute the value to drive onto the LED for the current state.
    pub fn update(&self) -> (out: Rgb)
        ensures
            self.drives(out),
    {
        let level: u8 = if self.on {
            self.brightness
        } else {
            0
        };
        let corrected = gamma_correct(self.color);
        scale_rgb(corrected, level)
    }

    /// Switch the light on or off; the caller writes the returned value to
    /// the LED.
    pub fn power(&mut self, on: bool) -> (out: Rgb)
        ensures
            final (self).on == on,
            final (self).color == old(self).color,
            final (self).brightness == old(self).brightness,
            final (self).drives(out),
    {
        self.on = on;
        self.update()
    }

    /// Set the brightness; the caller writes the returned value to the LED.
    pub fn brightness(&mut self, b: u8) -> (out: Rgb)
        ensures
            final (self).brightness == b,
            final (self).on == old(self).on,
            final (self).color == old(self).color,
            final (self).drives(out),
    {
        self.brightness = b;
        self.update()
    }

    /// Set the color; the caller writes the returned value to the LED.
    pub fn rgb(&mut self, rgb: Rgb) -> (out: Rgb)
        ensures
            final (self).color == rgb,
            final (self).on == old(self).on,
            final (self).brightness == old(self).brightness,
            final (self).drives(out),
    {
        self.color = rgb;
        self.update()
    }
}

/// Scaling by an effective level of zero yields zero on every channel: an
/// off light is dark whatever its color and configured brightness.
pub proof fn lemma_off_is_dark(l: Light, out: Rgb)
    requires
        !l.on,
        l.drives(out),
    ensures
        out == (Rgb { r: 0, g: 0, b: 0 }),
{
    let gr = gamma_byte(l.color.r);
    let gg = gamma_byte(l.color.g);
    let gb = gamma_byte(l.color.b);
    assert(0 <= gr * 1 < 256 && 0 <= gg * 1 < 256 && 0 <= gb * 1 < 256);
    assert(scaled_channel(gr, 0) == 0 && scaled_channel(gg, 0) == 0 && scaled_channel(gb, 0) == 0);
}

} // verus!
