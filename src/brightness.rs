//! Display brightness.

use vstd::prelude::*;

verus! {

/// A backlight intensity: `0x00` is the dimmest, `0xFF` the brightest.
#[derive(Debug, Copy, Clone, PartialEq, Eq, Structural)]
pub struct Brightness {
    pub(crate) brightness: u8,
}

impl Default for Brightness {
    fn default() -> (r: Self)
        ensures
            r.brightness() == 0x5F,
    {
        Brightness::normal()
    }
}

impl Brightness {
    /// Dimmest predefined brightness level, `0x00`.
    pub fn dimmest() -> (r: Self)
        ensures
            r.brightness() == 0x00,
    {
        Self { brightness: 0x00 }
    }

    /// Dim predefined brightness level, `0x2F`.
    pub fn dim() -> (r: Self)
        ensures
            r.brightness() == 0x2F,
    {
        Self { brightness: 0x2F }
    }

    /// Medium predefined brightness level, `0x5F`: the default.
    pub fn normal() -> (r: Self)
        ensures
            r.brightness() == 0x5F,
    {
        Self { brightness: 0x5F }
    }

    /// Bright predefined brightness level, `0x9F`.
    pub fn bright() -> (r: Self)
        ensures
            r.brightness() == 0x9F,
    {
        Self { brightness: 0x9F }
    }

    /// Brightest predefined brightness level, `0xFF`.
    pub fn brightest() -> (r: Self)
        ensures
            r.brightness() == 0xFF,
    {
        Self { brightness: 0xFF }
    }

    /// A brightness from a raw level.
    ///
    /// How the level maps to light output is set by the display module;
    /// in principle `0x00` is the lowest and `0xFF` the highest.
    pub fn custom(brightness: u8) -> (r: Self)
        ensures
            r.brightness() == brightness,
    {
        Self { brightness }
    }

    /// The raw level, as it was given; the hardware is not read.
    #[verifier::when_used_as_spec(spec_brightness)]
    pub fn brightness(&self) -> (r: u8)
        ensures
            r == self.spec_brightness(),
    {
        self.brightness
    }

    /// The raw level.
    pub closed spec fn spec_brightness(&self) -> u8 {
        self.brightness
    }
}

} // verus!
