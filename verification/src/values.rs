//! The plain values that constructors and setters carry to the platform:
//! colours and lengths.

use vstd::prelude::*;

verus! {

/// A colour: alpha, red, green and blue, eight bits each, alpha highest.
#[derive(Clone, Copy, Debug, PartialEq, Eq, Structural)]
pub struct Color {
    /// The four channels in one word, `0xAARRGGBB`.
    pub argb: u32,
}

impl Color {
    /// The eight bits of `argb` that start at bit `shift`.
    pub open spec fn channel(self, shift: u32) -> u8 {
        ((self.argb >> shift) & 0xff) as u8
    }

    /// The alpha channel: 0 is transparent, 255 opaque.
    pub fn alpha(self) -> (value: u8)
        ensures
            value == self.channel(24),
    {
        let argb = self.argb;
        let value = (argb >> 24) & 0xff;
        assert(value <= 0xff) by (bit_vector)
            requires
                value == (argb >> 24) & 0xff,
        ;
        value as u8
    }

    /// The red channel.
    pub fn red(self) -> (value: u8)
        ensures
            value == self.channel(16),
    {
        let argb = self.argb;
        let value = (argb >> 16) & 0xff;
        assert(value <= 0xff) by (bit_vector)
            requires
                value == (argb >> 16) & 0xff,
        ;
        value as u8
    }

    /// The green channel.
    pub fn green(self) -> (value: u8)
        ensures
            value == self.channel(8),
    {
        let argb = self.argb;
        let value = (argb >> 8) & 0xff;
        assert(value <= 0xff) by (bit_vector)
            requires
                value == (argb >> 8) & 0xff,
        ;
        value as u8
    }

    /// The blue channel.
    pub fn blue(self) -> (value: u8)
        ensures
            value == self.channel(0),
    {
        let argb = self.argb;
        let value = argb & 0xff;
        assert(value <= 0xff && value == (argb >> 0) & 0xff) by (bit_vector)
            requires
                value == argb & 0xff,
        ;
        value as u8
    }
}

impl From<u32> for Color {
    /// The colour whose four channels are the four bytes of `argb`.
    fn from(argb: u32) -> (color: Color) {
        Color { argb }
    }
}

impl vstd::std_specs::convert::FromSpecImpl<u32> for Color {
    open spec fn obeys_from_spec() -> bool {
        true
    }

    open spec fn from_spec(argb: u32) -> Color {
        Color { argb }
    }
}

/// A length in points, as the platform takes it: a binary32 number, held
/// here by its bit pattern.
///
/// The library does no arithmetic on lengths. It stores what it was given and
/// hands it back bit for bit. Two lengths are equal when their bits are, so
/// the two zeros are different lengths and a not-a-number equals itself.
#[derive(Clone, Copy, Debug, PartialEq, Eq, Structural)]
pub struct Length {
    /// The bit pattern of the number.
    pub bits: u32,
}

} // verus!
