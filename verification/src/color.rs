use vstd::prelude::*;

verus! {

/// A 24-bit RGB color: three bytes in red, green, blue order.
///
/// Any byte triple is a valid color; construction never fails. The value is
/// copied wherever it is consumed and is never mutated by the driver.
#[derive(Clone, Copy)]
pub struct Color(pub [u8; 3]);

impl Color {
    pub fn red() -> (c: Color)
        ensures
            c.0@ == seq![255u8, 0u8, 0u8],
    {
        Color([255, 0, 0])
    }

    pub fn green() -> (c: Color)
        ensures
            c.0@ == seq![0u8, 255u8, 0u8],
    {
        Color([0, 255, 0])
    }

    pub fn blue() -> (c: Color)
        ensures
            c.0@ == seq![0u8, 0u8, 255u8],
    {
        Color([0, 0, 255])
    }

    /// Green + blue.
    pub fn cyan() -> (c: Color)
        ensures
            c.0@ == seq![0u8, 255u8, 255u8],
    {
        Color([0, 255, 255])
    }

    /// Red + blue.
    pub fn magenta() -> (c: Color)
        ensures
            c.0@ == seq![255u8, 0u8, 255u8],
    {
        Color([255, 0, 255])
    }

    /// Red + green.
    pub fn yellow() -> (c: Color)
        ensures
            c.0@ == seq![255u8, 255u8, 0u8],
    {
        Color([255, 255, 0])
    }

    /// All channels at full brightness.
    pub fn white() -> (c: Color)
        ensures
            c.0@ == seq![255u8, 255u8, 255u8],
    {
        Color([255, 255, 255])
    }

    /// Red with some green.
    pub fn orange() -> (c: Color)
        ensures
            c.0@ == seq![255u8, 165u8, 0u8],
    {
        Color([255, 165, 0])
    }

    /// Dimmed magenta.
    pub fn purple() -> (c: Color)
        ensures
            c.0@ == seq![128u8, 0u8, 128u8],
    {
        Color([128, 0, 128])
    }

    /// Light red.
    pub fn pink() -> (c: Color)
        ensures
            c.0@ == seq![255u8, 192u8, 203u8],
    {
        Color([255, 192, 203])
    }

    pub fn brown() -> (c: Color)
        ensures
            c.0@ == seq![165u8, 42u8, 42u8],
    {
        Color([165, 42, 42])
    }
}

impl Default for Color {
    /// All channels off: black.
    fn default() -> (c: Color)
        ensures
            c.0@ == seq![0u8, 0u8, 0u8],
    {
        Color([0, 0, 0])
    }
}

} // verus!
