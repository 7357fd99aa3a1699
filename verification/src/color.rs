use vstd::prelude::*;

verus! {

/// One entry of the panel's fixed eight-color palette. Each pixel of the
/// frame buffer stores the 4-bit index of one of these colors.
#[derive(Clone, Copy, Debug, PartialEq, Eq, Structural)]
pub enum Color {
    Black,
    White,
    Green,
    Blue,
    Red,
    Yellow,
    Orange,
    /// High-impedance / clean state of the panel.
    HiZ,
}

impl Color {
    /// The 4-bit palette index this color occupies in the packed buffer.
    pub open spec fn spec_nibble(self) -> u8 {
        match self {
            Color::Black => 0x00,
            Color::White => 0x01,
            Color::Green => 0x02,
            Color::Blue => 0x03,
            Color::Red => 0x04,
            Color::Yellow => 0x05,
            Color::Orange => 0x06,
            Color::HiZ => 0x07,
        }
    }

    /// Returns the 4-bit palette index of this color.
    #[verifier::when_used_as_spec(spec_nibble)]
    pub fn nibble(self) -> (r: u8)
        ensures
            r == self.spec_nibble(),
            r < 8,
    {
        match self {
            Color::Black => 0x00,
            Color::White => 0x01,
            Color::Green => 0x02,
            Color::Blue => 0x03,
            Color::Red => 0x04,
            Color::Yellow => 0x05,
            Color::Orange => 0x06,
            Color::HiZ => 0x07,
        }
    }

    /// One byte holding this color in both nibbles, as the panel expects
    /// for a uniform fill.
    pub open spec fn spec_fill_byte(self) -> u8 {
        (self.spec_nibble() * 16 + self.spec_nibble()) as u8
    }

    /// Returns the byte that holds this color repeated in both nibbles.
    pub fn fill_byte(self) -> (r: u8)
        ensures
            r == self.spec_fill_byte(),
    {
        let n = self.nibble();
        n * 16 + n
    }
}

} // verus!
