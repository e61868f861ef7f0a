//! Colours for the JDI LPM013M126A display.
//!
//! The panel has eight colours.  Each maps bijectively to a 3-bit code; the
//! wire and storage form is one nibble holding the code doubled, so that the
//! low bit of a stored nibble is always zero and two pixels pack into a byte.

use vstd::prelude::*;

verus! {

/// The eight-colour palette of the panel.
#[derive(Clone, Copy, Debug, PartialEq, Eq, Structural)]
pub enum Palette8 {
    Black,
    Blue,
    Green,
    Cyan,
    Red,
    Pink,
    Yellow,
    White,
}

/// The 3-bit code of a colour.
pub open spec fn code_spec(c: Palette8) -> u8 {
    match c {
        Palette8::Black => 0,
        Palette8::Blue => 1,
        Palette8::Green => 2,
        Palette8::Cyan => 3,
        Palette8::Red => 4,
        Palette8::Pink => 5,
        Palette8::Yellow => 6,
        Palette8::White => 7,
    }
}

/// The colour denoted by a 3-bit code; every code above 7 denotes Black.
pub open spec fn colour_for_code(value: u8) -> Palette8 {
    if value == 1 {
        Palette8::Blue
    } else if value == 2 {
        Palette8::Green
    } else if value == 3 {
        Palette8::Cyan
    } else if value == 4 {
        Palette8::Red
    } else if value == 5 {
        Palette8::Pink
    } else if value == 6 {
        Palette8::Yellow
    } else if value == 7 {
        Palette8::White
    } else {
        Palette8::Black
    }
}

/// The stored nibble of a colour: its code doubled, so bit 0 is always clear.
pub open spec fn nibble_spec(c: Palette8) -> u8 {
    (code_spec(c) * 2) as u8
}

/// The colour stored in a nibble: a nibble with bit 0 set, or one whose code
/// lies above 7, decodes to Black as a defensive default.
pub open spec fn colour_for_nibble(value: u8) -> Palette8 {
    if value & 1 == 1 {
        Palette8::Black
    } else {
        colour_for_code(value / 2)
    }
}

/// The byte holding the nibbles of two colours: `a` in the high nibble (the
/// even-x pixel), `b` in the low nibble (the odd-x pixel).
pub open spec fn colors_byte_spec(a: Palette8, b: Palette8) -> u8 {
    (nibble_spec(a) * 16 + nibble_spec(b)) as u8
}

impl Palette8 {
    /// The 3-bit code of this colour.
    pub fn to_code(self) -> (r: u8)
        ensures
            r == code_spec(self),
            r < 8,
    {
        match self {
            Palette8::Black => 0,
            Palette8::Blue => 1,
            Palette8::Green => 2,
            Palette8::Cyan => 3,
            Palette8::Red => 4,
            Palette8::Pink => 5,
            Palette8::Yellow => 6,
            Palette8::White => 7,
        }
    }

    /// The colour for a 3-bit code.  Total: every code above 7 decodes to
    /// Black rather than failing.
    pub fn from_code(value: u8) -> (r: Palette8)
        ensures
            r == colour_for_code(value),
    {
        match value {
            1 => Palette8::Blue,
            2 => Palette8::Green,
            3 => Palette8::Cyan,
            4 => Palette8::Red,
            5 => Palette8::Pink,
            6 => Palette8::Yellow,
            7 => Palette8::White,
            _ => Palette8::Black,
        }
    }

    /// The nibble under which this colour is stored: the code doubled.
    pub fn nibble(self) -> (r: u8)
        ensures
            r == nibble_spec(self),
            r < 16,
            r & 1 == 0,
    {
        let r = self.to_code() * 2;
        proof {
            assert(r < 16);
            assert(r % 2 == 0);
            assert(r & 1 == r % 2) by (bit_vector);
        }
        r
    }

    /// The colour stored in a nibble.  Total: a nibble with bit 0 set, or a
    /// code above 7, decodes to Black rather than failing.
    pub fn from_nibble(value: u8) -> (r: Palette8)
        ensures
            r == colour_for_nibble(value),
    {
        if value & 1 == 1 {
            Palette8::Black
        } else {
            Palette8::from_code(value / 2)
        }
    }

    /// Converts two colours into a single byte for the display: `a` lands in
    /// the high nibble, `b` in the low nibble.
    pub fn colors_byte(a: Palette8, b: Palette8) -> (r: u8)
        ensures
            r == colors_byte_spec(a, b),
    {
        a.nibble() * 16 + b.nibble()
    }
}

/// Law: encoding a colour and decoding the code gives the colour back, for
/// all eight palette values.
pub proof fn lemma_code_round_trip(c: Palette8)
    ensures
        colour_for_code(code_spec(c)) == c,
{
}

/// Law: a colour's stored nibble decodes back to the colour, for all eight
/// palette values.
pub proof fn lemma_nibble_round_trip(c: Palette8)
    ensures
        colour_for_nibble(nibble_spec(c)) == c,
{
    let co = code_spec(c);
    assert(((co * 2) as u8) & 1 == 0 && ((co * 2) as u8) / 2 == co) by (bit_vector)
        requires co < 8;
}

} // verus!
