//! RGB colors and the four display shades.
use vstd::prelude::*;

verus! {

#[derive(Clone, Copy, PartialEq, Eq, Structural, Debug)]
pub struct Color {
    pub red: u8,
    pub green: u8,
    pub blue: u8,
}

/// The color of each 2-bit shade: white, light gray, dark gray, black.
pub open spec fn shade_color(shade: u8) -> Color {
    if shade == 0 {
        Color { red: 255, green: 255, blue: 255 }
    } else if shade == 1 {
        Color { red: 192, green: 192, blue: 192 }
    } else if shade == 2 {
        Color { red: 96, green: 96, blue: 96 }
    } else {
        Color { red: 0, green: 0, blue: 0 }
    }
}

impl Color {
    pub open spec fn white_spec() -> Color {
        shade_color(0)
    }

    /// The packed value `0x00RRGGBB`.
    pub open spec fn packed(self) -> u32 {
        (self.blue as int + self.green as int * 0x100 + self.red as int * 0x10000) as u32
    }

    pub fn from(red: u8, green: u8, blue: u8) -> (r: Self)
        ensures
            r == (Color { red, green, blue }),
    {
        Color { red, green, blue }
    }

    pub fn as_u32(&self) -> (r: u32)
        ensures
            r == self.packed(),
    {
        (self.blue as u32) + (self.green as u32) * 0x100 + (self.red as u32) * 0x10000
    }

    pub fn white() -> (r: Self)
        ensures
            r == Color::white_spec(),
    {
        Color { red: 255, green: 255, blue: 255 }
    }

    /// The color of a 2-bit shade; values above 3 are taken as black.
    pub fn of_shade(shade: u8) -> (r: Self)
        ensures
            r == shade_color(shade),
    {
        if shade == 0 {
            Color { red: 255, green: 255, blue: 255 }
        } else if shade == 1 {
            Color { red: 192, green: 192, blue: 192 }
        } else if shade == 2 {
            Color { red: 96, green: 96, blue: 96 }
        } else {
            Color { red: 0, green: 0, blue: 0 }
        }
    }
}

} // verus!
