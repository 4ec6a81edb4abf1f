//! The joypad: eight buttons in two rows, exposed through one I/O register.
use vstd::prelude::*;

use crate::bus::Bus;

verus! {

pub const BUTTON_REGISTER_ADDRESS: u16 = 0xFF00;

/// The eight buttons: the direction row and the action row.
#[derive(Clone, Copy, PartialEq, Eq, Structural, Debug)]
pub enum Button {
    Down,
    Up,
    Left,
    Right,
    Start,
    Select,
    B,
    A,
}

impl Button {
    /// Whether the button sits in the direction row.
    pub open spec fn is_direction(self) -> bool {
        self == Button::Down || self == Button::Up || self == Button::Left || self == Button::Right
    }

    /// The button's bit within its row: Down/Start 3, Up/Select 2, Left/B 1, Right/A 0.
    pub open spec fn mask(self) -> u8 {
        match self {
            Button::Down | Button::Start => 8,
            Button::Up | Button::Select => 4,
            Button::Left | Button::B => 2,
            Button::Right | Button::A => 1,
        }
    }

    fn mask_of(&self) -> (r: u8)
        ensures
            r == self.mask(),
    {
        match self {
            Button::Down | Button::Start => 8,
            Button::Up | Button::Select => 4,
            Button::Left | Button::B => 2,
            Button::Right | Button::A => 1,
        }
    }
}

/// The rows that the program selected: a row is selected when its select bit
/// (bit 4 for directions, bit 5 for actions) is 0.
pub struct SelectedRows {
    pub first: bool,
    pub second: bool,
}

impl SelectedRows {
    pub fn fetch(bus: &Bus) -> (r: SelectedRows)
        requires
            bus.wf(),
        ensures
            r.first == (bus@.read(BUTTON_REGISTER_ADDRESS) & 0x10 == 0),
            r.second == (bus@.read(BUTTON_REGISTER_ADDRESS) & 0x20 == 0),
    {
        let raw = bus.fetch_byte(BUTTON_REGISTER_ADDRESS);
        SelectedRows { first: raw & 0x10 == 0, second: raw & 0x20 == 0 }
    }
}

/// Button state, active low: a clear bit is a pressed button.
pub struct Buttons {
    /// Direction keys.
    pub row_1: u8,
    /// Action keys.
    pub row_2: u8,
}

/// The value of the button register for the row selection in `raw`, upper nibble
/// all 1s: the direction row when bit 4 selects it, else the action row when bit 5
/// selects it. `None` when no row is selected: the register is left alone.
pub open spec fn register_value(b: Buttons, raw: u8) -> Option<u8> {
    if raw & 0x10 == 0 {
        Some(0xF0u8 | (b.row_1 & 0xFu8))
    } else if raw & 0x20 == 0 {
        Some(0xF0u8 | (b.row_2 & 0xFu8))
    } else {
        None
    }
}

impl Buttons {
    pub fn new() -> (r: Buttons)
        ensures
            r.row_1 == 0xF,
            r.row_2 == 0xF,
    {
        Buttons { row_1: 0xF, row_2: 0xF }
    }

    /// Marks `button` pressed.
    pub fn key_down(&mut self, button: Button)
        ensures
            button.is_direction() ==> final(self).row_1 == old(self).row_1 & !button.mask()
                && final(self).row_2 == old(self).row_2,
            !button.is_direction() ==> final(self).row_2 == old(self).row_2 & !button.mask()
                && final(self).row_1 == old(self).row_1,
    {
        let m = button.mask_of();
        match button {
            Button::Down | Button::Up | Button::Left | Button::Right => self.row_1 = self.row_1 & !m,
            _ => self.row_2 = self.row_2 & !m,
        }
    }

    /// Marks `button` released.
    pub fn key_up(&mut self, button: Button)
        ensures
            button.is_direction() ==> final(self).row_1 == old(self).row_1 | button.mask()
                && final(self).row_2 == old(self).row_2,
            !button.is_direction() ==> final(self).row_2 == old(self).row_2 | button.mask()
                && final(self).row_1 == old(self).row_1,
    {
        let m = button.mask_of();
        match button {
            Button::Down | Button::Up | Button::Left | Button::Right => self.row_1 = self.row_1 | m,
            _ => self.row_2 = self.row_2 | m,
        }
    }

    /// Sets `button` pressed or released.
    pub fn set_key(&mut self, button: Button, pressed: bool)
        ensures
            pressed && button.is_direction() ==> final(self).row_1 == old(self).row_1 & !button.mask()
                && final(self).row_2 == old(self).row_2,
            pressed && !button.is_direction() ==> final(self).row_2 == old(self).row_2
                & !button.mask() && final(self).row_1 == old(self).row_1,
            !pressed && button.is_direction() ==> final(self).row_1 == old(self).row_1
                | button.mask() && final(self).row_2 == old(self).row_2,
            !pressed && !button.is_direction() ==> final(self).row_2 == old(self).row_2
                | button.mask() && final(self).row_1 == old(self).row_1,
    {
        if pressed {
            self.key_down(button);
        } else {
            self.key_up(button);
        }
    }

    /// Writes the selected rows' state into the button register.
    pub fn update_register(&self, bus: &mut Bus)
        requires
            old(bus).wf(),
        ensures
            final(bus).wf(),
            match register_value(*self, old(bus)@.read(BUTTON_REGISTER_ADDRESS)) {
                Some(v) => final(bus)@ == old(bus)@.write(BUTTON_REGISTER_ADDRESS, v),
                None => final(bus)@ == old(bus)@,
            },
    {
        let rows = SelectedRows::fetch(bus);
        if rows.first {
            bus.set_byte(BUTTON_REGISTER_ADDRESS, 0xF0u8 | (self.row_1 & 0xFu8));
        } else if rows.second {
            bus.set_byte(BUTTON_REGISTER_ADDRESS, 0xF0u8 | (self.row_2 & 0xFu8));
        }
    }
}

} // verus!
