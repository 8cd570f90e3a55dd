//! Joypad register (0xFF00): a multiplexed, active-low button matrix.
//!
//! Writing bit 5 low selects the action buttons (A, B, Select, Start); writing
//! bit 4 low selects the directions (Right, Left, Up, Down). Bits 0-3 then read
//! 0 for every pressed button of a selected group.

use vstd::prelude::*;

verus! {

/// The eight buttons, in host order 0..=7.
#[derive(Debug, Clone, Copy, PartialEq, Eq, Structural)]
pub enum Button {
    A,
    B,
    Select,
    Start,
    Right,
    Left,
    Up,
    Down,
}

impl Button {
    /// Host index of a button: A=0, B=1, Select=2, Start=3, Right=4, Left=5, Up=6, Down=7.
    pub open spec fn index(self) -> int {
        match self {
            Button::A => 0,
            Button::B => 1,
            Button::Select => 2,
            Button::Start => 3,
            Button::Right => 4,
            Button::Left => 5,
            Button::Up => 6,
            Button::Down => 7,
        }
    }

    /// The button with host index `value`; indices above 7 name no button.
    pub open spec fn spec_from_u8(value: u8) -> Option<Button> {
        if value == 0 {
            Some(Button::A)
        } else if value == 1 {
            Some(Button::B)
        } else if value == 2 {
            Some(Button::Select)
        } else if value == 3 {
            Some(Button::Start)
        } else if value == 4 {
            Some(Button::Right)
        } else if value == 5 {
            Some(Button::Left)
        } else if value == 6 {
            Some(Button::Up)
        } else if value == 7 {
            Some(Button::Down)
        } else {
            None
        }
    }

    /// Converts a host button index into a button; indices above 7 name no button.
    pub fn from_u8(value: u8) -> (r: Option<Button>)
        ensures
            r == Button::spec_from_u8(value),
            value <= 7 <==> r.is_some(),
            r.is_some() ==> r.unwrap().index() == value,
    {
        match value {
            0 => Some(Button::A),
            1 => Some(Button::B),
            2 => Some(Button::Select),
            3 => Some(Button::Start),
            4 => Some(Button::Right),
            5 => Some(Button::Left),
            6 => Some(Button::Up),
            7 => Some(Button::Down),
            _ => None,
        }
    }
}

/// Button states (true = pressed) and the two group-select latches.
#[derive(Clone, Copy)]
pub struct Joypad {
    pub a: bool,
    pub b: bool,
    pub select: bool,
    pub start: bool,
    pub right: bool,
    pub left: bool,
    pub up: bool,
    pub down: bool,
    pub select_buttons: bool,
    pub select_dpad: bool,
}

/// An output line of the matrix: low (0) while pulled, else its mask.
pub open spec fn line_level(pulled: bool, mask: u8) -> u8 {
    if pulled {
        0
    } else {
        mask
    }
}

impl Joypad {
    /// Whether `button` is currently held.
    pub open spec fn pressed(self, button: Button) -> bool {
        match button {
            Button::A => self.a,
            Button::B => self.b,
            Button::Select => self.select,
            Button::Start => self.start,
            Button::Right => self.right,
            Button::Left => self.left,
            Button::Up => self.up,
            Button::Down => self.down,
        }
    }

    /// The state after `button` is pressed or released.
    pub open spec fn with_button(self, button: Button, pressed: bool) -> Joypad {
        match button {
            Button::A => Joypad { a: pressed, ..self },
            Button::B => Joypad { b: pressed, ..self },
            Button::Select => Joypad { select: pressed, ..self },
            Button::Start => Joypad { start: pressed, ..self },
            Button::Right => Joypad { right: pressed, ..self },
            Button::Left => Joypad { left: pressed, ..self },
            Button::Up => Joypad { up: pressed, ..self },
            Button::Down => Joypad { down: pressed, ..self },
        }
    }

    /// Line `n` (0..=3) is pulled low when a selected group holds its button down.
    pub open spec fn line_pulled(self, n: int) -> bool {
        let action = if n == 0 {
            self.a
        } else if n == 1 {
            self.b
        } else if n == 2 {
            self.select
        } else {
            self.start
        };
        let direction = if n == 0 {
            self.right
        } else if n == 1 {
            self.left
        } else if n == 2 {
            self.up
        } else {
            self.down
        };
        (self.select_buttons && action) || (self.select_dpad && direction)
    }

    /// The byte read at 0xFF00: bits 6-7 set, bits 4-5 high for unselected
    /// groups, bits 0-3 low for pulled lines.
    pub open spec fn read_spec(self) -> u8 {
        0xC0u8 | line_level(self.select_buttons, 0x20) | line_level(self.select_dpad, 0x10)
            | line_level(self.line_pulled(3), 0x08) | line_level(self.line_pulled(2), 0x04)
            | line_level(self.line_pulled(1), 0x02) | line_level(self.line_pulled(0), 0x01)
    }

    /// The state after `value` is written to 0xFF00.
    pub open spec fn write_spec(self, value: u8) -> Joypad {
        Joypad { select_buttons: value & 0x20 == 0, select_dpad: value & 0x10 == 0, ..self }
    }

    /// A joypad with nothing pressed and no group selected.
    pub open spec fn power_on() -> Joypad {
        Joypad {
            a: false,
            b: false,
            select: false,
            start: false,
            right: false,
            left: false,
            up: false,
            down: false,
            select_buttons: false,
            select_dpad: false,
        }
    }

    /// A joypad with nothing pressed and no group selected.
    pub fn new() -> (r: Joypad)
        ensures
            r == Joypad::power_on(),
    {
        Joypad {
            a: false,
            b: false,
            select: false,
            start: false,
            right: false,
            left: false,
            up: false,
            down: false,
            select_buttons: false,
            select_dpad: false,
        }
    }

    /// Records that `button` went down or up.
    pub fn set_button(&mut self, button: Button, pressed: bool)
        ensures
            *final(self) == old(self).with_button(button, pressed),
    {
        match button {
            Button::A => self.a = pressed,
            Button::B => self.b = pressed,
            Button::Select => self.select = pressed,
            Button::Start => self.start = pressed,
            Button::Right => self.right = pressed,
            Button::Left => self.left = pressed,
            Button::Up => self.up = pressed,
            Button::Down => self.down = pressed,
        }
    }

    /// Reads the joypad register.
    pub fn read(&self) -> (r: u8)
        ensures
            r == self.read_spec(),
    {
        let l3: u8 = if (self.select_buttons && self.start) || (self.select_dpad && self.down) {
            0
        } else {
            0x08
        };
        let l2: u8 = if (self.select_buttons && self.select) || (self.select_dpad && self.up) {
            0
        } else {
            0x04
        };
        let l1: u8 = if (self.select_buttons && self.b) || (self.select_dpad && self.left) {
            0
        } else {
            0x02
        };
        let l0: u8 = if (self.select_buttons && self.a) || (self.select_dpad && self.right) {
            0
        } else {
            0x01
        };
        let s5: u8 = if self.select_buttons {
            0
        } else {
            0x20
        };
        let s4: u8 = if self.select_dpad {
            0
        } else {
            0x10
        };
        0xC0u8 | s5 | s4 | l3 | l2 | l1 | l0
    }

    /// Writes the joypad register: only the two select bits are kept.
    pub fn write(&mut self, value: u8)
        ensures
            *final(self) == old(self).write_spec(value),
    {
        self.select_buttons = value & 0x20 == 0;
        self.select_dpad = value & 0x10 == 0;
    }
}

/// Bits 6 and 7 of the joypad register always read 1, and an unselected
/// group leaves its select bit high.
pub proof fn lemma_joypad_high_bits(j: Joypad)
    ensures
        j.read_spec() & 0xC0 == 0xC0,
        !j.select_buttons ==> j.read_spec() & 0x20 == 0x20,
        !j.select_dpad ==> j.read_spec() & 0x10 == 0x10,
{
    let s5 = line_level(j.select_buttons, 0x20);
    let s4 = line_level(j.select_dpad, 0x10);
    let l3 = line_level(j.line_pulled(3), 0x08);
    let l2 = line_level(j.line_pulled(2), 0x04);
    let l1 = line_level(j.line_pulled(1), 0x02);
    let l0 = line_level(j.line_pulled(0), 0x01);
    let r = 0xC0u8 | s5 | s4 | l3 | l2 | l1 | l0;
    assert(r & 0xC0 == 0xC0 && (s5 == 0x20 ==> r & 0x20 == 0x20) && (s4 == 0x10 ==> r & 0x10
        == 0x10)) by (bit_vector)
        requires
            r == 0xC0u8 | s5 | s4 | l3 | l2 | l1 | l0,
    ;
}

/// With neither group selected, or with nothing pressed, the low nibble reads 0xF;
/// a pressed button of a selected group reads 0 on its line.
pub proof fn lemma_joypad_active_low(j: Joypad, n: int)
    requires
        0 <= n <= 3,
    ensures
        j.line_pulled(n) <==> j.read_spec() & (1u8 << (n as u8)) == 0,
{
    let s5 = line_level(j.select_buttons, 0x20);
    let s4 = line_level(j.select_dpad, 0x10);
    let l3 = line_level(j.line_pulled(3), 0x08);
    let l2 = line_level(j.line_pulled(2), 0x04);
    let l1 = line_level(j.line_pulled(1), 0x02);
    let l0 = line_level(j.line_pulled(0), 0x01);
    let r = 0xC0u8 | s5 | s4 | l3 | l2 | l1 | l0;
    assert((r & (1u8 << 0u8) == 0 <==> l0 == 0) && (r & (1u8 << 1u8) == 0 <==> l1 == 0) && (r & (
    1u8 << 2u8) == 0 <==> l2 == 0) && (r & (1u8 << 3u8) == 0 <==> l3 == 0)) by (bit_vector)
        requires
            r == 0xC0u8 | s5 | s4 | l3 | l2 | l1 | l0,
            s5 == 0 || s5 == 0x20,
            s4 == 0 || s4 == 0x10,
            l3 == 0 || l3 == 0x08,
            l2 == 0 || l2 == 0x04,
            l1 == 0 || l1 == 0x02,
            l0 == 0 || l0 == 0x01,
    ;
}

} // verus!
