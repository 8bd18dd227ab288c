//! The joypad latch: eight buttons held as a pressed-bit byte, and the P1
//! register that exposes one selected nibble with pressed bits reading as 0.
use vstd::prelude::*;

verus! {

#[derive(Clone, Copy, PartialEq, Eq, Structural, Debug)]
pub enum JoypadInput {
    A,
    B,
    Select,
    Start,
    Right,
    Left,
    Up,
    Down,
}

#[derive(Clone, Copy, PartialEq, Eq, Structural, Debug)]
pub enum JoypadEvent {
    Down(JoypadInput),
    Up(JoypadInput),
}

/// The bit each button occupies in the pressed byte: the action group in the
/// low nibble, the direction group in the high nibble.
pub open spec fn spec_button_mask(input: JoypadInput) -> u8 {
    match input {
        JoypadInput::A => 0x01,
        JoypadInput::B => 0x02,
        JoypadInput::Select => 0x04,
        JoypadInput::Start => 0x08,
        JoypadInput::Right => 0x10,
        JoypadInput::Left => 0x20,
        JoypadInput::Up => 0x40,
        JoypadInput::Down => 0x80,
    }
}

#[derive(Clone, Copy, PartialEq, Eq, Structural, Debug)]
pub struct Joypad {
    /// Bit set = button currently pressed. Low nibble A/B/Select/Start,
    /// high nibble Right/Left/Up/Down.
    pub pressed: u8,
    /// The selection bits last written to P1 (bit 4 selects the direction
    /// group, bit 5 the action group; 0 = selected).
    pub select: u8,
}

impl Joypad {
    /// The composite P1 byte: top two bits read 1, bits 4-5 echo the
    /// selection, and each selected group pulls its pressed bits low.
    pub open spec fn spec_p1(self) -> u8 {
        let action = if self.select & 0x20 == 0 {
            self.pressed & 0x0F
        } else {
            0
        };
        let direction = if self.select & 0x10 == 0 {
            self.pressed / 16
        } else {
            0
        };
        (0xC0 | (self.select & 0x30) | (0x0F & !(action | direction))) as u8
    }

    pub fn new() -> (r: Joypad)
        ensures
            r == (Joypad { pressed: 0, select: 0x30 }),
    {
        Joypad { pressed: 0, select: 0x30 }
    }

    /// Apply one event. Returns true exactly when a button newly went down
    /// while its group is selected: the high-to-low transition that
    /// requests a Joypad interrupt.
    pub fn handle_event(&mut self, event: JoypadEvent) -> (interrupted: bool)
        ensures
            ({
                match event {
                    JoypadEvent::Down(input) => final(self).pressed == old(self).pressed
                        | spec_button_mask(input) && interrupted == (old(self).pressed
                        & spec_button_mask(input) == 0 && (if spec_button_mask(input) < 0x10 {
                        old(self).select & 0x20 == 0
                    } else {
                        old(self).select & 0x10 == 0
                    })),
                    JoypadEvent::Up(input) => final(self).pressed == old(self).pressed & !(
                    spec_button_mask(input)) && !interrupted,
                }
            }),
            final(self).select == old(self).select,
    {
        match event {
            JoypadEvent::Down(input) => {
                let mask = button_mask(input);
                let fresh = self.pressed & mask == 0;
                self.pressed = self.pressed | mask;
                fresh && (if mask < 0x10 {
                    self.select & 0x20 == 0
                } else {
                    self.select & 0x10 == 0
                })
            },
            JoypadEvent::Up(input) => {
                let mask = button_mask(input);
                self.pressed = self.pressed & !mask;
                false
            },
        }
    }

    /// Read P1.
    pub fn read_p1(&self) -> (r: u8)
        ensures
            r == self.spec_p1(),
    {
        let action: u8 = if self.select & 0x20 == 0 {
            self.pressed & 0x0F
        } else {
            0
        };
        let direction: u8 = if self.select & 0x10 == 0 {
            self.pressed / 16
        } else {
            0
        };
        0xC0 | (self.select & 0x30) | (0x0F & !(action | direction))
    }

    /// Write P1: only the two selection bits are stored.
    pub fn write_p1(&mut self, v: u8)
        ensures
            final(self).select == v & 0x30,
            final(self).pressed == old(self).pressed,
    {
        self.select = v & 0x30;
    }
}

pub fn button_mask(input: JoypadInput) -> (r: u8)
    ensures
        r == spec_button_mask(input),
{
    match input {
        JoypadInput::A => 0x01,
        JoypadInput::B => 0x02,
        JoypadInput::Select => 0x04,
        JoypadInput::Start => 0x08,
        JoypadInput::Right => 0x10,
        JoypadInput::Left => 0x20,
        JoypadInput::Up => 0x40,
        JoypadInput::Down => 0x80,
    }
}

} // verus!
