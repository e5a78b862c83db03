use vstd::prelude::*;

verus! {

/// Which of the eight buttons are held.
#[derive(Clone, Copy)]
pub struct JoyPadButtons {
    pub right: bool,
    pub left: bool,
    pub up: bool,
    pub down: bool,
    pub a: bool,
    pub b: bool,
    pub select: bool,
    pub start: bool,
}

/// The nibble with bit 0..3 set for each of `b0..b3` that is held.
pub open spec fn held_bits(b0: bool, b1: bool, b2: bool, b3: bool) -> u8 {
    ((if b0 { 1int } else { 0 }) + (if b1 { 2int } else { 0 }) + (if b2 { 4int } else { 0 }) + (if b3 {
        8int
    } else {
        0
    })) as u8
}

fn held_nibble(b0: bool, b1: bool, b2: bool, b3: bool) -> (r: u8)
    ensures
        r == held_bits(b0, b1, b2, b3),
        r < 16,
{
    let mut n: u8 = 0;
    if b0 {
        n = n + 1;
    }
    if b1 {
        n = n + 2;
    }
    if b2 {
        n = n + 4;
    }
    if b3 {
        n = n + 8;
    }
    n
}

impl JoyPadButtons {
    pub fn default() -> (r: JoyPadButtons)
        ensures
            !r.right && !r.left && !r.up && !r.down,
            !r.a && !r.b && !r.select && !r.start,
    {
        JoyPadButtons {
            right: false,
            left: false,
            up: false,
            down: false,
            a: false,
            b: false,
            select: false,
            start: false,
        }
    }

    pub fn set_right(&mut self, pressed: bool)
        ensures
            *final(self) == (JoyPadButtons { right: pressed, ..*old(self) }),
    {
        self.right = pressed;
    }

    pub fn set_left(&mut self, pressed: bool)
        ensures
            *final(self) == (JoyPadButtons { left: pressed, ..*old(self) }),
    {
        self.left = pressed;
    }

    pub fn set_up(&mut self, pressed: bool)
        ensures
            *final(self) == (JoyPadButtons { up: pressed, ..*old(self) }),
    {
        self.up = pressed;
    }

    pub fn set_down(&mut self, pressed: bool)
        ensures
            *final(self) == (JoyPadButtons { down: pressed, ..*old(self) }),
    {
        self.down = pressed;
    }

    pub fn set_a(&mut self, pressed: bool)
        ensures
            *final(self) == (JoyPadButtons { a: pressed, ..*old(self) }),
    {
        self.a = pressed;
    }

    pub fn set_b(&mut self, pressed: bool)
        ensures
            *final(self) == (JoyPadButtons { b: pressed, ..*old(self) }),
    {
        self.b = pressed;
    }

    pub fn set_select(&mut self, pressed: bool)
        ensures
            *final(self) == (JoyPadButtons { select: pressed, ..*old(self) }),
    {
        self.select = pressed;
    }

    pub fn set_start(&mut self, pressed: bool)
        ensures
            *final(self) == (JoyPadButtons { start: pressed, ..*old(self) }),
    {
        self.start = pressed;
    }

    /// The direction group as the low nibble, a held button reading 0
    /// (right bit 0, left 1, up 2, down 3).
    pub fn direction_button_mask(&self) -> (r: u8)
        ensures
            r == 0x0F - held_bits(self.right, self.left, self.up, self.down),
    {
        0x0F - held_nibble(self.right, self.left, self.up, self.down)
    }

    /// The action group as the low nibble, a held button reading 0
    /// (A bit 0, B 1, select 2, start 3).
    pub fn action_button_mask(&self) -> (r: u8)
        ensures
            r == 0x0F - held_bits(self.a, self.b, self.select, self.start),
    {
        0x0F - held_nibble(self.a, self.b, self.select, self.start)
    }
}

/// The joypad register `JOYP` (`0xFF00`): bits 4 and 5 select the groups.
pub struct Joypad {
    pub joypad_state: u8,
    pub joypad_buttons: JoyPadButtons,
}

impl Joypad {
    /// Whether the action group is selected (bit 5 low).
    pub open spec fn action_selected(&self) -> bool {
        self.joypad_state & 0x20 == 0
    }

    /// Whether the direction group is selected (bit 4 low).
    pub open spec fn direction_selected(&self) -> bool {
        self.joypad_state & 0x10 == 0
    }

    /// The value `JOYP` reads: the low nibble of the selected groups, ANDed.
    pub open spec fn read_spec(&self) -> u8 {
        let b = self.joypad_buttons;
        let act: u8 = if self.action_selected() {
            (0x0F - held_bits(b.a, b.b, b.select, b.start)) as u8
        } else {
            0x0F
        };
        let dir: u8 = if self.direction_selected() {
            (0x0F - held_bits(b.right, b.left, b.up, b.down)) as u8
        } else {
            0x0F
        };
        act & dir
    }

    /// `JOYP` after writing `value`: the upper nibble comes from `value` (bits 4 and 5
    /// select the groups), the lower nibble is kept.
    pub open spec fn write_spec(self, value: u8) -> Joypad {
        Joypad { joypad_state: ((self.joypad_state & 0x0F) | (value & 0xF0)) as u8, ..self }
    }

    pub fn default() -> (r: Joypad)
        ensures
            r.joypad_state == 0x0F,
            r.joypad_buttons == JoyPadButtons::default_spec(),
    {
        Joypad { joypad_state: 0x0F, joypad_buttons: JoyPadButtons::default() }
    }

    pub fn read_joypad_buttons(&self) -> (r: u8)
        ensures
            r == self.read_spec(),
    {
        let act: u8 = if self.joypad_state & 0x20 == 0 {
            self.joypad_buttons.action_button_mask()
        } else {
            0x0F
        };
        let dir: u8 = if self.joypad_state & 0x10 == 0 {
            self.joypad_buttons.direction_button_mask()
        } else {
            0x0F
        };
        act & dir
    }

    pub fn read_u8(&self, address: u16) -> (r: u8)
        requires
            address == 0xFF00,
        ensures
            r == self.read_spec(),
    {
        self.read_joypad_buttons()
    }

    pub fn write_u8(&mut self, address: u16, value: u8)
        requires
            address == 0xFF00,
        ensures
            *final(self) == old(self).write_spec(value),
    {
        self.joypad_state = (self.joypad_state & 0x0F) | (value & 0xF0);
    }
}

impl JoyPadButtons {
    pub open spec fn default_spec() -> JoyPadButtons {
        JoyPadButtons {
            right: false,
            left: false,
            up: false,
            down: false,
            a: false,
            b: false,
            select: false,
            start: false,
        }
    }
}

} // verus!
