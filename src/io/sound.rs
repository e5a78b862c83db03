use vstd::prelude::*;

verus! {

/// The sound block: only `NR50` (`0xFF24`), `NR51` (`0xFF25`) and the power
/// bit of `NR52` (`0xFF26`, bit 7) hold state; other sound registers read
/// `0xFF` and ignore writes.
pub struct Sound {
    pub channel_control: u8,
    pub output_terminal: u8,
    pub sound_on: u8,
}

impl Sound {
    /// The sound registers after writing `value` to `address`.
    pub open spec fn write_spec(self, address: u16, value: u8) -> Sound {
        if address == 0xFF24 {
            Sound { channel_control: value, ..self }
        } else if address == 0xFF25 {
            Sound { output_terminal: value, ..self }
        } else if address == 0xFF26 {
            Sound { sound_on: ((self.sound_on & 0x7F) | (value & 0x80)) as u8, ..self }
        } else {
            self
        }
    }

    /// The value `address` reads.
    pub open spec fn read_spec(self, address: u16) -> u8 {
        if address == 0xFF24 {
            self.channel_control
        } else if address == 0xFF25 {
            self.output_terminal
        } else if address == 0xFF26 {
            self.sound_on
        } else {
            0xFF
        }
    }

    pub fn default() -> (r: Sound)
        ensures
            r.channel_control == 0 && r.output_terminal == 0 && r.sound_on == 0xF1,
    {
        Sound { channel_control: 0, output_terminal: 0, sound_on: 0xF1 }
    }

    pub fn write_u8(&mut self, address: u16, value: u8)
        ensures
            *final(self) == old(self).write_spec(address, value),
    {
        if address == 0xFF24 {
            self.channel_control = value;
        } else if address == 0xFF25 {
            self.output_terminal = value;
        } else if address == 0xFF26 {
            self.sound_on = (self.sound_on & 0x7F) | (value & 0x80);
        }
    }

    pub fn read_u8(&self, address: u16) -> (r: u8)
        ensures
            r == self.read_spec(address),
    {
        if address == 0xFF24 {
            self.channel_control
        } else if address == 0xFF25 {
            self.output_terminal
        } else if address == 0xFF26 {
            self.sound_on
        } else {
            0xFF
        }
    }
}

} // verus!
