use vstd::prelude::*;

verus! {

/// The serial port registers `SB` (`0xFF01`) and `SC` (`0xFF02`); no transfer
/// takes place.
pub struct Serial {
    pub transfer_data: u8,
    pub transfer_control: u8,
}

impl Serial {
    /// The serial registers after writing `value` to `address`.
    pub open spec fn write_spec(self, address: u16, value: u8) -> Serial {
        if address == 0xFF01 {
            Serial { transfer_data: value, ..self }
        } else {
            Serial { transfer_control: value, ..self }
        }
    }

    pub fn default() -> (r: Serial)
        ensures
            r.transfer_data == 0 && r.transfer_control == 0,
    {
        Serial { transfer_data: 0, transfer_control: 0 }
    }

    pub fn read_u8(&self, address: u16) -> (r: u8)
        requires
            address == 0xFF01 || address == 0xFF02,
        ensures
            r == (if address == 0xFF01 {
                self.transfer_data
            } else {
                self.transfer_control
            }),
    {
        if address == 0xFF01 {
            self.transfer_data
        } else {
            self.transfer_control
        }
    }

    pub fn write_u8(&mut self, address: u16, value: u8)
        requires
            address == 0xFF01 || address == 0xFF02,
        ensures
            *final(self) == old(self).write_spec(address, value),
    {
        if address == 0xFF01 {
            self.transfer_data = value;
        } else {
            self.transfer_control = value;
        }
    }
}

} // verus!
