use vstd::prelude::*;

verus! {

/// The colour-model speed switch `KEY1` (`0xFF4D`): this DMG core has no
/// double speed, so it reads `0xFF` and ignores writes.
pub struct CGBRegisters {
    pub key_1: u8,
}

impl CGBRegisters {
    pub fn default() -> (r: CGBRegisters)
        ensures
            r.key_1 == 0,
    {
        CGBRegisters { key_1: 0 }
    }

    pub fn read_u8(&self, address: u16) -> (r: u8)
        ensures
            r == 0xFF,
    {
        0xFF
    }

    pub fn write_u8(&mut self, address: u16, value: u8)
        ensures
            *final(self) == *old(self),
    {
    }
}

} // verus!
