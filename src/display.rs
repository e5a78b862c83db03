use vstd::prelude::*;
use crate::bus::Bus;

verus! {

/// `(SCY, SCX)` of the machine's LCD.
pub fn get_scroll_data(bus: &Bus) -> (r: (u8, u8))
    ensures
        r == (bus.io.lcd.scroll_y, bus.io.lcd.scroll_x),
{
    bus.io.lcd.get_scroll_data()
}

} // verus!
