use vstd::prelude::*;

verus! {

/// Interrupt request bits of `IE` and `IF`.
pub const VBLANK_BIT: u8 = 0x01;
pub const LCD_BIT: u8 = 0x02;
pub const TIMER_BIT: u8 = 0x04;
pub const SERIAL_BIT: u8 = 0x08;
pub const JOYPAD_BIT: u8 = 0x10;

/// The interrupt controller: the enable mask `IE` (`0xFFFF`), the request
/// mask `IF` (`0xFF0F`) and the master enable `IME`.
pub struct Interrupt {
    pub interrupt_master_enable: bool,
    pub interrupt_enable: u8,
    pub interrupt_flag: u8,
}

/// The requests that are both enabled and raised, over the five sources.
pub open spec fn pending_mask(ie: u8, iflag: u8) -> u8 {
    ie & iflag & 0x1F
}

impl Interrupt {
    /// The controller after writing `value` to `IE` (`0xFFFF`) or `IF` (`0xFF0F`).
    pub open spec fn write_spec(self, address: u16, value: u8) -> Interrupt {
        if address == 0xFFFF {
            Interrupt { interrupt_enable: value, ..self }
        } else {
            Interrupt { interrupt_flag: value, ..self }
        }
    }

    /// `IE ∧ IF`, over the five interrupt sources.
    pub open spec fn pending(&self) -> u8 {
        pending_mask(self.interrupt_enable, self.interrupt_flag)
    }

    pub fn default() -> (r: Interrupt)
        ensures
            r.interrupt_master_enable,
            r.interrupt_enable == 0,
            r.interrupt_flag == 0,
    {
        Interrupt { interrupt_master_enable: true, interrupt_enable: 0, interrupt_flag: 0 }
    }

    pub fn disable_interrupts(&mut self)
        ensures
            !final(self).interrupt_master_enable,
            final(self).interrupt_enable == old(self).interrupt_enable,
            final(self).interrupt_flag == old(self).interrupt_flag,
    {
        self.interrupt_master_enable = false;
    }

    pub fn enable_interrupts(&mut self)
        ensures
            final(self).interrupt_master_enable,
            final(self).interrupt_enable == old(self).interrupt_enable,
            final(self).interrupt_flag == old(self).interrupt_flag,
    {
        self.interrupt_master_enable = true;
    }

    /// Writes `IE` (`0xFFFF`) or `IF` (`0xFF0F`).
    pub fn write_u8(&mut self, address: u16, value: u8)
        requires
            address == 0xFFFF || address == 0xFF0F,
        ensures
            *final(self) == old(self).write_spec(address, value),
            final(self).interrupt_master_enable == old(self).interrupt_master_enable,
            address == 0xFFFF ==> final(self).interrupt_enable == value && final(self).interrupt_flag == old(self).interrupt_flag,
            address == 0xFF0F ==> final(self).interrupt_flag == value && final(self).interrupt_enable == old(self).interrupt_enable,
    {
        if address == 0xFFFF {
            self.interrupt_enable = value;
        } else {
            self.interrupt_flag = value;
        }
    }

    /// Reads `IE` (`0xFFFF`) or `IF` (`0xFF0F`).
    pub fn read_u8(&self, address: u16) -> (r: u8)
        requires
            address == 0xFFFF || address == 0xFF0F,
        ensures
            r == (if address == 0xFFFF {
                self.interrupt_enable
            } else {
                self.interrupt_flag
            }),
    {
        if address == 0xFFFF {
            self.interrupt_enable
        } else {
            self.interrupt_flag
        }
    }

    /// The requests that may be dispatched now: `IE ∧ IF` when `IME` is set, else 0.
    pub fn check_interrupts(&self) -> (r: u8)
        ensures
            r == (if self.interrupt_master_enable {
                self.pending()
            } else {
                0
            }),
    {
        if self.interrupt_master_enable {
            self.interrupt_enable & self.interrupt_flag & 0x1F
        } else {
            0
        }
    }

    /// Whether some request is both enabled and raised, whatever `IME` says.
    pub fn has_interrupts(&self) -> (r: bool)
        ensures
            r == (self.pending() != 0),
    {
        self.interrupt_enable & self.interrupt_flag & 0x1F != 0
    }

    pub fn is_timer_interrupt(&self) -> (r: bool)
        ensures
            r == (self.pending() & TIMER_BIT != 0),
    {
        self.pending_now() & TIMER_BIT != 0
    }

    pub fn is_vblank_interrupt(&self) -> (r: bool)
        ensures
            r == (self.pending() & VBLANK_BIT != 0),
    {
        self.pending_now() & VBLANK_BIT != 0
    }

    pub fn is_lcd_interrupt(&self) -> (r: bool)
        ensures
            r == (self.pending() & LCD_BIT != 0),
    {
        self.pending_now() & LCD_BIT != 0
    }

    pub fn is_serial_interrupt(&self) -> (r: bool)
        ensures
            r == (self.pending() & SERIAL_BIT != 0),
    {
        self.pending_now() & SERIAL_BIT != 0
    }

    pub fn is_joypad_interrupt(&self) -> (r: bool)
        ensures
            r == (self.pending() & JOYPAD_BIT != 0),
    {
        self.pending_now() & JOYPAD_BIT != 0
    }

    fn pending_now(&self) -> (r: u8)
        ensures
            r == self.pending(),
    {
        self.interrupt_enable & self.interrupt_flag & 0x1F
    }

    /// Raises the request bits of `mask` in `IF`.
    pub fn request(&mut self, mask: u8)
        ensures
            final(self).interrupt_flag == old(self).interrupt_flag | mask,
            final(self).interrupt_enable == old(self).interrupt_enable,
            final(self).interrupt_master_enable == old(self).interrupt_master_enable,
    {
        self.interrupt_flag = self.interrupt_flag | mask;
    }

    /// Clears the request bits of `mask` in `IF`.
    pub fn acknowledge(&mut self, mask: u8)
        ensures
            final(self).interrupt_flag == old(self).interrupt_flag & !mask,
            final(self).interrupt_enable == old(self).interrupt_enable,
            final(self).interrupt_master_enable == old(self).interrupt_master_enable,
    {
        self.interrupt_flag = self.interrupt_flag & !mask;
    }

    pub fn disable_timer_interrupt(&mut self)
        ensures
            final(self).interrupt_flag == old(self).interrupt_flag & !TIMER_BIT,
            final(self).interrupt_enable == old(self).interrupt_enable,
            final(self).interrupt_master_enable == old(self).interrupt_master_enable,
    {
        self.acknowledge(TIMER_BIT);
    }

    pub fn set_timer_interrupt(&mut self)
        ensures
            final(self).interrupt_flag == old(self).interrupt_flag | TIMER_BIT,
            final(self).interrupt_enable == old(self).interrupt_enable,
            final(self).interrupt_master_enable == old(self).interrupt_master_enable,
    {
        self.request(TIMER_BIT);
    }

    pub fn disable_vblank_interrupt(&mut self)
        ensures
            final(self).interrupt_flag == old(self).interrupt_flag & !VBLANK_BIT,
            final(self).interrupt_enable == old(self).interrupt_enable,
            final(self).interrupt_master_enable == old(self).interrupt_master_enable,
    {
        self.acknowledge(VBLANK_BIT);
    }

    pub fn set_vblank_interrupt(&mut self)
        ensures
            final(self).interrupt_flag == old(self).interrupt_flag | VBLANK_BIT,
            final(self).interrupt_enable == old(self).interrupt_enable,
            final(self).interrupt_master_enable == old(self).interrupt_master_enable,
    {
        self.request(VBLANK_BIT);
    }

    pub fn set_lcd_interrupt(&mut self)
        ensures
            final(self).interrupt_flag == old(self).interrupt_flag | LCD_BIT,
            final(self).interrupt_enable == old(self).interrupt_enable,
            final(self).interrupt_master_enable == old(self).interrupt_master_enable,
    {
        self.request(LCD_BIT);
    }

    pub fn disable_lcd_interrupt(&mut self)
        ensures
            final(self).interrupt_flag == old(self).interrupt_flag & !LCD_BIT,
            final(self).interrupt_enable == old(self).interrupt_enable,
            final(self).interrupt_master_enable == old(self).interrupt_master_enable,
    {
        self.acknowledge(LCD_BIT);
    }
}

} // verus!
