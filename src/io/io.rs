use vstd::prelude::*;
use crate::io::cgb_registers::CGBRegisters;
use crate::io::interrupts::Interrupt;
use crate::io::joypad::Joypad;
use crate::io::lcd::LCD;
use crate::io::oam::ObjectAttributeMemory;
use crate::io::serial::Serial;
use crate::io::sound::Sound;
use crate::io::timer::Timer;
use crate::io::vram::VRam;

verus! {

/// Which block of the I/O side an address belongs to.
#[derive(Clone, Copy, PartialEq, Eq, Structural, Debug)]
pub enum IOMap {
    Timer,
    Interrupt,
    Sound,
    LCD,
    VRam,
    OAM,
    Serial,
    CGBRegisters,
    Joypad,
    Unused,
}

/// The block that owns `address`; addresses that no block owns are `Unused`.
pub open spec fn io_map(address: u16) -> IOMap {
    if address == 0xFF01 || address == 0xFF02 {
        IOMap::Serial
    } else if address == 0xFF4F || (0x8000 <= address <= 0x9FFF) {
        IOMap::VRam
    } else if address == 0xFF46 || (0xFE00 <= address <= 0xFE9F) {
        IOMap::OAM
    } else if 0xFF04 <= address <= 0xFF07 {
        IOMap::Timer
    } else if (0xFF10 <= address <= 0xFF26) || (0xFF30 <= address <= 0xFF3F) {
        IOMap::Sound
    } else if 0xFF40 <= address <= 0xFF4B {
        IOMap::LCD
    } else if address == 0xFF4D {
        IOMap::CGBRegisters
    } else if address == 0xFF0F || address == 0xFFFF {
        IOMap::Interrupt
    } else if address == 0xFF00 {
        IOMap::Joypad
    } else {
        IOMap::Unused
    }
}

impl IOMap {
    pub fn parse_address(address: u16) -> (r: IOMap)
        ensures
            r == io_map(address),
    {
        if address == 0xFF01 || address == 0xFF02 {
            IOMap::Serial
        } else if address == 0xFF4F || (0x8000 <= address && address <= 0x9FFF) {
            IOMap::VRam
        } else if address == 0xFF46 || (0xFE00 <= address && address <= 0xFE9F) {
            IOMap::OAM
        } else if 0xFF04 <= address && address <= 0xFF07 {
            IOMap::Timer
        } else if (0xFF10 <= address && address <= 0xFF26) || (0xFF30 <= address && address
            <= 0xFF3F) {
            IOMap::Sound
        } else if 0xFF40 <= address && address <= 0xFF4B {
            IOMap::LCD
        } else if address == 0xFF4D {
            IOMap::CGBRegisters
        } else if address == 0xFF0F || address == 0xFFFF {
            IOMap::Interrupt
        } else if address == 0xFF00 {
            IOMap::Joypad
        } else {
            IOMap::Unused
        }
    }
}

/// The memory-mapped devices: VRAM, OAM, the I/O registers and `IE`.
pub struct IO {
    pub timer: Timer,
    pub interrupt: Interrupt,
    pub sound: Sound,
    pub lcd: LCD,
    pub vram: VRam,
    pub serial: Serial,
    pub cgb_registers: CGBRegisters,
    pub oam: ObjectAttributeMemory,
    pub joypad: Joypad,
}

impl IO {
    pub open spec fn wf(&self) -> bool {
        &&& self.lcd.wf()
        &&& self.vram.wf()
        &&& self.oam.wf()
    }

    /// The value `address` reads.
    pub open spec fn read_spec(&self, address: u16) -> u8 {
        match io_map(address) {
            IOMap::Serial => if address == 0xFF01 {
                self.serial.transfer_data
            } else {
                self.serial.transfer_control
            },
            IOMap::Timer => self.timer.read_spec(address),
            IOMap::LCD => self.lcd.register(address),
            IOMap::VRam => self.vram.read_spec(address),
            IOMap::OAM => self.oam.read_spec(address),
            IOMap::Interrupt => if address == 0xFFFF {
                self.interrupt.interrupt_enable
            } else {
                self.interrupt.interrupt_flag
            },
            IOMap::Sound => self.sound.read_spec(address),
            IOMap::CGBRegisters => 0xFF,
            IOMap::Joypad => self.joypad.read_spec(),
            IOMap::Unused => 0xFF,
        }
    }

    /// Whether `new` is these devices after writing `value` to `address`:
    /// the owning block takes the write, the others are unchanged.
    pub open spec fn written(&self, new: &IO, address: u16, value: u8) -> bool {
        let m = io_map(address);
        &&& (if m == IOMap::Timer {
            new.timer == self.timer.write_spec(address, value)
        } else {
            new.timer == self.timer
        })
        &&& (if m == IOMap::Interrupt {
            new.interrupt == self.interrupt.write_spec(address, value)
        } else {
            new.interrupt == self.interrupt
        })
        &&& (if m == IOMap::Sound {
            new.sound == self.sound.write_spec(address, value)
        } else {
            new.sound == self.sound
        })
        &&& (if m == IOMap::LCD {
            new.lcd == self.lcd.write_spec(address, value)
        } else {
            new.lcd == self.lcd
        })
        &&& (if m == IOMap::VRam {
            new.vram.data@ == (if address == 0xFF4F {
                self.vram.data@
            } else {
                self.vram.data@.update(address - 0x8000, value)
            })
        } else {
            new.vram == self.vram
        })
        &&& (if m == IOMap::Serial {
            new.serial == self.serial.write_spec(address, value)
        } else {
            new.serial == self.serial
        })
        &&& new.cgb_registers == self.cgb_registers
        &&& (if m == IOMap::OAM {
            self.oam.written(&new.oam, address, value)
        } else {
            new.oam == self.oam
        })
        &&& (if m == IOMap::Joypad {
            new.joypad == self.joypad.write_spec(value)
        } else {
            new.joypad == self.joypad
        })
    }

    pub fn default() -> (r: IO)
        ensures
            r.wf(),
            r.interrupt.interrupt_master_enable,
            r.interrupt.interrupt_enable == 0 && r.interrupt.interrupt_flag == 0,
            r.lcd.lcd_y_coordinate == 0 && r.lcd.lcd_y_cycles == 0,
            r.lcd.lcd_control == 0x91 && r.lcd.lcd_status == 0x85,
            r.timer.m_cycles == 0 && r.timer.tima == 0 && r.timer.tma == 0 && r.timer.tac == 0,
            !r.oam.dma_transfer,
    {
        IO {
            timer: Timer::default(),
            interrupt: Interrupt::default(),
            sound: Sound::default(),
            lcd: LCD::default(),
            vram: VRam::default(),
            serial: Serial::default(),
            cgb_registers: CGBRegisters::default(),
            oam: ObjectAttributeMemory::default(),
            joypad: Joypad::default(),
        }
    }

    /// Forwards a write to the block that owns `address`; writes to addresses
    /// that no block owns are ignored.
    pub fn write_u8(&mut self, address: u16, value: u8)
        requires
            old(self).wf(),
        ensures
            final(self).wf(),
            old(self).written(final(self), address, value),
    {
        let io_map = IOMap::parse_address(address);
        match io_map {
            IOMap::Serial => self.serial.write_u8(address, value),
            IOMap::Timer => self.timer.write_u8(address, value),
            IOMap::Interrupt => self.interrupt.write_u8(address, value),
            IOMap::Sound => self.sound.write_u8(address, value),
            IOMap::LCD => self.lcd.write_u8(address, value),
            IOMap::VRam => self.vram.write_u8(address, value),
            IOMap::OAM => self.oam.write_u8(address, value),
            IOMap::CGBRegisters => self.cgb_registers.write_u8(address, value),
            IOMap::Joypad => self.joypad.write_u8(address, value),
            IOMap::Unused => {},
        }
    }

    /// Forwards a read to the block that owns `address`; addresses that no
    /// block owns read `0xFF`.
    pub fn read_u8(&self, address: u16) -> (r: u8)
        requires
            self.wf(),
        ensures
            r == self.read_spec(address),
    {
        let io_map = IOMap::parse_address(address);
        match io_map {
            IOMap::Serial => self.serial.read_u8(address),
            IOMap::Timer => self.timer.read_u8(address),
            IOMap::LCD => self.lcd.read_u8(address),
            IOMap::VRam => self.vram.read_u8(address),
            IOMap::OAM => self.oam.read_u8(address),
            IOMap::Interrupt => self.interrupt.read_u8(address),
            IOMap::Sound => self.sound.read_u8(address),
            IOMap::CGBRegisters => self.cgb_registers.read_u8(address),
            IOMap::Joypad => self.joypad.read_u8(address),
            IOMap::Unused => 0xFF,
        }
    }
}

} // verus!
