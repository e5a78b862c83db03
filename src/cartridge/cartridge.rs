use vstd::prelude::*;
use crate::cartridge::cartridge_header::{
    CartridgeChipType, CartridgeError, CartridgeHeader, chip_of_code, header_error, header_ok,
    rom_bank_mask_of, supported_cartridge_type,
};

verus! {

/// Bytes of external RAM: 16 banks of 8 KiB.
pub const CARTRIDGE_RAM_SIZE: usize = 0x20000;

/// Bytes of one ROM bank.
pub const ROM_BANK_SIZE: usize = 0x4000;

/// Bytes of one external RAM bank.
pub const RAM_BANK_SIZE: usize = 0x2000;

/// Whether `address` belongs to the cartridge: ROM `0x0000..=0x7FFF` or
/// external RAM `0xA000..=0xBFFF`.
pub open spec fn is_cartridge_address(address: u16) -> bool {
    address <= 0x7FFF || (0xA000 <= address <= 0xBFFF)
}

/// Whether `Cartridge::new` accepts the ROM image `rom`.
pub open spec fn load_ok(rom: Seq<u8>) -> bool {
    header_ok(rom) && supported_cartridge_type(rom[0x147])
}

/// The error `Cartridge::new` reports for a ROM image it refuses.
pub open spec fn load_error(rom: Seq<u8>) -> CartridgeError {
    if !header_ok(rom) {
        header_error(rom)
    } else {
        CartridgeError::UnsupportedCartridgeType(rom[0x147])
    }
}

/// A cartridge: the ROM image and the state of its bank controller.
pub struct Cartridge {
    pub file_data: Vec<u8>,
    pub chip_type: CartridgeChipType,
    pub rom_bank: u8,
    pub header: CartridgeHeader,
    pub ram: Vec<u8>,
    pub ram_bank: u8,
    pub ram_enabled: bool,
}

impl Cartridge {
    pub open spec fn wf(&self) -> bool {
        &&& self.ram@.len() == CARTRIDGE_RAM_SIZE
        &&& self.ram_bank < 4
        &&& self.header.rom_size <= 0x07
        &&& (self.chip_type == CartridgeChipType::ROMOnly || self.chip_type == CartridgeChipType::MBC1
            || self.chip_type == CartridgeChipType::MBC3)
    }

    /// ROM byte at file offset `i`; past the end of the image it reads `0xFF`.
    pub open spec fn rom_byte(&self, i: int) -> u8 {
        if 0 <= i < self.file_data@.len() {
            self.file_data@[i]
        } else {
            0xFF
        }
    }

    /// The bank that the window `0x4000..=0x7FFF` shows: a selected bank 0 reads as bank 1.
    pub open spec fn effective_rom_bank(&self) -> int {
        if self.rom_bank == 0 {
            1
        } else {
            self.rom_bank as int
        }
    }

    /// Offset into external RAM of an address in `0xA000..=0xBFFF`.
    pub open spec fn ram_index(&self, address: u16) -> int {
        self.ram_bank * RAM_BANK_SIZE + (address - 0xA000)
    }

    /// The value `address` reads.
    pub open spec fn read_spec(&self, address: u16) -> u8 {
        if address <= 0x3FFF {
            self.rom_byte(address as int)
        } else if address <= 0x7FFF {
            if self.chip_type == CartridgeChipType::ROMOnly {
                self.rom_byte(address as int)
            } else {
                self.rom_byte((self.effective_rom_bank() - 1) * ROM_BANK_SIZE + address)
            }
        } else if self.chip_type != CartridgeChipType::ROMOnly && self.ram_enabled {
            self.ram@[self.ram_index(address)]
        } else {
            0xFF
        }
    }

    /// Whether `new` is this cartridge after writing `value` to `address`.
    pub open spec fn written(&self, new: &Cartridge, address: u16, value: u8) -> bool {
        &&& new.file_data@ == self.file_data@
        &&& new.chip_type == self.chip_type
        &&& new.header == self.header
        &&& if self.chip_type == CartridgeChipType::ROMOnly {
            &&& new.ram@ == self.ram@
            &&& new.rom_bank == self.rom_bank && new.ram_bank == self.ram_bank
            &&& new.ram_enabled == self.ram_enabled
        } else {
            &&& new.ram_enabled == (if address <= 0x1FFF {
                value & 0x0F == 0x0A
            } else {
                self.ram_enabled
            })
            &&& new.rom_bank == (if 0x2000 <= address <= 0x3FFF {
                value & rom_bank_mask_of(self.header.rom_size)
            } else {
                self.rom_bank
            })
            &&& new.ram_bank == (if 0x4000 <= address <= 0x5FFF {
                value & 0x03
            } else {
                self.ram_bank
            })
            &&& new.ram@ == (if 0xA000 <= address <= 0xBFFF && self.ram_enabled {
                self.ram@.update(self.ram_index(address), value)
            } else {
                self.ram@
            })
        }
    }

    /// Loads a ROM image. The header must be well formed and name a ROM-only,
    /// MBC1 or MBC3 cartridge.
    pub fn new(file_data: Vec<u8>) -> (r: Result<Cartridge, CartridgeError>)
        ensures
            r.is_ok() <==> load_ok(file_data@),
            !load_ok(file_data@) ==> r == Err::<Cartridge, CartridgeError>(load_error(file_data@)),
            r.is_ok() ==> ({
                let c = r.unwrap();
                &&& c.wf()
                &&& c.file_data@ == file_data@
                &&& c.header.of(file_data@)
                &&& c.chip_type == chip_of_code(file_data@[0x147])
                &&& c.rom_bank == 0 && c.ram_bank == 0 && !c.ram_enabled
            }),
    {
        let header = match CartridgeHeader::new(&file_data) {
            Ok(h) => h,
            Err(e) => {
                return Err(e);
            },
        };
        let chip_type = CartridgeChipType::from_cartridge_type(header.cartridge_type);
        match chip_type {
            CartridgeChipType::ROMOnly | CartridgeChipType::MBC1 | CartridgeChipType::MBC3 => {},
            _ => {
                return Err(CartridgeError::UnsupportedCartridgeType(file_data[0x147]));
            },
        }
        Ok(
            Cartridge {
                file_data,
                chip_type,
                header,
                rom_bank: 0,
                ram_bank: 0,
                ram_enabled: false,
                ram: vec![0u8; CARTRIDGE_RAM_SIZE],
            },
        )
    }

    /// ROM byte at file offset `i`, or `0xFF` past the end of the image.
    fn rom_at(&self, i: usize) -> (r: u8)
        ensures
            r == self.rom_byte(i as int),
    {
        if i < self.file_data.len() {
            self.file_data[i]
        } else {
            0xFF
        }
    }

    /// External RAM byte at `address`, or `0xFF` while RAM is disabled.
    fn read_ram(&self, address: u16) -> (r: u8)
        requires
            self.wf(),
            0xA000 <= address <= 0xBFFF,
        ensures
            r == (if self.ram_enabled {
                self.ram@[self.ram_index(address)]
            } else {
                0xFF
            }),
    {
        if self.ram_enabled {
            self.ram[(self.ram_bank as usize) * RAM_BANK_SIZE + (address as usize - 0xA000)]
        } else {
            0xFF
        }
    }

    /// A read through an MBC1 or MBC3 controller.
    fn read_u8_banked(&self, address: u16) -> (r: u8)
        requires
            self.wf(),
            self.chip_type != CartridgeChipType::ROMOnly,
            is_cartridge_address(address),
        ensures
            r == self.read_spec(address),
    {
        if address <= 0x3FFF {
            self.rom_at(address as usize)
        } else if address <= 0x7FFF {
            let rom_bank: usize = if self.rom_bank == 0 {
                0
            } else {
                (self.rom_bank - 1) as usize
            };
            self.rom_at(address as usize + rom_bank * ROM_BANK_SIZE)
        } else {
            self.read_ram(address)
        }
    }

    pub fn read_u8_mbc1(&self, address: u16) -> (r: u8)
        requires
            self.wf(),
            self.chip_type == CartridgeChipType::MBC1,
            is_cartridge_address(address),
        ensures
            r == self.read_spec(address),
    {
        self.read_u8_banked(address)
    }

    pub fn read_u8_mbc3(&self, address: u16) -> (r: u8)
        requires
            self.wf(),
            self.chip_type == CartridgeChipType::MBC3,
            is_cartridge_address(address),
        ensures
            r == self.read_spec(address),
    {
        self.read_u8_banked(address)
    }

    /// A read of a cartridge without a controller: the ROM directly, no RAM.
    pub fn read_u8_rom(&self, address: u16) -> (r: u8)
        requires
            self.wf(),
            self.chip_type == CartridgeChipType::ROMOnly,
            is_cartridge_address(address),
        ensures
            r == self.read_spec(address),
    {
        if address <= 0x7FFF {
            self.rom_at(address as usize)
        } else {
            0xFF
        }
    }

    pub fn read_u8(&self, address: u16) -> (r: u8)
        requires
            self.wf(),
            is_cartridge_address(address),
        ensures
            r == self.read_spec(address),
    {
        match self.chip_type {
            CartridgeChipType::MBC1 => self.read_u8_mbc1(address),
            CartridgeChipType::MBC3 => self.read_u8_mbc3(address),
            _ => self.read_u8_rom(address),
        }
    }

    /// Little-endian 16-bit read from ROM.
    pub fn read_u16(&self, address: u16) -> (r: u16)
        requires
            self.wf(),
            address < 0x7FFF,
        ensures
            r == self.read_spec(address) + 256 * self.read_spec((address + 1) as u16),
    {
        let low_byte = self.read_u8(address) as u16;
        let high_byte = self.read_u8(address + 1) as u16;
        high_byte * 256 + low_byte
    }

    /// A write through an MBC1 or MBC3 controller: RAM enable, ROM bank, RAM
    /// bank, banking mode (ignored) or external RAM.
    fn write_u8_banked(&mut self, address: u16, value: u8)
        requires
            old(self).wf(),
            old(self).chip_type != CartridgeChipType::ROMOnly,
            is_cartridge_address(address),
        ensures
            final(self).wf(),
            old(self).written(final(self), address, value),
    {
        if address <= 0x1FFF {
            self.ram_enabled = value & 0x0F == 0x0A;
        } else if address <= 0x3FFF {
            self.rom_bank = value & self.header.get_rom_bank_mask();
        } else if address <= 0x5FFF {
            let v = value & 0x03;
            assert(value & 0x03 < 4) by (bit_vector);
            self.ram_bank = v;
        } else if address <= 0x7FFF {
        } else if self.ram_enabled {
            let i = (self.ram_bank as usize) * RAM_BANK_SIZE + (address as usize - 0xA000);
            self.ram.set(i, value);
        }
    }

    fn write_u8_mbc1(&mut self, address: u16, value: u8)
        requires
            old(self).wf(),
            old(self).chip_type == CartridgeChipType::MBC1,
            is_cartridge_address(address),
        ensures
            final(self).wf(),
            old(self).written(final(self), address, value),
    {
        self.write_u8_banked(address, value);
    }

    pub fn write_u8_mbc3(&mut self, address: u16, value: u8)
        requires
            old(self).wf(),
            old(self).chip_type == CartridgeChipType::MBC3,
            is_cartridge_address(address),
        ensures
            final(self).wf(),
            old(self).written(final(self), address, value),
    {
        self.write_u8_banked(address, value);
    }

    /// Forwards a write to the controller; a ROM-only cartridge ignores it.
    pub fn write_u8(&mut self, address: u16, value: u8)
        requires
            old(self).wf(),
            is_cartridge_address(address),
        ensures
            final(self).wf(),
            old(self).written(final(self), address, value),
    {
        match self.chip_type {
            CartridgeChipType::MBC1 => self.write_u8_mbc1(address, value),
            CartridgeChipType::MBC3 => self.write_u8_mbc3(address, value),
            _ => {},
        }
    }
}

} // verus!
