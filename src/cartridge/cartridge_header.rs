use vstd::prelude::*;
use byteorder::{BigEndian, ByteOrder};

verus! {

/// Bytes a ROM image needs to hold the whole header (`0x0100..=0x014F`).
pub const HEADER_END: usize = 0x150;

/// The memory bank controller family a cartridge uses.
#[derive(Clone, Copy, PartialEq, Eq, Structural, Debug)]
pub enum CartridgeChipType {
    ROMOnly,
    MBC1,
    MBC2,
    MBC3,
    MBC5,
    MBC6,
    MBC7,
    MMM01,
    HuC1,
    HuC3,
    Unknown,
}

/// The cartridge type byte at `0x0147`.
#[allow(non_camel_case_types)]
#[derive(Clone, Copy, PartialEq, Eq, Structural, Debug)]
pub enum CartridgeType {
    ROM,
    MBC1,
    MBC1_RAM,
    MBC1_RAM_BATTERY,
    MBC2,
    MBC2_BATTERY,
    ROM_RAM,
    ROM_RAM_BATTERY,
    MMM01,
    MMM01_RAM,
    MMM01_RAM_BATTERY,
    MBC3_TIMER_BATTERY,
    MBC3_TIMER_RAM_BATTERY,
    MBC3,
    MBC3_RAM,
    MBC3_RAM_BATTERY,
}

/// Why a ROM image cannot be loaded.
#[derive(Clone, Copy, PartialEq, Eq, Structural, Debug)]
pub enum CartridgeError {
    /// The image ends before the header does.
    HeaderTooShort,
    /// The byte at `0x0147` names no known cartridge type.
    InvalidCartridgeType(u8),
    /// The cartridge type is known but its controller is not emulated.
    UnsupportedCartridgeType(u8),
    /// The byte at `0x0148` is not a ROM size code `0x00..=0x07`.
    InvalidRomSize(u8),
    /// The byte at `0x0149` is not a RAM size code `0x00..=0x03`.
    InvalidRamSize(u8),
}

/// Whether `code` is a cartridge type byte this header format knows.
pub open spec fn known_cartridge_type(code: u8) -> bool {
    code <= 0x03 || code == 0x05 || code == 0x06 || code == 0x08 || code == 0x09 || (0x0B <= code
        <= 0x0D) || (0x0F <= code <= 0x13)
}

/// Whether cartridge type byte `code` is one whose controller is emulated:
/// ROM only, MBC1 (with RAM and battery) or MBC3 (with RAM and battery).
pub open spec fn supported_cartridge_type(code: u8) -> bool {
    code == 0x00 || (0x01 <= code <= 0x03) || (0x11 <= code <= 0x13)
}

/// The controller family of cartridge type byte `code`.
pub open spec fn chip_of_code(code: u8) -> CartridgeChipType {
    if code == 0x00 {
        CartridgeChipType::ROMOnly
    } else if 0x01 <= code <= 0x03 {
        CartridgeChipType::MBC1
    } else if 0x11 <= code <= 0x13 {
        CartridgeChipType::MBC3
    } else {
        CartridgeChipType::Unknown
    }
}

/// The ROM bank mask of ROM size code `code` (`0x00..=0x07`): `2^(code+1) - 1`.
pub open spec fn rom_bank_mask_of(code: u8) -> u8 {
    if code == 0 {
        0x01
    } else if code == 1 {
        0x03
    } else if code == 2 {
        0x07
    } else if code == 3 {
        0x0F
    } else if code == 4 {
        0x1F
    } else if code == 5 {
        0x3F
    } else if code == 6 {
        0x7F
    } else {
        0xFF
    }
}

/// The big-endian 32-bit value of four bytes.
pub open spec fn be_u32(b0: u8, b1: u8, b2: u8, b3: u8) -> u32 {
    (b0 as int * 0x1000000 + b1 as int * 0x10000 + b2 as int * 0x100 + b3 as int) as u32
}

/// Relies on byteorder's `BigEndian::read_u32`: the first four bytes of
/// `buf`, most significant first. It panics on fewer than four bytes.
#[verifier::external_body]
fn read_be_u32(buf: &[u8]) -> (r: u32)
    requires
        buf@.len() >= 4,
    ensures
        r == be_u32(buf@[0], buf@[1], buf@[2], buf@[3]),
{
    BigEndian::read_u32(buf)
}

impl CartridgeType {
    /// Decodes the cartridge type byte; `None` for an unknown code.
    pub fn from_u8(value: u8) -> (r: Option<CartridgeType>)
        ensures
            r.is_some() <==> known_cartridge_type(value),
            r.is_some() ==> r.unwrap().code() == value,
    {
        match value {
            0x00 => Some(CartridgeType::ROM),
            0x01 => Some(CartridgeType::MBC1),
            0x02 => Some(CartridgeType::MBC1_RAM),
            0x03 => Some(CartridgeType::MBC1_RAM_BATTERY),
            0x05 => Some(CartridgeType::MBC2),
            0x06 => Some(CartridgeType::MBC2_BATTERY),
            0x08 => Some(CartridgeType::ROM_RAM),
            0x09 => Some(CartridgeType::ROM_RAM_BATTERY),
            0x0B => Some(CartridgeType::MMM01),
            0x0C => Some(CartridgeType::MMM01_RAM),
            0x0D => Some(CartridgeType::MMM01_RAM_BATTERY),
            0x0F => Some(CartridgeType::MBC3_TIMER_BATTERY),
            0x10 => Some(CartridgeType::MBC3_TIMER_RAM_BATTERY),
            0x11 => Some(CartridgeType::MBC3),
            0x12 => Some(CartridgeType::MBC3_RAM),
            0x13 => Some(CartridgeType::MBC3_RAM_BATTERY),
            _ => None,
        }
    }

    /// The header byte of this type.
    pub open spec fn code(self) -> u8 {
        match self {
            CartridgeType::ROM => 0x00,
            CartridgeType::MBC1 => 0x01,
            CartridgeType::MBC1_RAM => 0x02,
            CartridgeType::MBC1_RAM_BATTERY => 0x03,
            CartridgeType::MBC2 => 0x05,
            CartridgeType::MBC2_BATTERY => 0x06,
            CartridgeType::ROM_RAM => 0x08,
            CartridgeType::ROM_RAM_BATTERY => 0x09,
            CartridgeType::MMM01 => 0x0B,
            CartridgeType::MMM01_RAM => 0x0C,
            CartridgeType::MMM01_RAM_BATTERY => 0x0D,
            CartridgeType::MBC3_TIMER_BATTERY => 0x0F,
            CartridgeType::MBC3_TIMER_RAM_BATTERY => 0x10,
            CartridgeType::MBC3 => 0x11,
            CartridgeType::MBC3_RAM => 0x12,
            CartridgeType::MBC3_RAM_BATTERY => 0x13,
        }
    }
}

impl CartridgeChipType {
    /// The controller family of a cartridge type; families this core does not
    /// emulate are `Unknown`.
    pub fn from_cartridge_type(value: CartridgeType) -> (r: CartridgeChipType)
        ensures
            r == chip_of_code(value.code()),
    {
        match value {
            CartridgeType::ROM => CartridgeChipType::ROMOnly,
            CartridgeType::MBC1 | CartridgeType::MBC1_RAM | CartridgeType::MBC1_RAM_BATTERY => {
                CartridgeChipType::MBC1
            },
            CartridgeType::MBC3 | CartridgeType::MBC3_RAM | CartridgeType::MBC3_RAM_BATTERY => {
                CartridgeChipType::MBC3
            },
            _ => CartridgeChipType::Unknown,
        }
    }
}

/// The fields of the cartridge header.
#[derive(Debug)]
pub struct CartridgeHeader {
    pub entry_point: u32,
    pub title: Vec<u8>,
    pub cgb_flag: u8,
    pub sgb_flag: u8,
    pub cartridge_type: CartridgeType,
    pub rom_size: u8,
    pub ram_size: u8,
}

/// Whether `file_data` holds a header this core accepts.
pub open spec fn header_ok(file_data: Seq<u8>) -> bool {
    &&& file_data.len() >= HEADER_END
    &&& known_cartridge_type(file_data[0x147])
    &&& file_data[0x148] <= 0x07
    &&& file_data[0x149] <= 0x03
}

/// The error `CartridgeHeader::new` reports for `file_data`, if any.
pub open spec fn header_error(file_data: Seq<u8>) -> CartridgeError {
    if file_data.len() < HEADER_END {
        CartridgeError::HeaderTooShort
    } else if !known_cartridge_type(file_data[0x147]) {
        CartridgeError::InvalidCartridgeType(file_data[0x147])
    } else if file_data[0x148] > 0x07 {
        CartridgeError::InvalidRomSize(file_data[0x148])
    } else {
        CartridgeError::InvalidRamSize(file_data[0x149])
    }
}

impl CartridgeHeader {
    /// Whether this header is the one stored in `file_data`.
    pub open spec fn of(&self, file_data: Seq<u8>) -> bool {
        &&& self.entry_point == be_u32(
            file_data[0x100],
            file_data[0x101],
            file_data[0x102],
            file_data[0x103],
        )
        &&& self.title@ == file_data.subrange(0x134, 0x143)
        &&& self.cgb_flag == file_data[0x143]
        &&& self.sgb_flag == file_data[0x146]
        &&& self.cartridge_type.code() == file_data[0x147]
        &&& self.rom_size == file_data[0x148]
        &&& self.ram_size == file_data[0x149]
    }

    /// Parses the header of a ROM image.
    pub fn new(file_data: &Vec<u8>) -> (r: Result<CartridgeHeader, CartridgeError>)
        ensures
            r.is_ok() <==> header_ok(file_data@),
            r.is_ok() ==> r.unwrap().of(file_data@),
            r.is_err() ==> r.unwrap_err() == header_error(file_data@),
    {
        if file_data.len() < HEADER_END {
            return Err(CartridgeError::HeaderTooShort);
        }
        let cartridge_type = match CartridgeType::from_u8(file_data[0x147]) {
            Some(t) => t,
            None => {
                return Err(CartridgeError::InvalidCartridgeType(file_data[0x147]));
            },
        };
        let rom_size = file_data[0x148];
        if rom_size > 0x07 {
            return Err(CartridgeError::InvalidRomSize(rom_size));
        }
        let ram_size = file_data[0x149];
        if ram_size > 0x03 {
            return Err(CartridgeError::InvalidRamSize(ram_size));
        }
        let entry = vstd::slice::slice_subrange(file_data.as_slice(), 0x100, 0x104);
        let entry_point = read_be_u32(entry);
        let mut title: Vec<u8> = Vec::new();
        let mut i: usize = 0x134;
        while i < 0x143
            invariant
                file_data@.len() >= HEADER_END,
                0x134 <= i <= 0x143,
                title@ == file_data@.subrange(0x134, i as int),
            decreases 0x143 - i,
        {
            title.push(file_data[i]);
            i = i + 1;
            assert(title@ =~= file_data@.subrange(0x134, i as int));
        }
        Ok(
            CartridgeHeader {
                entry_point,
                title,
                cgb_flag: file_data[0x143],
                sgb_flag: file_data[0x146],
                cartridge_type,
                rom_size,
                ram_size,
            },
        )
    }

    /// The mask applied to ROM bank numbers, from the ROM size code.
    pub fn get_rom_bank_mask(&self) -> (r: u8)
        requires
            self.rom_size <= 0x07,
        ensures
            r == rom_bank_mask_of(self.rom_size),
    {
        match self.rom_size {
            0 => 0x01,
            1 => 0x03,
            2 => 0x07,
            3 => 0x0F,
            4 => 0x1F,
            5 => 0x3F,
            6 => 0x7F,
            _ => 0xFF,
        }
    }
}

} // verus!
