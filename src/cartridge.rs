pub mod cartridge;
pub mod cartridge_header;
