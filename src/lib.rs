use vstd::prelude::*;

pub mod bus;
pub mod cartridge;
pub mod cpu;
pub mod display;
pub mod hram;
pub mod io;
pub mod memory;
pub mod opcode;
pub mod ppu;
pub mod wram;

verus! {

} // verus!
