pub mod cgb_registers;
pub mod interrupts;
pub mod io;
pub mod joypad;
pub mod lcd;
pub mod oam;
pub mod serial;
pub mod sound;
pub mod timer;
pub mod vram;
