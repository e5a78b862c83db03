use vstd::prelude::*;
use crate::bus::{Bus, mem_same};
use crate::cpu::CpuView;
use crate::io::interrupts::Interrupt;
use crate::io::io::IO;

verus! {

/// Effect of `NOP` (`0x00`): 1 cycle, nothing else.
pub open spec fn nop_post(old: &Bus, new: &Bus) -> bool {
    &&& new.cpu@ == (CpuView { cycle_buffer: 1, ..old.cpu@ })
    &&& mem_same(old, new)
    &&& new.ppu == old.ppu
}

/// Effect of `DI` (`0xF3`, `enable == false`) and `EI` (`0xFB`): `IME` takes
/// `enable` at once; 1 cycle.
pub open spec fn ime_post(old: &Bus, new: &Bus, enable: bool) -> bool {
    &&& new.cpu@ == (CpuView { cycle_buffer: 1, ..old.cpu@ })
    &&& new.io == (IO {
        interrupt: Interrupt { interrupt_master_enable: enable, ..old.io.interrupt },
        ..old.io
    })
    &&& new.cartridge == old.cartridge && new.wram == old.wram && new.hram == old.hram
    &&& new.ppu == old.ppu
}

/// Effect of `HALT` (`0x76`): the CPU halts; 1 cycle.
pub open spec fn halt_post(old: &Bus, new: &Bus) -> bool {
    &&& new.cpu@ == (CpuView { halted: true, cycle_buffer: 1, ..old.cpu@ })
    &&& mem_same(old, new)
    &&& new.ppu == old.ppu
}

/// `NOP`.
pub struct Noop {
    pub opcode: u8,
}

impl Noop {
    pub fn default() -> (r: Noop)
        ensures
            r.opcode == 0x00,
    {
        Noop { opcode: 0x00 }
    }

    pub fn execute(&self, bus: &mut Bus)
        requires
            old(bus).wf(),
        ensures
            final(bus).wf(),
            nop_post(old(bus), final(bus)),
    {
        bus.cpu.add_m_cycles(1);
    }
}

/// `DI`.
pub struct DisableInterrupts {
    pub opcode: u8,
}

impl DisableInterrupts {
    pub fn default() -> (r: DisableInterrupts)
        ensures
            r.opcode == 0xF3,
    {
        DisableInterrupts { opcode: 0xF3 }
    }

    pub fn execute(&self, bus: &mut Bus)
        requires
            old(bus).wf(),
        ensures
            final(bus).wf(),
            ime_post(old(bus), final(bus), false),
    {
        bus.io.interrupt.disable_interrupts();
        bus.cpu.add_m_cycles(1);
    }
}

/// `EI`. `IME` is set at once: the one-instruction delay of the hardware is
/// not modelled.
pub struct EnableInterrupts {
    pub opcode: u8,
}

impl EnableInterrupts {
    pub fn default() -> (r: EnableInterrupts)
        ensures
            r.opcode == 0xFB,
    {
        EnableInterrupts { opcode: 0xFB }
    }

    pub fn execute(&self, bus: &mut Bus)
        requires
            old(bus).wf(),
        ensures
            final(bus).wf(),
            ime_post(old(bus), final(bus), true),
    {
        bus.io.interrupt.enable_interrupts();
        bus.cpu.add_m_cycles(1);
    }
}

/// `HALT`.
pub struct Halt {
    pub opcode: u8,
}

impl Halt {
    pub fn default() -> (r: Halt)
        ensures
            r.opcode == 0x76,
    {
        Halt { opcode: 0x76 }
    }

    pub fn execute(&self, bus: &mut Bus)
        requires
            old(bus).wf(),
        ensures
            final(bus).wf(),
            halt_post(old(bus), final(bus)),
    {
        bus.cpu.halt();
        bus.cpu.add_m_cycles(1);
    }
}

} // verus!
