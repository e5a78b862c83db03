use vstd::prelude::*;
use crate::cartridge::cartridge::{Cartridge, load_error, load_ok};
use crate::cartridge::cartridge_header::CartridgeError;
use crate::cpu::{CPU, CpuView, Registers, hi_byte, lo_byte, w16};
use crate::io::interrupts::Interrupt;
use crate::io::lcd::ScanLineEvent;
use crate::io::timer::tick_n;
use crate::opcode::jump::pushed;
use crate::opcode::opcode::{execute_opcode, execute_post, is_unimplemented_opcode};
use crate::ppu::{rendered_row, scanline_objects};
use crate::hram::HRam;
use crate::io::io::IO;
use crate::memory::{MemoryLocation, location};
use crate::ppu::PPU;
use crate::wram::{WRam, wram_index};

verus! {

/// Whether `address` is plain memory that reads back what was written to it:
/// VRAM, work RAM and its echo, OAM or high RAM.
pub open spec fn is_ram(address: u16) -> bool {
    (0x8000 <= address <= 0x9FFF) || (0xC000 <= address <= 0xFDFF) || (0xFE00 <= address
        <= 0xFE9F) || (0xFF80 <= address <= 0xFFFE)
}

/// The storage cell behind a RAM address; echo addresses share the cell of
/// the work RAM address they mirror.
pub open spec fn ram_cell(address: u16) -> int {
    if 0xC000 <= address <= 0xFDFF {
        0x10000 + wram_index(address)
    } else {
        address as int
    }
}

/// A fault that stops the machine: a programming error in the ROM or an
/// instruction this core does not have.
#[derive(Clone, Copy, PartialEq, Eq, Structural, Debug)]
pub enum StepError {
    /// The opcode at `pc` has no instruction.
    UnimplementedOpcode { pc: u16, opcode: u8 },
}

/// The lowest set bit of a nonzero pending mask: the request serviced first.
pub open spec fn lowest_bit(p: u8) -> u8 {
    if p & 0x01 != 0 {
        0x01
    } else if p & 0x02 != 0 {
        0x02
    } else if p & 0x04 != 0 {
        0x04
    } else if p & 0x08 != 0 {
        0x08
    } else {
        0x10
    }
}

/// The handler address of interrupt request bit `bit`.
pub open spec fn vector_of(bit: u8) -> u16 {
    if bit == 0x01 {
        0x40
    } else if bit == 0x02 {
        0x48
    } else if bit == 0x04 {
        0x50
    } else if bit == 0x08 {
        0x58
    } else {
        0x60
    }
}

/// `old` with `IME` cleared and request `bit` acknowledged in `IF`.
pub open spec fn acked(old: &Bus, bit: u8) -> Bus {
    Bus {
        io: IO {
            interrupt: Interrupt {
                interrupt_master_enable: false,
                interrupt_flag: old.io.interrupt.interrupt_flag & !bit,
                ..old.io.interrupt
            },
            ..old.io
        },
        ..*old
    }
}

/// `old` with `PC` past the opcode byte.
pub open spec fn fetched(old: &Bus) -> Bus {
    Bus {
        cpu: CPU {
            registers: Registers { pc: w16(old.cpu@.pc + 1), ..old.cpu.registers },
            ..old.cpu
        },
        ..*old
    }
}

/// Whether the next step runs into an opcode without an instruction.
pub open spec fn step_faults(old: &Bus) -> bool {
    let it = old.io.interrupt;
    !(it.interrupt_master_enable && it.pending() != 0) && !old.cpu@.halted
        && is_unimplemented_opcode(old.read_spec(old.cpu@.pc))
}

/// The first part of a step, from `old` to `new`: dispatch a pending enabled
/// interrupt when `IME` is set (5 cycles: `PC` pushed, `IME` cleared, the
/// lowest pending request acknowledged, `PC` to its vector, HALT left);
/// else, while halted, idle for 1 cycle and leave HALT if any enabled
/// request is pending, whatever `IME` says; else fetch and execute.
pub open spec fn cpu_phase_post(old: &Bus, new: &Bus) -> bool {
    let c = old.cpu@;
    let it = old.io.interrupt;
    let p = it.pending();
    if it.interrupt_master_enable && p != 0 {
        let bit = lowest_bit(p);
        pushed(
            &acked(old, bit),
            new,
            c.pc,
            CpuView { pc: vector_of(bit), halted: false, cycle_buffer: 5, ..c },
        )
    } else if c.halted {
        &&& new.cpu@ == (CpuView { halted: p == 0, cycle_buffer: 1, ..c })
        &&& mem_same(old, new)
        &&& new.ppu == old.ppu
    } else {
        execute_post(&fetched(old), new, old.read_spec(c.pc))
    }
}

/// The OAM DMA part of a step: when a transfer is armed, OAM takes the 160
/// bytes at `DMA * 256` and the transfer is disarmed; else nothing changes.
pub open spec fn dma_post(old: &Bus, new: &Bus) -> bool {
    if old.io.oam.dma_transfer {
        &&& new.io.oam.oam@ == Seq::new(
            160,
            |i: int| old.read_spec((old.io.oam.dma as int * 256 + i) as u16),
        )
        &&& !new.io.oam.dma_transfer
        &&& new.io.oam.dma == old.io.oam.dma
        &&& new.io == (IO { oam: new.io.oam, ..old.io })
        &&& new.cpu == old.cpu && new.ppu == old.ppu
        &&& new.cartridge == old.cartridge && new.wram == old.wram && new.hram == old.hram
    } else {
        *new == *old
    }
}

/// The device part of a step: the LCD advances by the cycles the CPU
/// charged, the PPU acts on what the LCD entered, and the timer ticks once
/// per cycle. `ready` reports the start of vblank.
pub open spec fn devices_post(old: &Bus, new: &Bus, ready: bool) -> bool {
    let cycles = old.cpu@.cycle_buffer;
    let lcd = old.io.lcd;
    let event = lcd.event_after(cycles);
    let t = tick_n(old.io.timer.m_cycles, old.io.timer.tima, old.io.timer.tma, old.io.timer.tac, cycles as nat);
    &&& ready == (event == ScanLineEvent::VBlankEntered)
    &&& new.io.lcd.lcd_y_coordinate == lcd.next_ly(cycles)
    &&& new.io.lcd.lcd_y_cycles == lcd.dots_after(cycles) % 456
    &&& new.io.lcd.same_settings(&lcd)
    &&& new.io.timer.m_cycles == t.0 && new.io.timer.tima == t.1
    &&& new.io.timer.tma == old.io.timer.tma && new.io.timer.tac == old.io.timer.tac
    &&& new.io.lcd.lcd_status == lcd.stat_if_after(cycles, old.io.interrupt.interrupt_flag).0
    &&& new.io.interrupt.interrupt_flag == ({
        let f = lcd.stat_if_after(cycles, old.io.interrupt.interrupt_flag).1;
        if t.2 {
            f | 0x04
        } else {
            f
        }
    })
    &&& (event == ScanLineEvent::VBlankEntered ==> new.io.interrupt.interrupt_flag & 0x01 != 0)
    &&& new.io.interrupt.interrupt_enable == old.io.interrupt.interrupt_enable
    &&& new.io.interrupt.interrupt_master_enable == old.io.interrupt.interrupt_master_enable
    &&& new.io.oam == old.io.oam && new.io.vram == old.io.vram && new.io.joypad == old.io.joypad
    &&& new.io.serial == old.io.serial && new.io.sound == old.io.sound
    &&& new.cpu == old.cpu
    &&& new.cartridge == old.cartridge && new.wram == old.wram && new.hram == old.hram
    &&& (if event == ScanLineEvent::OAMScanEntered {
        &&& new.ppu.scanline_object_id_buffer@ == scanline_objects(new.io.lcd, new.io.oam)
        &&& new.ppu.frame_buffer == old.ppu.frame_buffer
        &&& new.ppu.window_internal_line_counter == old.ppu.window_internal_line_counter
    } else if event == ScanLineEvent::HBlankEntered {
        &&& new.ppu.row(new.io.lcd.lcd_y_coordinate as int) == rendered_row(
            new.io.lcd,
            new.io.vram,
            new.io.oam,
            old.ppu.scanline_object_id_buffer@,
            old.ppu.window_internal_line_counter,
        )
        &&& new.ppu.scanline_object_id_buffer == old.ppu.scanline_object_id_buffer
    } else if event == ScanLineEvent::VBlankEntered {
        &&& new.ppu.window_internal_line_counter == 0
        &&& new.ppu.scanline_object_id_buffer == old.ppu.scanline_object_id_buffer
        &&& new.ppu.frame_buffer == old.ppu.frame_buffer
    } else {
        new.ppu == old.ppu
    })
}

/// The whole machine: the CPU and everything it reaches through the bus.
pub struct Bus {
    pub cartridge: Cartridge,
    pub cpu: CPU,
    pub wram: WRam,
    pub io: IO,
    pub hram: HRam,
    pub ppu: PPU,
}

/// Whether the memory side of `new` (cartridge, RAM, devices) is that of `old`.
pub open spec fn mem_same(old: &Bus, new: &Bus) -> bool {
    &&& new.cartridge == old.cartridge
    &&& new.wram == old.wram
    &&& new.io == old.io
    &&& new.hram == old.hram
}

/// Whether the memory side of `new` is that of `old` after writing `value`
/// to `address`: the owner of the address takes the write, the rest stays.
pub open spec fn mem_written(old: &Bus, new: &Bus, address: u16, value: u8) -> bool {
    match location(address) {
        MemoryLocation::Bank0 | MemoryLocation::BankN | MemoryLocation::ExternalRam => {
            &&& old.cartridge.written(&new.cartridge, address, value)
            &&& new.wram == old.wram && new.io == old.io && new.hram == old.hram
        },
        MemoryLocation::WorkRamBank0 | MemoryLocation::WorkRamBankN | MemoryLocation::EchoRam => {
            &&& new.wram.data@ == old.wram.data@.update(wram_index(address), value)
            &&& new.cartridge == old.cartridge && new.io == old.io && new.hram == old.hram
        },
        MemoryLocation::HRam => {
            &&& new.hram.data@ == old.hram.data@.update(address - 0xFF80, value)
            &&& new.cartridge == old.cartridge && new.io == old.io && new.wram == old.wram
        },
        MemoryLocation::NotUsed => mem_same(old, new),
        _ => {
            &&& old.io.written(&new.io, address, value)
            &&& new.cartridge == old.cartridge && new.wram == old.wram && new.hram == old.hram
        },
    }
}

/// The memory side of `new` is that of `old` after writing `v1` to `a1`, then `v2` to `a2`.
pub open spec fn mem_written2(old: &Bus, new: &Bus, a1: u16, v1: u8, a2: u16, v2: u8) -> bool {
    exists|mid: Bus| mid.wf() && #[trigger] mem_written(old, &mid, a1, v1) && mem_written(&mid, new, a2, v2)
}

impl Bus {
    pub open spec fn wf(&self) -> bool {
        &&& self.cartridge.wf()
        &&& self.wram.wf()
        &&& self.io.wf()
        &&& self.hram.wf()
        &&& self.ppu.wf()
    }

    /// The value a CPU read of `address` returns.
    pub open spec fn read_spec(&self, address: u16) -> u8 {
        match location(address) {
            MemoryLocation::Bank0 | MemoryLocation::BankN | MemoryLocation::ExternalRam => {
                self.cartridge.read_spec(address)
            },
            MemoryLocation::WorkRamBank0 | MemoryLocation::WorkRamBankN | MemoryLocation::EchoRam => {
                self.wram.data@[wram_index(address)]
            },
            MemoryLocation::HRam => self.hram.data@[address - 0xFF80],
            MemoryLocation::NotUsed => 0xFF,
            _ => self.io.read_spec(address),
        }
    }

    /// The little-endian 16-bit value at `address` and `address + 1`.
    pub open spec fn read16_spec(&self, address: u16) -> u16 {
        (self.read_spec(address) + 256 * self.read_spec(w16(address + 1))) as u16
    }

    /// Powers on with the ROM image `rom`; fails as `Cartridge::new` does.
    pub fn new(rom: Vec<u8>) -> (r: Result<Bus, CartridgeError>)
        ensures
            r.is_ok() <==> load_ok(rom@),
            !load_ok(rom@) ==> r == Err::<Bus, CartridgeError>(load_error(rom@)),
            r.is_ok() ==> ({
                let b = r.unwrap();
                &&& b.wf()
                &&& b.cpu@.pc == 0x0100 && b.cpu@.sp == 0xFFFE && !b.cpu@.halted
                &&& b.cpu.af() == 0x01B0 && b.cpu.bc() == 0x0013
                &&& b.cpu.de() == 0x00D8 && b.cpu.hl() == 0x014D
                &&& b.cpu@.cycle_buffer == 0
                &&& b.io.interrupt.interrupt_master_enable
                &&& b.io.interrupt.interrupt_enable == 0 && b.io.interrupt.interrupt_flag == 0
                &&& b.io.lcd.lcd_y_coordinate == 0 && b.io.lcd.lcd_y_cycles == 0
                &&& b.io.lcd.lcd_control == 0x91
                &&& b.io.timer.m_cycles == 0 && b.io.timer.tac == 0
                &&& !b.io.oam.dma_transfer
                &&& b.cartridge.file_data@ == rom@
            }),
    {
        let cartridge = match Cartridge::new(rom) {
            Ok(c) => c,
            Err(e) => {
                return Err(e);
            },
        };
        Ok(
            Bus {
                cartridge,
                cpu: CPU::default(),
                wram: WRam::default(),
                hram: HRam::default(),
                io: IO::default(),
                ppu: PPU::new(),
            },
        )
    }

    /// Reads the byte at `address` through the owner of the address.
    pub fn read_u8(&self, address: u16) -> (r: u8)
        requires
            self.wf(),
        ensures
            r == self.read_spec(address),
    {
        let memory_location = MemoryLocation::parse_address(address);
        match memory_location {
            MemoryLocation::Bank0 | MemoryLocation::BankN | MemoryLocation::ExternalRam => {
                self.cartridge.read_u8(address)
            },
            MemoryLocation::WorkRamBank0 | MemoryLocation::WorkRamBankN | MemoryLocation::EchoRam => {
                self.wram.read_u8(address)
            },
            MemoryLocation::HRam => self.hram.read_u8(address),
            MemoryLocation::NotUsed => 0xFF,
            _ => self.io.read_u8(address),
        }
    }

    /// Reads the little-endian 16-bit value at `address`, `address + 1`.
    pub fn read_u16(&self, address: u16) -> (r: u16)
        requires
            self.wf(),
        ensures
            r == self.read16_spec(address),
    {
        let low_byte = self.read_u8(address) as u16;
        let high_byte = self.read_u8(address.wrapping_add(1)) as u16;
        high_byte * 256 + low_byte
    }

    /// Writes `value` at `address` through the owner of the address; writes
    /// to the unused range are ignored.
    pub fn write_u8(&mut self, address: u16, value: u8)
        requires
            old(self).wf(),
        ensures
            final(self).wf(),
            mem_written(old(self), final(self), address, value),
            final(self).cpu == old(self).cpu,
            final(self).ppu == old(self).ppu,
    {
        let memory_location = MemoryLocation::parse_address(address);
        match memory_location {
            MemoryLocation::Bank0 | MemoryLocation::BankN | MemoryLocation::ExternalRam => {
                self.cartridge.write_u8(address, value)
            },
            MemoryLocation::WorkRamBank0 | MemoryLocation::WorkRamBankN | MemoryLocation::EchoRam => {
                self.wram.write_u8(address, value)
            },
            MemoryLocation::HRam => self.hram.write_u8(address, value),
            MemoryLocation::NotUsed => {},
            _ => self.io.write_u8(address, value),
        }
    }

    /// Writes `value` little-endian at `address`, `address + 1`.
    pub fn write_u16(&mut self, address: u16, value: u16)
        requires
            old(self).wf(),
        ensures
            final(self).wf(),
            mem_written2(
                old(self),
                final(self),
                address,
                lo_byte(value),
                w16(address + 1),
                hi_byte(value),
            ),
            final(self).cpu == old(self).cpu,
            final(self).ppu == old(self).ppu,
    {
        let low_byte = (value % 256) as u8;
        let high_byte = (value / 256) as u8;
        self.write_u8(address, low_byte);
        let ghost mid = *self;
        self.write_u8(address.wrapping_add(1), high_byte);
        assert(mem_written(old(self), &mid, address, low_byte));
    }

    /// Pushes `value` onto the stack: `SP` drops by 2, the low byte goes to
    /// `SP` and the high byte to `SP + 1`.
    pub fn push_u16_to_stack(&mut self, value: u16)
        requires
            old(self).wf(),
        ensures
            final(self).wf(),
            final(self).cpu@ == (CpuView { sp: w16(old(self).cpu@.sp - 2), ..old(self).cpu@ }),
            mem_written2(
                old(self),
                final(self),
                w16(old(self).cpu@.sp - 2),
                lo_byte(value),
                w16(old(self).cpu@.sp - 1),
                hi_byte(value),
            ),
            final(self).ppu == old(self).ppu,
    {
        let sp = self.cpu.push_sp();
        let high_byte = (value / 256) as u8;
        let low_byte = (value % 256) as u8;
        let ghost b1 = *self;
        self.write_u8(sp, low_byte);
        let ghost mid = *self;
        self.write_u8(sp.wrapping_add(1), high_byte);
        proof {
            assert(mem_written(&b1, &mid, sp, low_byte));
            assert(mem_same(old(self), &b1));
            assert(mem_written(old(self), &mid, sp, low_byte));
        }
    }

    /// Pops a 16-bit value: the low byte from `SP`, the high byte from
    /// `SP + 1`, then `SP` rises by 2.
    pub fn pop_u16_from_stack(&mut self) -> (r: u16)
        requires
            old(self).wf(),
        ensures
            final(self).wf(),
            r == old(self).read16_spec(old(self).cpu@.sp),
            final(self).cpu@ == (CpuView { sp: w16(old(self).cpu@.sp + 2), ..old(self).cpu@ }),
            mem_same(old(self), final(self)),
            final(self).ppu == old(self).ppu,
    {
        let sp = self.cpu.get_sp();
        let r = self.read_u16(sp);
        self.cpu.pop_sp();
        r
    }
}

impl Bus {
    /// Runs the CPU part of a step (see `cpu_phase_post`); fails, changing
    /// nothing, on an opcode without an instruction.
    pub fn service_cpu(&mut self) -> (r: Result<(), StepError>)
        requires
            old(self).wf(),
        ensures
            final(self).wf(),
            r.is_err() <==> step_faults(old(self)),
            r.is_err() ==> *final(self) == *old(self) && r == Err::<(), StepError>(
                StepError::UnimplementedOpcode {
                    pc: old(self).cpu@.pc,
                    opcode: old(self).read_spec(old(self).cpu@.pc),
                },
            ),
            r.is_ok() ==> cpu_phase_post(old(self), final(self)),
            r.is_ok() ==> 1 <= final(self).cpu@.cycle_buffer <= 6,
    {
        let pending = self.io.interrupt.check_interrupts();
        if pending != 0 {
            let bit: u8 = if pending & 0x01 != 0 {
                0x01
            } else if pending & 0x02 != 0 {
                0x02
            } else if pending & 0x04 != 0 {
                0x04
            } else if pending & 0x08 != 0 {
                0x08
            } else {
                0x10
            };
            let vector: u16 = if bit == 0x01 {
                0x40
            } else if bit == 0x02 {
                0x48
            } else if bit == 0x04 {
                0x50
            } else if bit == 0x08 {
                0x58
            } else {
                0x60
            };
            self.io.interrupt.disable_interrupts();
            self.io.interrupt.acknowledge(bit);
            let ghost a = *self;
            assert(a == acked(old(self), bit));
            let pc = self.cpu.get_pc();
            self.push_u16_to_stack(pc);
            self.cpu.resume();
            self.cpu.set_pc(vector);
            self.cpu.add_m_cycles(5);
            Ok(())
        } else if self.cpu.is_halted {
            if self.io.interrupt.has_interrupts() {
                self.cpu.resume();
            }
            self.cpu.add_m_cycles(1);
            Ok(())
        } else {
            let pc = self.cpu.get_pc();
            let opcode = self.read_u8(pc);
            if opcode == 0x10 || opcode == 0xD3 || opcode == 0xDB || opcode == 0xDD || opcode
                == 0xE3 || opcode == 0xE4 || opcode == 0xEB || opcode == 0xEC || opcode == 0xED
                || opcode == 0xF4 || opcode == 0xFC || opcode == 0xFD {
                return Err(StepError::UnimplementedOpcode { pc, opcode });
            }
            self.cpu.get_pc_and_increment();
            let ghost f = *self;
            assert(f == fetched(old(self)));
            execute_opcode(self, opcode);
            Ok(())
        }
    }

    /// Performs an armed OAM DMA transfer (see `dma_post`).
    pub fn run_dma(&mut self)
        requires
            old(self).wf(),
        ensures
            final(self).wf(),
            dma_post(old(self), final(self)),
    {
        if !self.io.oam.dma_transfer {
            return;
        }
        let start = (self.io.oam.dma as u16) * 256;
        let mut i: u16 = 0;
        while i < 0xA0
            invariant
                old(self).wf(),
                old(self).io.oam.dma_transfer,
                start == old(self).io.oam.dma as int * 256,
                i <= 0xA0,
                self.io.oam.oam@.len() == 0xA0,
                forall|k: int|
                    0 <= k < i ==> #[trigger] self.io.oam.oam@[k] == old(self).read_spec(
                        (start + k) as u16,
                    ),
                forall|k: int| i <= k < 0xA0 ==> #[trigger] self.io.oam.oam@[k] == old(self).io.oam.oam@[k],
                self.io == (IO { oam: self.io.oam, ..old(self).io }),
                self.io.oam.dma == old(self).io.oam.dma,
                self.io.oam.dma_transfer,
                self.cpu == old(self).cpu && self.ppu == old(self).ppu,
                self.cartridge == old(self).cartridge && self.wram == old(self).wram,
                self.hram == old(self).hram,
            decreases 0xA0 - i,
        {
            let address = start + i;
            let value = self.read_u8(address);
            proof {
                assert(self.read_spec(address) == old(self).read_spec(address));
            }
            self.io.oam.oam.set(i as usize, value);
            i = i + 1;
        }
        self.io.oam.dma_transfer = false;
        assert(self.io.oam.oam@ =~= Seq::new(
            160,
            |k: int| old(self).read_spec((old(self).io.oam.dma as int * 256 + k) as u16),
        ));
    }

    /// Runs the device part of a step (see `devices_post`); returns whether
    /// vblank began.
    pub fn tick_devices(&mut self) -> (r: bool)
        requires
            old(self).wf(),
            old(self).cpu@.cycle_buffer <= 6,
        ensures
            final(self).wf(),
            devices_post(old(self), final(self), r),
    {
        let cycles = self.cpu.cycle_buffer;
        let event = self.io.lcd.update_ly(cycles, &mut self.io.interrupt);
        let mut ready = false;
        match event {
            ScanLineEvent::OAMScanEntered => {
                self.ppu.update_scanline_object_id_buffer(&self.io);
            },
            ScanLineEvent::HBlankEntered => {
                self.ppu.update_current_scanline_in_frame_buffer(&self.io);
            },
            ScanLineEvent::VBlankEntered => {
                self.ppu.window_internal_line_counter = 0;
                ready = true;
            },
            _ => {},
        }
        let ghost f1 = self.io.interrupt.interrupt_flag;
        let mut budget = cycles;
        self.io.timer.update_timer(&mut budget, &mut self.io.interrupt);
        proof {
            let f2 = self.io.interrupt.interrupt_flag;
            assert(f1 & 0x01 != 0 ==> (f1 | 0x04) & 0x01 != 0) by (bit_vector);
            assert((f1 | 0x04) & 0x04 != 0) by (bit_vector);
        }
        ready
    }

    /// One step of the machine: the CPU part (interrupt dispatch, HALT idle,
    /// or one instruction), then a pending OAM DMA, then the LCD, PPU and
    /// timer advance by the cycles charged. Returns whether a frame is ready
    /// (vblank began), or the fault that stopped the CPU, with nothing changed.
    pub fn run_cycle(&mut self) -> (r: Result<bool, StepError>)
        requires
            old(self).wf(),
        ensures
            final(self).wf(),
            r.is_err() <==> step_faults(old(self)),
            r.is_err() ==> *final(self) == *old(self),
            r.is_ok() ==> exists|m1: Bus, m2: Bus|
                cpu_phase_post(old(self), &m1) && #[trigger] dma_post(&m1, &m2) && devices_post(
                    &m2,
                    final(self),
                    r.unwrap(),
                ),
    {
        match self.service_cpu() {
            Ok(()) => {},
            Err(e) => {
                return Err(e);
            },
        }
        let ghost m1 = *self;
        self.run_dma();
        let ghost m2 = *self;
        let ready = self.tick_devices();
        assert(cpu_phase_post(old(self), &m1) && dma_post(&m1, &m2) && devices_post(&m2, self, ready));
        Ok(ready)
    }
}

/// Two writes after a step that left memory alone are two writes from the start.
pub proof fn lemma_written2_after_same(old: &Bus, mid: &Bus, new: &Bus, a1: u16, v1: u8, a2: u16, v2: u8)
    requires
        mem_same(old, mid),
        mem_written2(mid, new, a1, v1, a2, v2),
    ensures
        mem_written2(old, new, a1, v1, a2, v2),
{
    let m = choose|m: Bus| m.wf() && #[trigger] mem_written(mid, &m, a1, v1) && mem_written(&m, new, a2, v2);
    assert(mem_written(old, &m, a1, v1));
}

/// Writing `value` to a RAM address (VRAM, work RAM, OAM, high RAM) and
/// reading the same address yields `value`; reads of other RAM cells are
/// unchanged.
pub proof fn lemma_ram_write_then_read(old: Bus, new: Bus, address: u16, value: u8)
    requires
        old.wf(),
        mem_written(&old, &new, address, value),
        is_ram(address),
    ensures
        new.read_spec(address) == value,
        forall|b: u16|
            is_ram(b) && ram_cell(b) != ram_cell(address) ==> #[trigger] new.read_spec(b)
                == old.read_spec(b),
{
}

/// Pushing a register pair and popping it back restores the value, when both
/// stack bytes lie in RAM.
pub proof fn lemma_push_pop(old: Bus, mid: Bus, value: u16)
    requires
        old.wf(),
        mid.wf(),
        mem_written2(
            &old,
            &mid,
            w16(old.cpu@.sp - 2),
            lo_byte(value),
            w16(old.cpu@.sp - 1),
            hi_byte(value),
        ),
        is_ram(w16(old.cpu@.sp - 2)),
        is_ram(w16(old.cpu@.sp - 1)),
    ensures
        mid.read16_spec(w16(old.cpu@.sp - 2)) == value,
{
    let a1 = w16(old.cpu@.sp - 2);
    let a2 = w16(old.cpu@.sp - 1);
    let m = choose|m: Bus| m.wf() && #[trigger] mem_written(&old, &m, a1, lo_byte(value)) && mem_written(&m, &mid, a2, hi_byte(value));
    lemma_ram_write_then_read(old, m, a1, lo_byte(value));
    lemma_ram_write_then_read(m, mid, a2, hi_byte(value));
    assert(ram_cell(a1) != ram_cell(a2));
    assert(w16(a1 + 1) == a2);
}

/// On a well-formed machine, and so after every step, `LY` lies in
/// `[0,153]`, the dot counter below 456, and the STAT mode bits in `{0,1,2,3}`.
pub proof fn lemma_lcd_ranges(b: Bus)
    requires
        b.wf(),
    ensures
        b.io.lcd.lcd_y_coordinate <= 153,
        b.io.lcd.lcd_y_cycles < 456,
        b.io.lcd.lcd_status & 0x03 <= 3,
{
    let s = b.io.lcd.lcd_status;
    assert(s & 0x03 <= 3) by (bit_vector);
}

/// A read of `DIV` (`0xFF04`) returns the internal counter shifted right by 6.
pub proof fn lemma_div_read(b: Bus)
    ensures
        b.read_spec(0xFF04) == (b.io.timer.m_cycles >> 6) as u8,
{
}

} // verus!
