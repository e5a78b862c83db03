use vstd::prelude::*;
use crate::bus::{Bus, is_ram, lemma_push_pop, lemma_written2_after_same, mem_same, mem_written, mem_written2};
use crate::cpu::{CpuView, flag_byte, hi_byte, lemma_flag_byte_low_nibble, lemma_flag_byte_of, lemma_pair_split, lo_byte, pair, w16};
use crate::opcode::arithmatic::{add_sp_offset, sp_offset};
use crate::opcode::jump::pushed;
use crate::opcode::opcode::{
    fetch_u16, fetch_u8, imm16, imm8, operand8, r16, r8_post, read_r8, stack_r16,
    with_r16, with_stack_r16, write_r16, write_r8,
};

verus! {

/// Whether `opcode` is one of the loads `LoadRegister` runs.
pub open spec fn is_load_opcode(opcode: u8) -> bool {
    ||| (0x40 <= opcode <= 0x7F && opcode != 0x76)
    ||| (opcode < 0x40 && opcode % 8 == 6)
    ||| (opcode < 0x40 && opcode % 16 == 1)
    ||| (opcode < 0x40 && opcode % 16 == 2)
    ||| (opcode < 0x40 && opcode % 16 == 0x0A)
    ||| opcode == 0x08 || opcode == 0xE0 || opcode == 0xF0 || opcode == 0xE2 || opcode == 0xF2
    ||| opcode == 0xEA || opcode == 0xFA || opcode == 0xF8 || opcode == 0xF9
}

/// The address `LD (rr), A` and `LD A, (rr)` use: `BC`, `DE`, `HL` (then
/// incremented) and `HL` (then decremented) for `i` 0 to 3.
pub open spec fn indirect_address(c: CpuView, i: int) -> u16 {
    if i == 0 {
        c.bc()
    } else if i == 1 {
        c.de()
    } else {
        c.hl()
    }
}

/// `c` after the `HL` step of `LD (HL+)` (`i == 2`) or `LD (HL-)` (`i == 3`).
pub open spec fn hl_stepped(c: CpuView, i: int) -> CpuView {
    if i == 2 {
        with_r16(c, 2, w16(c.hl() + 1))
    } else if i == 3 {
        with_r16(c, 2, w16(c.hl() - 1))
    } else {
        c
    }
}

/// Effect of a load, by opcode:
/// `LD r, r'` (`0x40..=0x7F`), `LD r, n`, `LD rr, nn`, `LD (rr), A`,
/// `LD A, (rr)`, `LD (nn), SP`, `LDH (n), A`, `LDH A, (n)`, `LD (C), A`,
/// `LD A, (C)`, `LD (nn), A`, `LD A, (nn)`, `LD HL, SP+e` and `LD SP, HL`.
pub open spec fn load_post(old: &Bus, new: &Bus, opcode: u8) -> bool {
    let c = old.cpu@;
    let dst = ((opcode / 8) % 8) as int;
    let pair = ((opcode / 16) % 4) as int;
    if 0x40 <= opcode <= 0x7F {
        let src = (opcode % 8) as int;
        r8_post(
            old,
            new,
            dst,
            operand8(old, src),
            CpuView {
                cycle_buffer: if src == 6 || dst == 6 {
                    2
                } else {
                    1
                },
                ..c
            },
        )
    } else if opcode < 0x40 && opcode % 8 == 6 {
        r8_post(
            old,
            new,
            dst,
            imm8(old),
            CpuView {
                pc: w16(c.pc + 1),
                cycle_buffer: if dst == 6 {
                    3
                } else {
                    2
                },
                ..c
            },
        )
    } else if opcode < 0x40 && opcode % 16 == 1 {
        &&& new.cpu@ == with_r16(CpuView { pc: w16(c.pc + 2), cycle_buffer: 3, ..c }, pair, imm16(old))
        &&& mem_same(old, new)
        &&& new.ppu == old.ppu
    } else if opcode < 0x40 && opcode % 16 == 2 {
        &&& new.cpu@ == hl_stepped(CpuView { cycle_buffer: 2, ..c }, pair)
        &&& mem_written(old, new, indirect_address(c, pair), c.a)
        &&& new.ppu == old.ppu
    } else if opcode < 0x40 && opcode % 16 == 0x0A {
        &&& new.cpu@ == hl_stepped(
            CpuView { a: old.read_spec(indirect_address(c, pair)), cycle_buffer: 2, ..c },
            pair,
        )
        &&& mem_same(old, new)
        &&& new.ppu == old.ppu
    } else if opcode == 0x08 {
        let nn = imm16(old);
        &&& new.cpu@ == (CpuView { pc: w16(c.pc + 2), cycle_buffer: 5, ..c })
        &&& mem_written2(old, new, nn, lo_byte(c.sp), w16(nn + 1), hi_byte(c.sp))
        &&& new.ppu == old.ppu
    } else if opcode == 0xE0 || opcode == 0xE2 || opcode == 0xEA {
        let addr: u16 = if opcode == 0xE0 {
            (0xFF00 + imm8(old)) as u16
        } else if opcode == 0xE2 {
            (0xFF00 + c.c) as u16
        } else {
            imm16(old)
        };
        &&& new.cpu@ == (CpuView {
            pc: if opcode == 0xE0 {
                w16(c.pc + 1)
            } else if opcode == 0xEA {
                w16(c.pc + 2)
            } else {
                c.pc
            },
            cycle_buffer: if opcode == 0xE0 {
                3
            } else if opcode == 0xEA {
                4
            } else {
                2
            },
            ..c
        })
        &&& mem_written(old, new, addr, c.a)
        &&& new.ppu == old.ppu
    } else if opcode == 0xF0 || opcode == 0xF2 || opcode == 0xFA {
        let addr: u16 = if opcode == 0xF0 {
            (0xFF00 + imm8(old)) as u16
        } else if opcode == 0xF2 {
            (0xFF00 + c.c) as u16
        } else {
            imm16(old)
        };
        &&& new.cpu@ == (CpuView {
            a: old.read_spec(addr),
            pc: if opcode == 0xF0 {
                w16(c.pc + 1)
            } else if opcode == 0xFA {
                w16(c.pc + 2)
            } else {
                c.pc
            },
            cycle_buffer: if opcode == 0xF0 {
                3
            } else if opcode == 0xFA {
                4
            } else {
                2
            },
            ..c
        })
        &&& mem_same(old, new)
        &&& new.ppu == old.ppu
    } else if opcode == 0xF8 {
        let (r, h, cy) = sp_offset(c.sp, imm8(old));
        &&& new.cpu@ == with_r16(
            CpuView {
                zf: false,
                nf: false,
                hf: h,
                cf: cy,
                pc: w16(c.pc + 1),
                cycle_buffer: 3,
                ..c
            },
            2,
            r,
        )
        &&& mem_same(old, new)
        &&& new.ppu == old.ppu
    } else {
        &&& new.cpu@ == (CpuView { sp: c.hl(), cycle_buffer: 2, ..c })
        &&& mem_same(old, new)
        &&& new.ppu == old.ppu
    }
}

/// The loads between registers, memory and immediates.
pub struct LoadRegister {
    pub opcode: u8,
}

impl LoadRegister {
    pub fn default(opcode: u8) -> (r: LoadRegister)
        ensures
            r.opcode == opcode,
    {
        LoadRegister { opcode }
    }

    pub fn execute(&self, bus: &mut Bus)
        requires
            old(bus).wf(),
            is_load_opcode(self.opcode),
        ensures
            final(bus).wf(),
            load_post(old(bus), final(bus), self.opcode),
    {
        let opcode = self.opcode;
        if 0x40 <= opcode && opcode <= 0x7F {
            Self::load_r8(bus, opcode);
        } else if opcode < 0x40 && (opcode % 8 == 6 || opcode % 16 == 1) {
            Self::load_immediate(bus, opcode);
        } else if opcode == 0x08 {
            Self::store_sp(bus);
        } else if opcode < 0x40 {
            Self::load_indirect(bus, opcode);
        } else {
            Self::load_high(bus, opcode);
        }
    }

    /// `LD r, r'`.
    fn load_r8(bus: &mut Bus, opcode: u8)
        requires
            old(bus).wf(),
            0x40 <= opcode <= 0x7F,
        ensures
            final(bus).wf(),
            load_post(old(bus), final(bus), opcode),
    {
        let dst = (opcode / 8) % 8;
        let src = opcode % 8;
        let v = read_r8(bus, src);
        bus.cpu.add_m_cycles(
            if src == 6 || dst == 6 {
                2
            } else {
                1
            },
        );
        write_r8(bus, dst, v);
    }

    /// `LD r, n` and `LD rr, nn`.
    fn load_immediate(bus: &mut Bus, opcode: u8)
        requires
            old(bus).wf(),
            opcode < 0x40 && (opcode % 8 == 6 || opcode % 16 == 1),
        ensures
            final(bus).wf(),
            load_post(old(bus), final(bus), opcode),
    {
        let dst = (opcode / 8) % 8;
        let pair = (opcode / 16) % 4;
        if opcode % 8 == 6 {
            let v = fetch_u8(bus);
            bus.cpu.add_m_cycles(
                if dst == 6 {
                    3
                } else {
                    2
                },
            );
            write_r8(bus, dst, v);
        } else {
            let v = fetch_u16(bus);
            bus.cpu.add_m_cycles(3);
            write_r16(bus, pair, v);
        }
    }

    /// `LD (rr), A` and `LD A, (rr)`.
    fn load_indirect(bus: &mut Bus, opcode: u8)
        requires
            old(bus).wf(),
            opcode < 0x40 && (opcode % 16 == 2 || opcode % 16 == 0x0A),
        ensures
            final(bus).wf(),
            load_post(old(bus), final(bus), opcode),
    {
        let pair = (opcode / 16) % 4;
        let addr = Self::indirect(bus, pair);
        if opcode % 16 == 2 {
            let a = bus.cpu.get_a();
            bus.write_u8(addr, a);
        } else {
            let v = bus.read_u8(addr);
            bus.cpu.set_a(v);
        }
        bus.cpu.add_m_cycles(2);
        Self::step_hl(bus, pair);
    }

    /// `LD (nn), SP`.
    fn store_sp(bus: &mut Bus)
        requires
            old(bus).wf(),
        ensures
            final(bus).wf(),
            load_post(old(bus), final(bus), 0x08),
    {
        let nn = fetch_u16(bus);
        let sp = bus.cpu.get_sp();
        let ghost mid = *bus;
        bus.write_u16(nn, sp);
        bus.cpu.add_m_cycles(5);
        proof {
            lemma_written2_after_same(old(bus), &mid, bus, nn, lo_byte(sp), w16(nn + 1), hi_byte(sp));
        }
    }

    /// The loads of `0xE0..=0xFF`.
    fn load_high(bus: &mut Bus, opcode: u8)
        requires
            old(bus).wf(),
            opcode == 0xE0 || opcode == 0xF0 || opcode == 0xE2 || opcode == 0xF2 || opcode == 0xEA
                || opcode == 0xFA || opcode == 0xF8 || opcode == 0xF9,
        ensures
            final(bus).wf(),
            load_post(old(bus), final(bus), opcode),
    {
        if opcode == 0xE0 || opcode == 0xE2 || opcode == 0xEA {
            let addr: u16 = if opcode == 0xE0 {
                0xFF00 + fetch_u8(bus) as u16
            } else if opcode == 0xE2 {
                0xFF00 + bus.cpu.get_c() as u16
            } else {
                fetch_u16(bus)
            };
            let a = bus.cpu.get_a();
            bus.write_u8(addr, a);
            bus.cpu.add_m_cycles(
                if opcode == 0xE0 {
                    3
                } else if opcode == 0xEA {
                    4
                } else {
                    2
                },
            );
        } else if opcode == 0xF0 || opcode == 0xF2 || opcode == 0xFA {
            let addr: u16 = if opcode == 0xF0 {
                0xFF00 + fetch_u8(bus) as u16
            } else if opcode == 0xF2 {
                0xFF00 + bus.cpu.get_c() as u16
            } else {
                fetch_u16(bus)
            };
            let v = bus.read_u8(addr);
            bus.cpu.set_a(v);
            bus.cpu.add_m_cycles(
                if opcode == 0xF0 {
                    3
                } else if opcode == 0xFA {
                    4
                } else {
                    2
                },
            );
        } else if opcode == 0xF8 {
            let e = fetch_u8(bus);
            let (r, h, cy) = add_sp_offset(bus.cpu.get_sp(), e);
            bus.cpu.set_flags(false, false, h, cy);
            bus.cpu.add_m_cycles(3);
            bus.cpu.set_hl(r);
        } else {
            let hl = bus.cpu.get_hl();
            bus.cpu.set_sp(hl);
            bus.cpu.add_m_cycles(2);
        }
    }

    fn indirect(bus: &Bus, pair: u8) -> (r: u16)
        requires
            pair < 4,
        ensures
            r == indirect_address(bus.cpu@, pair as int),
    {
        if pair == 0 {
            bus.cpu.get_bc()
        } else if pair == 1 {
            bus.cpu.get_de()
        } else {
            bus.cpu.get_hl()
        }
    }

    fn step_hl(bus: &mut Bus, pair: u8)
        requires
            pair < 4,
        ensures
            final(bus).cpu@ == hl_stepped(old(bus).cpu@, pair as int),
            final(bus).cartridge == old(bus).cartridge,
            final(bus).wram == old(bus).wram,
            final(bus).io == old(bus).io,
            final(bus).hram == old(bus).hram,
            final(bus).ppu == old(bus).ppu,
    {
        if pair == 2 {
            let hl = bus.cpu.get_hl();
            let n = hl.wrapping_add(1);
            assert(n == w16(hl + 1));
            bus.cpu.set_hl(n);
        } else if pair == 3 {
            let hl = bus.cpu.get_hl();
            let n = hl.wrapping_sub(1);
            assert(n == w16(hl - 1));
            bus.cpu.set_hl(n);
        }
    }
}

/// Effect of `PUSH rr` (`0xC5, 0xD5, 0xE5, 0xF5` for `BC, DE, HL, AF`): 4 cycles.
pub open spec fn push_post(old: &Bus, new: &Bus, opcode: u8) -> bool {
    let c = old.cpu@;
    pushed(old, new, stack_r16(c, ((opcode / 16) % 4) as int), CpuView { cycle_buffer: 4, ..c })
}

/// Effect of `POP rr` (`0xC1, 0xD1, 0xE1, 0xF1` for `BC, DE, HL, AF`): the
/// word at `SP` goes to the pair (for `AF` without the low nibble of F); 3 cycles.
pub open spec fn pop_post(old: &Bus, new: &Bus, opcode: u8) -> bool {
    let c = old.cpu@;
    &&& new.cpu@ == with_stack_r16(
        CpuView { sp: w16(c.sp + 2), cycle_buffer: 3, ..c },
        ((opcode / 16) % 4) as int,
        old.read16_spec(c.sp),
    )
    &&& mem_same(old, new)
    &&& new.ppu == old.ppu
}

/// `PUSH rr`.
pub struct PushRegister {
    pub opcode: u8,
}

impl PushRegister {
    pub fn default(opcode: u8) -> (r: PushRegister)
        ensures
            r.opcode == opcode,
    {
        PushRegister { opcode }
    }

    pub fn execute(&self, bus: &mut Bus)
        requires
            old(bus).wf(),
        ensures
            final(bus).wf(),
            push_post(old(bus), final(bus), self.opcode),
    {
        let i = (self.opcode / 16) % 4;
        let v = if i == 3 {
            bus.cpu.get_af()
        } else if i == 0 {
            bus.cpu.get_bc()
        } else if i == 1 {
            bus.cpu.get_de()
        } else {
            bus.cpu.get_hl()
        };
        bus.push_u16_to_stack(v);
        bus.cpu.add_m_cycles(4);
    }
}

/// `POP rr`.
pub struct PopRegister {
    pub opcode: u8,
}

impl PopRegister {
    pub fn default(opcode: u8) -> (r: PopRegister)
        ensures
            r.opcode == opcode,
    {
        PopRegister { opcode }
    }

    pub fn execute(&self, bus: &mut Bus)
        requires
            old(bus).wf(),
        ensures
            final(bus).wf(),
            pop_post(old(bus), final(bus), self.opcode),
    {
        let i = (self.opcode / 16) % 4;
        let v = bus.pop_u16_from_stack();
        bus.cpu.add_m_cycles(3);
        if i == 3 {
            bus.cpu.set_af(v);
        } else if i == 0 {
            bus.cpu.set_bc(v);
        } else if i == 1 {
            bus.cpu.set_de(v);
        } else {
            bus.cpu.set_hl(v);
        }
    }
}

/// `PUSH rr` followed by `POP rr` restores the pair and `SP`, when both
/// stack bytes lie in RAM. For `AF` the pop drops the low nibble of F, which
/// already reads zero.
pub proof fn lemma_push_pop_restores(b0: Bus, b1: Bus, b2: Bus, i: int)
    requires
        0 <= i < 4,
        b0.wf(),
        b1.wf(),
        push_post(&b0, &b1, (0xC5 + 16 * i) as u8),
        pop_post(&b1, &b2, (0xC1 + 16 * i) as u8),
        is_ram(w16(b0.cpu@.sp - 2)),
        is_ram(w16(b0.cpu@.sp - 1)),
    ensures
        stack_r16(b2.cpu@, i) == stack_r16(b0.cpu@, i),
        b2.cpu@.sp == b0.cpu@.sp,
{
    let c = b0.cpu@;
    let v = stack_r16(c, i);
    assert(((0xC5 + 16 * i) as u8 / 16) % 4 == i);
    assert(((0xC1 + 16 * i) as u8 / 16) % 4 == i);
    lemma_push_pop(b0, b1, v);
    lemma_pair_split(v);
    if i == 3 {
        let f = c.f();
        lemma_flag_byte_low_nibble(c.zf, c.nf, c.hf, c.cf);
        assert(v == pair(c.a, f));
        assert(lo_byte(v) == f && hi_byte(v) == c.a);
        lemma_flag_byte_of(f);
        assert(f & 0x0F == 0 ==> f & 0xF0 == f) by (bit_vector);
        let f2 = b2.cpu@.f();
        assert(f2 == flag_byte(f & 0x80 != 0, f & 0x40 != 0, f & 0x20 != 0, f & 0x10 != 0));
    }
}

} // verus!
