use vstd::prelude::*;
use crate::bus::{Bus, lemma_written2_after_same, mem_same, mem_written2};
use crate::cpu::{CpuView, hi_byte, lo_byte, w16};
use crate::io::interrupts::Interrupt;
use crate::io::io::IO;
use crate::opcode::opcode::{cond, condition, fetch_u16, fetch_u8, imm16, imm8, signed8};

verus! {

/// Effect of `JP nn` (`0xC3`, `cc == 4`) and `JP cc, nn` (`0xC2, 0xCA, 0xD2,
/// 0xDA`): 4 cycles when taken, else 3 and `PC` past the operand.
pub open spec fn jp_post(old: &Bus, new: &Bus, cc: int) -> bool {
    let c = old.cpu@;
    let taken = cc == 4 || cond(c, cc);
    &&& new.cpu@ == (CpuView {
        pc: if taken {
            imm16(old)
        } else {
            w16(c.pc + 2)
        },
        cycle_buffer: if taken {
            4
        } else {
            3
        },
        ..c
    })
    &&& mem_same(old, new)
    &&& new.ppu == old.ppu
}

/// Effect of `JR e` (`0x18`, `cc == 4`) and `JR cc, e` (`0x20, 0x28, 0x30,
/// 0x38`): the signed offset applies to `PC` after the operand; 3 cycles when
/// taken, else 2.
pub open spec fn jr_post(old: &Bus, new: &Bus, cc: int) -> bool {
    let c = old.cpu@;
    let taken = cc == 4 || cond(c, cc);
    &&& new.cpu@ == (CpuView {
        pc: if taken {
            w16(c.pc + 1 + signed8(imm8(old)))
        } else {
            w16(c.pc + 1)
        },
        cycle_buffer: if taken {
            3
        } else {
            2
        },
        ..c
    })
    &&& mem_same(old, new)
    &&& new.ppu == old.ppu
}

/// Whether `new` is `old` after pushing `value`, with CPU state `c` but `SP`.
pub open spec fn pushed(old: &Bus, new: &Bus, value: u16, c: CpuView) -> bool {
    let sp = old.cpu@.sp;
    &&& new.cpu@ == (CpuView { sp: w16(sp - 2), ..c })
    &&& mem_written2(old, new, w16(sp - 2), lo_byte(value), w16(sp - 1), hi_byte(value))
    &&& new.ppu == old.ppu
}

/// Effect of `CALL nn` (`0xCD`, `cc == 4`) and `CALL cc, nn` (`0xC4, 0xCC,
/// 0xD4, 0xDC`): when taken, the address after the operand is pushed and
/// `PC` jumps, 6 cycles; else 3 cycles.
pub open spec fn call_post(old: &Bus, new: &Bus, cc: int) -> bool {
    let c = old.cpu@;
    let taken = cc == 4 || cond(c, cc);
    let ret = w16(c.pc + 2);
    if taken {
        pushed(old, new, ret, CpuView { pc: imm16(old), cycle_buffer: 6, ..c })
    } else {
        &&& new.cpu@ == (CpuView { pc: ret, cycle_buffer: 3, ..c })
        &&& mem_same(old, new)
        &&& new.ppu == old.ppu
    }
}

/// Effect of `RST v` (`0xC7, 0xCF, ..., 0xFF`): `PC` is pushed and jumps to
/// `opcode & 0x38`; 4 cycles.
pub open spec fn rst_post(old: &Bus, new: &Bus, opcode: u8) -> bool {
    let c = old.cpu@;
    pushed(old, new, c.pc, CpuView { pc: (opcode & 0x38) as u16, cycle_buffer: 4, ..c })
}

/// Effect of `RET` (`0xC9`, `cc == 4`), `RET cc` (`0xC0, 0xC8, 0xD0, 0xD8`)
/// and `RETI` (`0xD9`, `cc == 5`): when taken, `PC` is popped; RET takes 4
/// cycles, RET cc 5 when taken and 2 when not, RETI 4 and sets `IME`.
pub open spec fn ret_post(old: &Bus, new: &Bus, cc: int) -> bool {
    let c = old.cpu@;
    let taken = cc >= 4 || cond(c, cc);
    &&& new.cpu@ == (if taken {
        CpuView {
            pc: old.read16_spec(c.sp),
            sp: w16(c.sp + 2),
            cycle_buffer: if cc >= 4 {
                4
            } else {
                5
            },
            ..c
        }
    } else {
        CpuView { cycle_buffer: 2, ..c }
    })
    &&& new.cartridge == old.cartridge && new.wram == old.wram && new.hram == old.hram
    &&& new.io == (if cc == 5 {
        IO { interrupt: Interrupt { interrupt_master_enable: true, ..old.io.interrupt }, ..old.io }
    } else {
        old.io
    })
    &&& new.ppu == old.ppu
}

/// Effect of `JP HL` (`0xE9`): 1 cycle.
pub open spec fn jp_hl_post(old: &Bus, new: &Bus) -> bool {
    let c = old.cpu@;
    &&& new.cpu@ == (CpuView { pc: c.hl(), cycle_buffer: 1, ..c })
    &&& mem_same(old, new)
    &&& new.ppu == old.ppu
}

fn jump_absolute(bus: &mut Bus, cc: u8)
    requires
        old(bus).wf(),
        cc <= 4,
    ensures
        final(bus).wf(),
        jp_post(old(bus), final(bus), cc as int),
{
    let taken = cc == 4 || condition(bus, cc);
    let target = fetch_u16(bus);
    if taken {
        bus.cpu.set_pc(target);
        bus.cpu.add_m_cycles(4);
    } else {
        bus.cpu.add_m_cycles(3);
    }
}

fn jump_relative(bus: &mut Bus, cc: u8)
    requires
        old(bus).wf(),
        cc <= 4,
    ensures
        final(bus).wf(),
        jr_post(old(bus), final(bus), cc as int),
{
    let taken = cc == 4 || condition(bus, cc);
    let e = fetch_u8(bus);
    if taken {
        bus.cpu.add_i8_to_pc(if e < 128 {
            e as i8
        } else {
            (e as i16 - 256) as i8
        });
        bus.cpu.add_m_cycles(3);
    } else {
        bus.cpu.add_m_cycles(2);
    }
}

fn call(bus: &mut Bus, cc: u8)
    requires
        old(bus).wf(),
        cc <= 4,
    ensures
        final(bus).wf(),
        call_post(old(bus), final(bus), cc as int),
{
    let taken = cc == 4 || condition(bus, cc);
    let target = fetch_u16(bus);
    if taken {
        let ghost mid = *bus;
        let ret = bus.cpu.get_pc();
        bus.push_u16_to_stack(ret);
        bus.cpu.set_pc(target);
        bus.cpu.add_m_cycles(6);
        proof {
            lemma_written2_after_same(old(bus), &mid, bus, w16(mid.cpu@.sp - 2), lo_byte(ret), w16(mid.cpu@.sp - 1), hi_byte(ret));
        }
    } else {
        bus.cpu.add_m_cycles(3);
    }
}

fn ret(bus: &mut Bus, cc: u8)
    requires
        old(bus).wf(),
        cc <= 5,
    ensures
        final(bus).wf(),
        ret_post(old(bus), final(bus), cc as int),
{
    let taken = cc >= 4 || condition(bus, cc);
    if taken {
        let target = bus.pop_u16_from_stack();
        bus.cpu.set_pc(target);
        bus.cpu.add_m_cycles(
            if cc >= 4 {
                4
            } else {
                5
            },
        );
        if cc == 5 {
            bus.io.interrupt.enable_interrupts();
        }
    } else {
        bus.cpu.add_m_cycles(2);
    }
}

/// `JP nn`.
pub struct JumpAddress {
    pub opcode: u8,
}

impl JumpAddress {
    pub fn default() -> (r: JumpAddress)
        ensures
            r.opcode == 0xC3,
    {
        JumpAddress { opcode: 0xC3 }
    }

    pub fn execute(&self, bus: &mut Bus)
        requires
            old(bus).wf(),
        ensures
            final(bus).wf(),
            jp_post(old(bus), final(bus), 4),
    {
        jump_absolute(bus, 4);
    }
}

/// `JP cc, nn`.
pub struct JumpConditional {
    pub opcode: u8,
}

impl JumpConditional {
    pub fn default(opcode: u8) -> (r: JumpConditional)
        ensures
            r.opcode == opcode,
    {
        JumpConditional { opcode }
    }

    pub fn execute(&self, bus: &mut Bus)
        requires
            old(bus).wf(),
        ensures
            final(bus).wf(),
            jp_post(old(bus), final(bus), ((self.opcode / 8) % 4) as int),
    {
        jump_absolute(bus, (self.opcode / 8) % 4);
    }
}

/// `JR e`.
pub struct JumpRelative {
    pub opcode: u8,
}

impl JumpRelative {
    pub fn default() -> (r: JumpRelative)
        ensures
            r.opcode == 0x18,
    {
        JumpRelative { opcode: 0x18 }
    }

    pub fn execute(&self, bus: &mut Bus)
        requires
            old(bus).wf(),
        ensures
            final(bus).wf(),
            jr_post(old(bus), final(bus), 4),
    {
        jump_relative(bus, 4);
    }
}

/// `JR cc, e`.
pub struct JumpRelativeConditional {
    pub opcode: u8,
}

impl JumpRelativeConditional {
    pub fn default(opcode: u8) -> (r: JumpRelativeConditional)
        ensures
            r.opcode == opcode,
    {
        JumpRelativeConditional { opcode }
    }

    pub fn execute(&self, bus: &mut Bus)
        requires
            old(bus).wf(),
        ensures
            final(bus).wf(),
            jr_post(old(bus), final(bus), ((self.opcode / 8) % 4) as int),
    {
        jump_relative(bus, (self.opcode / 8) % 4);
    }
}

/// `CALL nn`.
pub struct CallAddress {
    pub opcode: u8,
}

impl CallAddress {
    pub fn default() -> (r: CallAddress)
        ensures
            r.opcode == 0xCD,
    {
        CallAddress { opcode: 0xCD }
    }

    pub fn execute(&self, bus: &mut Bus)
        requires
            old(bus).wf(),
        ensures
            final(bus).wf(),
            call_post(old(bus), final(bus), 4),
    {
        call(bus, 4);
    }
}

/// `CALL cc, nn`.
pub struct CallConditional {
    pub opcode: u8,
}

impl CallConditional {
    pub fn default(opcode: u8) -> (r: CallConditional)
        ensures
            r.opcode == opcode,
    {
        CallConditional { opcode }
    }

    pub fn execute(&self, bus: &mut Bus)
        requires
            old(bus).wf(),
        ensures
            final(bus).wf(),
            call_post(old(bus), final(bus), ((self.opcode / 8) % 4) as int),
    {
        call(bus, (self.opcode / 8) % 4);
    }
}

/// `RST v`.
pub struct CallRST {
    pub opcode: u8,
}

impl CallRST {
    pub fn default(opcode: u8) -> (r: CallRST)
        ensures
            r.opcode == opcode,
    {
        CallRST { opcode }
    }

    pub fn execute(&self, bus: &mut Bus)
        requires
            old(bus).wf(),
        ensures
            final(bus).wf(),
            rst_post(old(bus), final(bus), self.opcode),
    {
        let ret = bus.cpu.get_pc();
        bus.push_u16_to_stack(ret);
        bus.cpu.set_pc((self.opcode & 0x38) as u16);
        bus.cpu.add_m_cycles(4);
    }
}

/// `RET`.
pub struct CallReturn {
    pub opcode: u8,
}

impl CallReturn {
    pub fn default() -> (r: CallReturn)
        ensures
            r.opcode == 0xC9,
    {
        CallReturn { opcode: 0xC9 }
    }

    pub fn execute(&self, bus: &mut Bus)
        requires
            old(bus).wf(),
        ensures
            final(bus).wf(),
            ret_post(old(bus), final(bus), 4),
    {
        ret(bus, 4);
    }
}

/// `RET cc`.
pub struct ReturnConditional {
    pub opcode: u8,
}

impl ReturnConditional {
    pub fn default(opcode: u8) -> (r: ReturnConditional)
        ensures
            r.opcode == opcode,
    {
        ReturnConditional { opcode }
    }

    pub fn execute(&self, bus: &mut Bus)
        requires
            old(bus).wf(),
        ensures
            final(bus).wf(),
            ret_post(old(bus), final(bus), ((self.opcode / 8) % 4) as int),
    {
        ret(bus, (self.opcode / 8) % 4);
    }
}

/// `RETI`.
pub struct ReturnEnableInterrupts {
    pub opcode: u8,
}

impl ReturnEnableInterrupts {
    pub fn default() -> (r: ReturnEnableInterrupts)
        ensures
            r.opcode == 0xD9,
    {
        ReturnEnableInterrupts { opcode: 0xD9 }
    }

    pub fn execute(&self, bus: &mut Bus)
        requires
            old(bus).wf(),
        ensures
            final(bus).wf(),
            ret_post(old(bus), final(bus), 5),
    {
        ret(bus, 5);
    }
}

/// `JP HL`.
pub struct JumpHL {
    pub opcode: u8,
}

impl JumpHL {
    pub fn default() -> (r: JumpHL)
        ensures
            r.opcode == 0xE9,
    {
        JumpHL { opcode: 0xE9 }
    }

    pub fn execute(&self, bus: &mut Bus)
        requires
            old(bus).wf(),
        ensures
            final(bus).wf(),
            jp_hl_post(old(bus), final(bus)),
    {
        let hl = bus.cpu.get_hl();
        bus.cpu.set_pc(hl);
        bus.cpu.add_m_cycles(1);
    }
}

} // verus!
