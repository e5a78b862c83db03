use vstd::prelude::*;
use crate::bus::{Bus, mem_same};
use crate::cpu::{CpuView, w16};
use crate::opcode::arithmatic::{shift, shift_result};
use crate::opcode::opcode::{fetch_u8, imm8, operand8, r8_post, read_r8, write_r8};

verus! {

/// Whether bit `b` of `v` is set.
pub open spec fn bit_set(v: u8, b: u8) -> bool {
    (v >> b) & 1 == 1
}

/// Effect of a `0xCB`-prefixed instruction, whose second byte `cb` selects
/// the operation (`cb / 64`: shift family, BIT, RES, SET), the bit or shift
/// kind (`(cb / 8) % 8`) and the operand (`cb % 8`, 6 for `(HL)`).
pub open spec fn cb_post(old: &Bus, new: &Bus) -> bool {
    let c = old.cpu@;
    let cb = imm8(old);
    let i = (cb % 8) as int;
    let b = ((cb / 8) % 8) as u8;
    let c1 = CpuView { pc: w16(c.pc + 1), ..c };
    let v = operand8(old, i);
    if cb < 0x40 {
        let (r, cy) = shift_result(b as int, v, c.cf);
        r8_post(
            old,
            new,
            i,
            r,
            CpuView {
                zf: r == 0,
                nf: false,
                hf: false,
                cf: cy,
                cycle_buffer: if i == 6 {
                    4
                } else {
                    2
                },
                ..c1
            },
        )
    } else if cb < 0x80 {
        &&& new.cpu@ == (CpuView {
            zf: !bit_set(v, b),
            nf: false,
            hf: true,
            cycle_buffer: if i == 6 {
                3
            } else {
                2
            },
            ..c1
        })
        &&& mem_same(old, new)
        &&& new.ppu == old.ppu
    } else {
        let r = if cb < 0xC0 {
            v & !(1u8 << b)
        } else {
            v | (1u8 << b)
        };
        r8_post(
            old,
            new,
            i,
            r,
            CpuView {
                cycle_buffer: if i == 6 {
                    4
                } else {
                    2
                },
                ..c1
            },
        )
    }
}

/// The `0xCB` prefix: rotates, shifts, SWAP, BIT, RES and SET on a register or `(HL)`.
pub struct CB {
    pub opcode: u8,
}

impl CB {
    pub fn default() -> (r: CB)
        ensures
            r.opcode == 0xCB,
    {
        CB { opcode: 0xCB }
    }

    pub fn execute(&self, bus: &mut Bus)
        requires
            old(bus).wf(),
        ensures
            final(bus).wf(),
            cb_post(old(bus), final(bus)),
    {
        let cb = fetch_u8(bus);
        let i = cb % 8;
        let b = (cb / 8) % 8;
        let v = read_r8(bus, i);
        if cb < 0x40 {
            let (r, cy) = shift(b, v, bus.cpu.get_carry_flag());
            bus.cpu.set_flags(r == 0, false, false, cy);
            bus.cpu.add_m_cycles(
                if i == 6 {
                    4
                } else {
                    2
                },
            );
            write_r8(bus, i, r);
        } else if cb < 0x80 {
            bus.cpu.set_zero_flag((v >> b) & 1 != 1);
            bus.cpu.set_n_flag(false);
            bus.cpu.set_half_carry_flag(true);
            bus.cpu.add_m_cycles(
                if i == 6 {
                    3
                } else {
                    2
                },
            );
        } else {
            let r = if cb < 0xC0 {
                v & !(1u8 << b)
            } else {
                v | (1u8 << b)
            };
            bus.cpu.add_m_cycles(
                if i == 6 {
                    4
                } else {
                    2
                },
            );
            write_r8(bus, i, r);
        }
    }
}

} // verus!
