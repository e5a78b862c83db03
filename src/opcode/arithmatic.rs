use vstd::prelude::*;
use crate::bus::{Bus, mem_same};
use crate::cpu::{CpuView, w16, w8};
use crate::opcode::opcode::{
    fetch_u8, imm8, operand8, r16, r8_post, read_r16, read_r8, signed8, with_r16, write_r16,
    write_r8,
};

verus! {

/// The 8-bit ALU: result, N, H and C of operation `op` (0 ADD, 1 ADC, 2 SUB,
/// 3 SBC, 4 AND, 5 XOR, 6 OR, 7 CP) on `a` and `v`. Z is `result == 0`.
pub open spec fn alu_result(op: int, a: u8, v: u8, carry: bool) -> (u8, bool, bool, bool) {
    let ci: int = if carry {
        1
    } else {
        0
    };
    if op == 0 {
        (w8(a + v), false, a % 16 + v % 16 > 15, a + v > 255)
    } else if op == 1 {
        (w8(a + v + ci), false, a % 16 + v % 16 + ci > 15, a + v + ci > 255)
    } else if op == 2 || op == 7 {
        (w8(a - v), true, a % 16 < v % 16, a < v)
    } else if op == 3 {
        (w8(a - v - ci), true, a % 16 < v % 16 + ci, a < v + ci)
    } else if op == 4 {
        (a & v, false, true, false)
    } else if op == 5 {
        (a ^ v, false, false, false)
    } else {
        (a | v, false, false, false)
    }
}

/// Effect of the ALU instructions `0x80..=0xBF` (operand `opcode % 8`) and
/// `0xC6, 0xCE, ..., 0xFE` (immediate operand): A takes the result but for
/// CP, and the flags are set.
pub open spec fn alu_post(old: &Bus, new: &Bus, opcode: u8) -> bool {
    let c = old.cpu@;
    let op = (opcode / 8) % 8;
    let imm = opcode >= 0xC0;
    let v = if imm {
        imm8(old)
    } else {
        operand8(old, (opcode % 8) as int)
    };
    let (res, n, h, cy) = alu_result(op as int, c.a, v, c.cf);
    &&& new.cpu@ == (CpuView {
        a: if op == 7 {
            c.a
        } else {
            res
        },
        zf: res == 0,
        nf: n,
        hf: h,
        cf: cy,
        pc: if imm {
            w16(c.pc + 1)
        } else {
            c.pc
        },
        cycle_buffer: if imm || opcode % 8 == 6 {
            2
        } else {
            1
        },
        ..c
    })
    &&& mem_same(old, new)
    &&& new.ppu == old.ppu
}

/// Whether `opcode` is one of the ALU instructions.
pub open spec fn is_alu_opcode(opcode: u8) -> bool {
    (0x80 <= opcode <= 0xBF) || (opcode >= 0xC0 && opcode % 8 == 6)
}

/// `a + v + ci` with its half-carry and carry.
fn add_bytes(a: u8, v: u8, ci: u8) -> (r: (u8, bool, bool))
    requires
        ci <= 1,
    ensures
        r == (w8(a + v + ci), a % 16 + v % 16 + ci > 15, a + v + ci > 255),
{
    let s = a as u16 + v as u16 + ci as u16;
    ((s % 256) as u8, a % 16 + v % 16 + ci > 15, s > 255)
}

/// `a - v - ci` with its half-borrow and borrow.
fn sub_bytes(a: u8, v: u8, ci: u8) -> (r: (u8, bool, bool))
    requires
        ci <= 1,
    ensures
        r == (w8(a - v - ci), a % 16 < v % 16 + ci, a < v + ci),
{
    let s = a as u16 + 256 - v as u16 - ci as u16;
    assert((s as int) % 256 == (a - v - ci) % 256) by {
        assert(s as int == (a - v - ci) + 256);
    }
    ((s % 256) as u8, a % 16 < v % 16 + ci, (a as u16) < v as u16 + ci as u16)
}

/// Computes `alu_result`.
pub fn alu(op: u8, a: u8, v: u8, carry: bool) -> (r: (u8, bool, bool, bool))
    requires
        op < 8,
    ensures
        r == alu_result(op as int, a, v, carry),
{
    let ci: u8 = if carry {
        1
    } else {
        0
    };
    if op == 0 || op == 1 {
        let (res, h, c) = add_bytes(a, v, if op == 1 { ci } else { 0 });
        (res, false, h, c)
    } else if op == 2 || op == 3 || op == 7 {
        let (res, h, c) = sub_bytes(a, v, if op == 3 { ci } else { 0 });
        (res, true, h, c)
    } else if op == 4 {
        (a & v, false, true, false)
    } else if op == 5 {
        (a ^ v, false, false, false)
    } else {
        (a | v, false, false, false)
    }
}

/// Executes an ALU instruction (see `alu_post`).
fn alu_execute(bus: &mut Bus, opcode: u8)
    requires
        old(bus).wf(),
        is_alu_opcode(opcode),
    ensures
        final(bus).wf(),
        alu_post(old(bus), final(bus), opcode),
{
    let op = (opcode / 8) % 8;
    let imm = opcode >= 0xC0;
    let v = if imm {
        fetch_u8(bus)
    } else {
        read_r8(bus, opcode % 8)
    };
    let a = bus.cpu.get_a();
    let (res, n, h, cy) = alu(op, a, v, bus.cpu.get_carry_flag());
    bus.cpu.set_flags(res == 0, n, h, cy);
    if op != 7 {
        bus.cpu.set_a(res);
    }
    bus.cpu.add_m_cycles(
        if imm || opcode % 8 == 6 {
            2
        } else {
            1
        },
    );
}

/// `ADD A, r` (`0x80..=0x87`) and `ADD A, n` (`0xC6`).
pub struct Add8BitRegister {
    pub opcode: u8,
}

impl Add8BitRegister {
    pub fn default(opcode: u8) -> (r: Add8BitRegister)
        ensures
            r.opcode == opcode,
    {
        Add8BitRegister { opcode }
    }

    pub fn execute(&self, bus: &mut Bus)
        requires
            old(bus).wf(),
            (0x80 <= self.opcode <= 0x87) || self.opcode == 0xC6,
        ensures
            final(bus).wf(),
            alu_post(old(bus), final(bus), self.opcode),
    {
        alu_execute(bus, self.opcode);
    }
}

/// `ADC A, r` (`0x88..=0x8F`) and `ADC A, n` (`0xCE`).
pub struct Add8BitRegisterWithCarry {
    pub opcode: u8,
}

impl Add8BitRegisterWithCarry {
    pub fn default(opcode: u8) -> (r: Add8BitRegisterWithCarry)
        ensures
            r.opcode == opcode,
    {
        Add8BitRegisterWithCarry { opcode }
    }

    pub fn execute(&self, bus: &mut Bus)
        requires
            old(bus).wf(),
            (0x88 <= self.opcode <= 0x8F) || self.opcode == 0xCE,
        ensures
            final(bus).wf(),
            alu_post(old(bus), final(bus), self.opcode),
    {
        alu_execute(bus, self.opcode);
    }
}

/// `SUB r` (`0x90..=0x97`) and `SUB n` (`0xD6`).
pub struct Subtract8BitRegister {
    pub opcode: u8,
}

impl Subtract8BitRegister {
    pub fn default(opcode: u8) -> (r: Subtract8BitRegister)
        ensures
            r.opcode == opcode,
    {
        Subtract8BitRegister { opcode }
    }

    pub fn execute(&self, bus: &mut Bus)
        requires
            old(bus).wf(),
            (0x90 <= self.opcode <= 0x97) || self.opcode == 0xD6,
        ensures
            final(bus).wf(),
            alu_post(old(bus), final(bus), self.opcode),
    {
        alu_execute(bus, self.opcode);
    }
}

/// `SBC A, r` (`0x98..=0x9F`) and `SBC A, n` (`0xDE`).
pub struct Subtract8BitRegisterWithCarry {
    pub opcode: u8,
}

impl Subtract8BitRegisterWithCarry {
    pub fn default(opcode: u8) -> (r: Subtract8BitRegisterWithCarry)
        ensures
            r.opcode == opcode,
    {
        Subtract8BitRegisterWithCarry { opcode }
    }

    pub fn execute(&self, bus: &mut Bus)
        requires
            old(bus).wf(),
            (0x98 <= self.opcode <= 0x9F) || self.opcode == 0xDE,
        ensures
            final(bus).wf(),
            alu_post(old(bus), final(bus), self.opcode),
    {
        alu_execute(bus, self.opcode);
    }
}

/// `AND r` (`0xA0..=0xA7`) and `AND n` (`0xE6`).
pub struct And8BitRegister {
    pub opcode: u8,
}

impl And8BitRegister {
    pub fn default(opcode: u8) -> (r: And8BitRegister)
        ensures
            r.opcode == opcode,
    {
        And8BitRegister { opcode }
    }

    pub fn execute(&self, bus: &mut Bus)
        requires
            old(bus).wf(),
            (0xA0 <= self.opcode <= 0xA7) || self.opcode == 0xE6,
        ensures
            final(bus).wf(),
            alu_post(old(bus), final(bus), self.opcode),
    {
        alu_execute(bus, self.opcode);
    }
}

/// `XOR r` (`0xA8..=0xAF`) and `XOR n` (`0xEE`).
pub struct Xor8BitRegister {
    pub opcode: u8,
}

impl Xor8BitRegister {
    pub fn default(opcode: u8) -> (r: Xor8BitRegister)
        ensures
            r.opcode == opcode,
    {
        Xor8BitRegister { opcode }
    }

    pub fn execute(&self, bus: &mut Bus)
        requires
            old(bus).wf(),
            (0xA8 <= self.opcode <= 0xAF) || self.opcode == 0xEE,
        ensures
            final(bus).wf(),
            alu_post(old(bus), final(bus), self.opcode),
    {
        alu_execute(bus, self.opcode);
    }
}

/// `OR r` (`0xB0..=0xB7`) and `OR n` (`0xF6`).
pub struct Or8BitRegister {
    pub opcode: u8,
}

impl Or8BitRegister {
    pub fn default(opcode: u8) -> (r: Or8BitRegister)
        ensures
            r.opcode == opcode,
    {
        Or8BitRegister { opcode }
    }

    pub fn execute(&self, bus: &mut Bus)
        requires
            old(bus).wf(),
            (0xB0 <= self.opcode <= 0xB7) || self.opcode == 0xF6,
        ensures
            final(bus).wf(),
            alu_post(old(bus), final(bus), self.opcode),
    {
        alu_execute(bus, self.opcode);
    }
}

/// `CP r` (`0xB8..=0xBF`) and `CP n` (`0xFE`).
pub struct Compare8BitRegister {
    pub opcode: u8,
}

impl Compare8BitRegister {
    pub fn default(opcode: u8) -> (r: Compare8BitRegister)
        ensures
            r.opcode == opcode,
    {
        Compare8BitRegister { opcode }
    }

    pub fn execute(&self, bus: &mut Bus)
        requires
            old(bus).wf(),
            (0xB8 <= self.opcode <= 0xBF) || self.opcode == 0xFE,
        ensures
            final(bus).wf(),
            alu_post(old(bus), final(bus), self.opcode),
    {
        alu_execute(bus, self.opcode);
    }
}

/// Effect of `INC r` (`0x04, 0x0C, ..., 0x3C`): Z, N cleared, H from the low
/// nibble, C kept; 3 cycles for `(HL)`, else 1.
pub open spec fn inc8_post(old: &Bus, new: &Bus, opcode: u8) -> bool {
    let c = old.cpu@;
    let i = (opcode / 8) % 8;
    let v = operand8(old, i as int);
    let r = w8(v + 1);
    r8_post(
        old,
        new,
        i as int,
        r,
        CpuView {
            zf: r == 0,
            nf: false,
            hf: v % 16 == 15,
            cycle_buffer: if i == 6 {
                3
            } else {
                1
            },
            ..c
        },
    )
}

/// Effect of `DEC r` (`0x05, 0x0D, ..., 0x3D`): Z, N set, H from the low
/// nibble, C kept; 3 cycles for `(HL)`, else 1.
pub open spec fn dec8_post(old: &Bus, new: &Bus, opcode: u8) -> bool {
    let c = old.cpu@;
    let i = (opcode / 8) % 8;
    let v = operand8(old, i as int);
    let r = w8(v - 1);
    r8_post(
        old,
        new,
        i as int,
        r,
        CpuView {
            zf: r == 0,
            nf: true,
            hf: v % 16 == 0,
            cycle_buffer: if i == 6 {
                3
            } else {
                1
            },
            ..c
        },
    )
}

/// `INC r` and `INC (HL)`.
pub struct IncrementRegister8Bit {
    pub opcode: u8,
}

impl IncrementRegister8Bit {
    pub fn default(opcode: u8) -> (r: IncrementRegister8Bit)
        ensures
            r.opcode == opcode,
    {
        IncrementRegister8Bit { opcode }
    }

    pub fn execute(&self, bus: &mut Bus)
        requires
            old(bus).wf(),
            self.opcode < 0x40 && self.opcode % 8 == 4,
        ensures
            final(bus).wf(),
            inc8_post(old(bus), final(bus), self.opcode),
    {
        let i = (self.opcode / 8) % 8;
        let v = read_r8(bus, i);
        let r = v.wrapping_add(1);
        bus.cpu.set_zero_flag(r == 0);
        bus.cpu.set_n_flag(false);
        bus.cpu.set_half_carry_flag(v % 16 == 15);
        bus.cpu.add_m_cycles(
            if i == 6 {
                3
            } else {
                1
            },
        );
        write_r8(bus, i, r);
    }
}

/// `DEC r` and `DEC (HL)`.
pub struct DecrementRegister8Bit {
    pub opcode: u8,
}

impl DecrementRegister8Bit {
    pub fn default(opcode: u8) -> (r: DecrementRegister8Bit)
        ensures
            r.opcode == opcode,
    {
        DecrementRegister8Bit { opcode }
    }

    pub fn execute(&self, bus: &mut Bus)
        requires
            old(bus).wf(),
            self.opcode < 0x40 && self.opcode % 8 == 5,
        ensures
            final(bus).wf(),
            dec8_post(old(bus), final(bus), self.opcode),
    {
        let i = (self.opcode / 8) % 8;
        let v = read_r8(bus, i);
        let r = v.wrapping_sub(1);
        bus.cpu.set_zero_flag(r == 0);
        bus.cpu.set_n_flag(true);
        bus.cpu.set_half_carry_flag(v % 16 == 0);
        bus.cpu.add_m_cycles(
            if i == 6 {
                3
            } else {
                1
            },
        );
        write_r8(bus, i, r);
    }
}

/// Effect of `INC rr` (`0x03, 0x13, 0x23, 0x33`) or, with `delta == -1`,
/// `DEC rr` (`0x0B, ..., 0x3B`): no flags change, 2 cycles.
pub open spec fn step16_post(old: &Bus, new: &Bus, opcode: u8, delta: int) -> bool {
    let c = old.cpu@;
    let i = (opcode / 16) % 4;
    &&& new.cpu@ == with_r16(
        CpuView { cycle_buffer: 2, ..c },
        i as int,
        w16(r16(c, i as int) + delta),
    )
    &&& mem_same(old, new)
    &&& new.ppu == old.ppu
}

/// `INC rr`.
pub struct IncrementRegister {
    pub opcode: u8,
}

impl IncrementRegister {
    pub fn default(opcode: u8) -> (r: IncrementRegister)
        ensures
            r.opcode == opcode,
    {
        IncrementRegister { opcode }
    }

    pub fn execute(&self, bus: &mut Bus)
        requires
            old(bus).wf(),
            self.opcode < 0x40 && self.opcode % 16 == 3,
        ensures
            final(bus).wf(),
            step16_post(old(bus), final(bus), self.opcode, 1),
    {
        let i = (self.opcode / 16) % 4;
        let v = read_r16(bus, i);
        bus.cpu.add_m_cycles(2);
        write_r16(bus, i, v.wrapping_add(1));
    }
}

/// `DEC rr`.
pub struct DecrementRegister {
    pub opcode: u8,
}

impl DecrementRegister {
    pub fn default(opcode: u8) -> (r: DecrementRegister)
        ensures
            r.opcode == opcode,
    {
        DecrementRegister { opcode }
    }

    pub fn execute(&self, bus: &mut Bus)
        requires
            old(bus).wf(),
            self.opcode < 0x40 && self.opcode % 16 == 0x0B,
        ensures
            final(bus).wf(),
            step16_post(old(bus), final(bus), self.opcode, -1),
    {
        let i = (self.opcode / 16) % 4;
        let v = read_r16(bus, i);
        bus.cpu.add_m_cycles(2);
        write_r16(bus, i, v.wrapping_sub(1));
    }
}

/// Effect of `ADD HL, rr` (`0x09, 0x19, 0x29, 0x39`): N cleared, H from bit
/// 11, C from bit 15, Z kept; 2 cycles.
pub open spec fn add16_post(old: &Bus, new: &Bus, opcode: u8) -> bool {
    let c = old.cpu@;
    let v = r16(c, ((opcode / 16) % 4) as int);
    let hl = c.hl();
    &&& new.cpu@ == with_r16(
        CpuView {
            nf: false,
            hf: hl % 4096 + v % 4096 > 4095,
            cf: hl + v > 65535,
            cycle_buffer: 2,
            ..c
        },
        2,
        w16(hl + v),
    )
    &&& mem_same(old, new)
    &&& new.ppu == old.ppu
}

/// `ADD HL, rr`.
pub struct Add16BitRegister {
    pub opcode: u8,
}

impl Add16BitRegister {
    pub fn default(opcode: u8) -> (r: Add16BitRegister)
        ensures
            r.opcode == opcode,
    {
        Add16BitRegister { opcode }
    }

    pub fn execute(&self, bus: &mut Bus)
        requires
            old(bus).wf(),
            self.opcode < 0x40 && self.opcode % 16 == 9,
        ensures
            final(bus).wf(),
            add16_post(old(bus), final(bus), self.opcode),
    {
        let v = read_r16(bus, (self.opcode / 16) % 4);
        let hl = bus.cpu.get_hl();
        let sum = hl as u32 + v as u32;
        bus.cpu.set_n_flag(false);
        bus.cpu.set_half_carry_flag(hl % 4096 + v % 4096 > 4095);
        bus.cpu.set_carry_flag(sum > 65535);
        bus.cpu.add_m_cycles(2);
        bus.cpu.set_hl((sum % 65536) as u16);
    }
}

/// Rotates and shifts (0 RLC, 1 RRC, 2 RL, 3 RR, 4 SLA, 5 SRA, 6 SWAP, 7 SRL)
/// of `v`: the result and the carry out.
pub open spec fn shift_result(op: int, v: u8, carry: bool) -> (u8, bool) {
    let ci: int = if carry {
        1
    } else {
        0
    };
    if op == 0 {
        (w8(v * 2 + v / 128), v >= 128)
    } else if op == 1 {
        ((v / 2 + (v % 2) * 128) as u8, v % 2 == 1)
    } else if op == 2 {
        (w8(v * 2 + ci), v >= 128)
    } else if op == 3 {
        ((v / 2 + ci * 128) as u8, v % 2 == 1)
    } else if op == 4 {
        (w8(v * 2), v >= 128)
    } else if op == 5 {
        ((v / 2 + (if v >= 128 {
            128int
        } else {
            0
        })) as u8, v % 2 == 1)
    } else if op == 6 {
        (((v % 16) * 16 + v / 16) as u8, false)
    } else {
        ((v / 2) as u8, v % 2 == 1)
    }
}

/// Computes `shift_result`.
pub fn shift(op: u8, v: u8, carry: bool) -> (r: (u8, bool))
    requires
        op < 8,
    ensures
        r == shift_result(op as int, v, carry),
{
    let ci: u16 = if carry {
        1
    } else {
        0
    };
    let v16 = v as u16;
    if op == 0 {
        (((v16 * 2 + v16 / 128) % 256) as u8, v >= 128)
    } else if op == 1 {
        ((v16 / 2 + (v16 % 2) * 128) as u8, v % 2 == 1)
    } else if op == 2 {
        (((v16 * 2 + ci) % 256) as u8, v >= 128)
    } else if op == 3 {
        ((v16 / 2 + ci * 128) as u8, v % 2 == 1)
    } else if op == 4 {
        (((v16 * 2) % 256) as u8, v >= 128)
    } else if op == 5 {
        ((v16 / 2 + (if v >= 128 {
            128
        } else {
            0
        })) as u8, v % 2 == 1)
    } else if op == 6 {
        (((v16 % 16) * 16 + v16 / 16) as u8, false)
    } else {
        ((v16 / 2) as u8, v % 2 == 1)
    }
}

/// Effect of `RLCA` (`0x07`), `RRCA` (`0x0F`), `RLA` (`0x17`) and `RRA`
/// (`0x1F`): A rotated, Z, N, H cleared, C the bit shifted out; 1 cycle.
pub open spec fn rotate_a_post(old: &Bus, new: &Bus, opcode: u8) -> bool {
    let c = old.cpu@;
    let (r, cy) = shift_result(((opcode / 8) % 4) as int, c.a, c.cf);
    &&& new.cpu@ == (CpuView {
        a: r,
        zf: false,
        nf: false,
        hf: false,
        cf: cy,
        cycle_buffer: 1,
        ..c
    })
    &&& mem_same(old, new)
    &&& new.ppu == old.ppu
}

/// `RLCA`, `RRCA`, `RLA`, `RRA`.
pub struct RotateAccumulator {
    pub opcode: u8,
}

impl RotateAccumulator {
    pub fn default(opcode: u8) -> (r: RotateAccumulator)
        ensures
            r.opcode == opcode,
    {
        RotateAccumulator { opcode }
    }

    pub fn execute(&self, bus: &mut Bus)
        requires
            old(bus).wf(),
            self.opcode == 0x07 || self.opcode == 0x0F || self.opcode == 0x17 || self.opcode == 0x1F,
        ensures
            final(bus).wf(),
            rotate_a_post(old(bus), final(bus), self.opcode),
    {
        let (r, cy) = shift((self.opcode / 8) % 4, bus.cpu.get_a(), bus.cpu.get_carry_flag());
        bus.cpu.set_a(r);
        bus.cpu.set_flags(false, false, false, cy);
        bus.cpu.add_m_cycles(1);
    }
}

/// `DAA` on `a` with flags N, H, C: the adjusted A and the new carry.
pub open spec fn daa_result(a: u8, n: bool, h: bool, c: bool) -> (u8, bool) {
    if !n {
        let up = c || a > 0x99;
        let a1: int = if up {
            a + 0x60
        } else {
            a as int
        };
        let a2 = if h || a1 % 16 > 9 {
            a1 + 6
        } else {
            a1
        };
        (w8(a2), up)
    } else {
        let a1: int = if c {
            a - 0x60
        } else {
            a as int
        };
        let a2 = if h {
            a1 - 6
        } else {
            a1
        };
        (w8(a2), c)
    }
}

/// Effect of `DAA` (`0x27`): A adjusted to BCD after the last addition or
/// subtraction, Z from the result, H cleared, N kept; 1 cycle.
pub open spec fn daa_post(old: &Bus, new: &Bus) -> bool {
    let c = old.cpu@;
    let (r, cy) = daa_result(c.a, c.nf, c.hf, c.cf);
    &&& new.cpu@ == (CpuView { a: r, zf: r == 0, hf: false, cf: cy, cycle_buffer: 1, ..c })
    &&& mem_same(old, new)
    &&& new.ppu == old.ppu
}

/// `DAA`.
pub struct DecimalAdjustAccumulator {
    pub opcode: u8,
}

impl DecimalAdjustAccumulator {
    pub fn default(opcode: u8) -> (r: DecimalAdjustAccumulator)
        ensures
            r.opcode == opcode,
    {
        DecimalAdjustAccumulator { opcode }
    }

    pub fn execute(&self, bus: &mut Bus)
        requires
            old(bus).wf(),
        ensures
            final(bus).wf(),
            daa_post(old(bus), final(bus)),
    {
        let a = bus.cpu.get_a() as u16;
        let carry = bus.cpu.get_carry_flag();
        let half = bus.cpu.get_half_carry_flag();
        let r: u8;
        let cy: bool;
        if !bus.cpu.get_n_flag() {
            let up = carry || a > 0x99;
            let a1: u16 = if up {
                a + 0x60
            } else {
                a
            };
            let a2: u16 = if half || a1 % 16 > 9 {
                a1 + 6
            } else {
                a1
            };
            r = (a2 % 256) as u8;
            cy = up;
        } else {
            let a1: u16 = if carry {
                a + 256 - 0x60
            } else {
                a + 256
            };
            let a2: u16 = if half {
                a1 - 6
            } else {
                a1
            };
            r = (a2 % 256) as u8;
            cy = carry;
        }
        bus.cpu.set_a(r);
        bus.cpu.set_zero_flag(r == 0);
        bus.cpu.set_half_carry_flag(false);
        bus.cpu.set_carry_flag(cy);
        bus.cpu.add_m_cycles(1);
    }
}

/// Effect of `CPL` (`0x2F`): A inverted, N and H set; 1 cycle.
pub open spec fn cpl_post(old: &Bus, new: &Bus) -> bool {
    let c = old.cpu@;
    &&& new.cpu@ == (CpuView { a: !c.a, nf: true, hf: true, cycle_buffer: 1, ..c })
    &&& mem_same(old, new)
    &&& new.ppu == old.ppu
}

/// `CPL`.
pub struct ComplementAccumulator {
    pub opcode: u8,
}

impl ComplementAccumulator {
    pub fn default(opcode: u8) -> (r: ComplementAccumulator)
        ensures
            r.opcode == opcode,
    {
        ComplementAccumulator { opcode }
    }

    pub fn execute(&self, bus: &mut Bus)
        requires
            old(bus).wf(),
        ensures
            final(bus).wf(),
            cpl_post(old(bus), final(bus)),
    {
        let a = bus.cpu.get_a();
        bus.cpu.set_a(!a);
        bus.cpu.set_n_flag(true);
        bus.cpu.set_half_carry_flag(true);
        bus.cpu.add_m_cycles(1);
    }
}

/// Effect of `SCF` (`0x37`, `set`) and `CCF` (`0x3F`): C set or inverted, N
/// and H cleared, Z kept; 1 cycle.
pub open spec fn carry_flag_post(old: &Bus, new: &Bus, set: bool) -> bool {
    let c = old.cpu@;
    &&& new.cpu@ == (CpuView {
        nf: false,
        hf: false,
        cf: if set {
            true
        } else {
            !c.cf
        },
        cycle_buffer: 1,
        ..c
    })
    &&& mem_same(old, new)
    &&& new.ppu == old.ppu
}

/// `SCF`.
pub struct SetCarryFlag {
    pub opcode: u8,
}

impl SetCarryFlag {
    pub fn default(opcode: u8) -> (r: SetCarryFlag)
        ensures
            r.opcode == opcode,
    {
        SetCarryFlag { opcode }
    }

    pub fn execute(&self, bus: &mut Bus)
        requires
            old(bus).wf(),
        ensures
            final(bus).wf(),
            carry_flag_post(old(bus), final(bus), true),
    {
        bus.cpu.set_n_flag(false);
        bus.cpu.set_half_carry_flag(false);
        bus.cpu.set_carry_flag(true);
        bus.cpu.add_m_cycles(1);
    }
}

/// `CCF`.
pub struct ComplementCarryFlag {
    pub opcode: u8,
}

impl ComplementCarryFlag {
    pub fn default(opcode: u8) -> (r: ComplementCarryFlag)
        ensures
            r.opcode == opcode,
    {
        ComplementCarryFlag { opcode }
    }

    pub fn execute(&self, bus: &mut Bus)
        requires
            old(bus).wf(),
        ensures
            final(bus).wf(),
            carry_flag_post(old(bus), final(bus), false),
    {
        let c = bus.cpu.get_carry_flag();
        bus.cpu.set_n_flag(false);
        bus.cpu.set_half_carry_flag(false);
        bus.cpu.set_carry_flag(!c);
        bus.cpu.add_m_cycles(1);
    }
}

/// `SP + e` for a signed immediate `e`, with the flags of `ADD SP, e`: Z and N
/// cleared, H from bit 3 and C from bit 7 of the unsigned low-byte sum.
pub open spec fn sp_offset(sp: u16, e: u8) -> (u16, bool, bool) {
    (w16(sp + signed8(e)), sp % 16 + e % 16 > 15, sp % 256 + e > 255)
}

/// Computes `sp_offset`.
pub fn add_sp_offset(sp: u16, e: u8) -> (r: (u16, bool, bool))
    ensures
        r == sp_offset(sp, e),
{
    let r = if e < 128 {
        sp.wrapping_add(e as u16)
    } else {
        sp.wrapping_sub(256 - e as u16)
    };
    (r, sp % 16 + (e as u16) % 16 > 15, sp % 256 + e as u16 > 255)
}

/// Effect of `ADD SP, e` (`0xE8`): 4 cycles.
pub open spec fn add_sp_post(old: &Bus, new: &Bus) -> bool {
    let c = old.cpu@;
    let (r, h, cy) = sp_offset(c.sp, imm8(old));
    &&& new.cpu@ == (CpuView {
        sp: r,
        zf: false,
        nf: false,
        hf: h,
        cf: cy,
        pc: w16(c.pc + 1),
        cycle_buffer: 4,
        ..c
    })
    &&& mem_same(old, new)
    &&& new.ppu == old.ppu
}

/// `ADD SP, e`.
pub struct AddSignedImmediateToSP {
    pub opcode: u8,
}

impl AddSignedImmediateToSP {
    pub fn default(opcode: u8) -> (r: AddSignedImmediateToSP)
        ensures
            r.opcode == opcode,
    {
        AddSignedImmediateToSP { opcode }
    }

    pub fn execute(&self, bus: &mut Bus)
        requires
            old(bus).wf(),
        ensures
            final(bus).wf(),
            add_sp_post(old(bus), final(bus)),
    {
        let e = fetch_u8(bus);
        let (r, h, cy) = add_sp_offset(bus.cpu.get_sp(), e);
        bus.cpu.set_sp(r);
        bus.cpu.set_flags(false, false, h, cy);
        bus.cpu.add_m_cycles(4);
    }
}

/// `CPL` twice restores A.
pub proof fn lemma_cpl_twice(b0: Bus, b1: Bus, b2: Bus)
    requires
        cpl_post(&b0, &b1),
        cpl_post(&b1, &b2),
    ensures
        b2.cpu@.a == b0.cpu@.a,
{
    let a = b0.cpu@.a;
    assert(!(!a) == a) by (bit_vector);
}

/// `CCF` twice restores the carry flag.
pub proof fn lemma_ccf_twice(b0: Bus, b1: Bus, b2: Bus)
    requires
        carry_flag_post(&b0, &b1, false),
        carry_flag_post(&b1, &b2, false),
    ensures
        b2.cpu@.cf == b0.cpu@.cf,
{
}

/// `SCF` always sets C and clears N and H.
pub proof fn lemma_scf_sets_carry(b0: Bus, b1: Bus)
    requires
        carry_flag_post(&b0, &b1, true),
    ensures
        b1.cpu@.cf,
        !b1.cpu@.nf,
        !b1.cpu@.hf,
{
}

} // verus!
