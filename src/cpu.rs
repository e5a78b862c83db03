use vstd::prelude::*;

verus! {

/// The 16-bit value whose high byte is `hi` and low byte is `lo`.
pub open spec fn pair(hi: u8, lo: u8) -> u16 {
    (hi as int * 256 + lo as int) as u16
}

/// `x` reduced modulo 2^16.
pub open spec fn w16(x: int) -> u16 {
    (x % 65536) as u16
}

/// `x` reduced modulo 2^8.
pub open spec fn w8(x: int) -> u8 {
    (x % 256) as u8
}

/// High byte of a 16-bit value.
pub open spec fn hi_byte(v: u16) -> u8 {
    (v as int / 256) as u8
}

/// Low byte of a 16-bit value.
pub open spec fn lo_byte(v: u16) -> u8 {
    (v as int % 256) as u8
}

/// The F register built from the four flags: Z bit 7, N bit 6, H bit 5, C bit 4.
pub open spec fn flag_byte(z: bool, n: bool, h: bool, c: bool) -> u8 {
    ((if z { 0x80int } else { 0 }) + (if n { 0x40int } else { 0 }) + (if h { 0x20int } else { 0 })
        + (if c { 0x10int } else { 0 })) as u8
}

pub proof fn lemma_pair_split(v: u16)
    ensures
        pair(hi_byte(v), lo_byte(v)) == v,
{
}

/// The low nibble of F is always zero, whatever the flags.
pub proof fn lemma_flag_byte_low_nibble(z: bool, n: bool, h: bool, c: bool)
    ensures
        flag_byte(z, n, h, c) & 0x0F == 0,
        flag_byte(z, n, h, c) & 0x80 != 0 <==> z,
        flag_byte(z, n, h, c) & 0x40 != 0 <==> n,
        flag_byte(z, n, h, c) & 0x20 != 0 <==> h,
        flag_byte(z, n, h, c) & 0x10 != 0 <==> c,
{
    let f = flag_byte(z, n, h, c);
    let zb: u8 = if z { 1 } else { 0 };
    let nb: u8 = if n { 1 } else { 0 };
    let hb: u8 = if h { 1 } else { 0 };
    let cb: u8 = if c { 1 } else { 0 };
    assert(f == zb * 0x80 + nb * 0x40 + hb * 0x20 + cb * 0x10);
    assert(zb <= 1 && nb <= 1 && hb <= 1 && cb <= 1 ==> {
        let g = (zb * 0x80 + nb * 0x40 + hb * 0x20 + cb * 0x10) as u8;
        &&& g & 0x0F == 0
        &&& (g & 0x80 != 0 <==> zb == 1)
        &&& (g & 0x40 != 0 <==> nb == 1)
        &&& (g & 0x20 != 0 <==> hb == 1)
        &&& (g & 0x10 != 0 <==> cb == 1)
    }) by (bit_vector);
}

/// Splitting a byte into its four flag bits and rebuilding F keeps its upper nibble.
pub proof fn lemma_flag_byte_of(v: u8)
    ensures
        flag_byte(v & 0x80 != 0, v & 0x40 != 0, v & 0x20 != 0, v & 0x10 != 0) == v & 0xF0,
{
    let z = v & 0x80 != 0;
    let n = v & 0x40 != 0;
    let h = v & 0x20 != 0;
    let c = v & 0x10 != 0;
    let zb: u8 = if z { 1 } else { 0 };
    let nb: u8 = if n { 1 } else { 0 };
    let hb: u8 = if h { 1 } else { 0 };
    let cb: u8 = if c { 1 } else { 0 };
    assert(flag_byte(z, n, h, c) == zb * 0x80 + nb * 0x40 + hb * 0x20 + cb * 0x10);
    assert((zb == 1 <==> v & 0x80 != 0) && (nb == 1 <==> v & 0x40 != 0) && (hb == 1 <==> v & 0x20
        != 0) && (cb == 1 <==> v & 0x10 != 0) && zb <= 1 && nb <= 1 && hb <= 1 && cb <= 1
        ==> zb * 0x80 + nb * 0x40 + hb * 0x20 + cb * 0x10 == v & 0xF0) by (bit_vector);
}

/// The CPU as contracts see it: every register, flag and the HALT state,
/// with the machine cycles charged by the last instruction.
pub struct CpuView {
    pub a: u8,
    pub b: u8,
    pub c: u8,
    pub d: u8,
    pub e: u8,
    pub h: u8,
    pub l: u8,
    pub sp: u16,
    pub pc: u16,
    pub zf: bool,
    pub nf: bool,
    pub hf: bool,
    pub cf: bool,
    pub halted: bool,
    pub cycle_buffer: u8,
}

impl CpuView {
    pub open spec fn hl(self) -> u16 {
        pair(self.h, self.l)
    }

    pub open spec fn bc(self) -> u16 {
        pair(self.b, self.c)
    }

    pub open spec fn de(self) -> u16 {
        pair(self.d, self.e)
    }

    pub open spec fn f(self) -> u8 {
        flag_byte(self.zf, self.nf, self.hf, self.cf)
    }

    pub open spec fn af(self) -> u16 {
        pair(self.a, self.f())
    }
}

/// The register file. The flags of F are kept as four booleans, so the low
/// nibble of F cannot hold anything but zero.
pub struct Registers {
    pub a: u8,
    pub zf: bool,
    pub nf: bool,
    pub hf: bool,
    pub cf: bool,
    pub b: u8,
    pub c: u8,
    pub d: u8,
    pub e: u8,
    pub h: u8,
    pub l: u8,
    pub sp: u16,
    pub pc: u16,
}

impl Registers {
    fn default() -> (r: Registers)
        ensures
            r.a == 0x01 && r.zf && !r.nf && r.hf && r.cf,
            r.b == 0x00 && r.c == 0x13 && r.d == 0x00 && r.e == 0xD8,
            r.h == 0x01 && r.l == 0x4D && r.sp == 0xFFFE && r.pc == 0x0100,
    {
        Registers {
            a: 0x01,
            zf: true,
            nf: false,
            hf: true,
            cf: true,
            b: 0x00,
            c: 0x13,
            d: 0x00,
            e: 0xD8,
            h: 0x01,
            l: 0x4D,
            sp: 0xFFFE,
            pc: 0x0100,
        }
    }
}

/// The SM83 core state: registers, the HALT flag and the machine cycles
/// charged by the most recent instruction.
pub struct CPU {
    pub registers: Registers,
    pub cycles: u16,
    pub cycle_buffer: u8,
    pub is_halted: bool,
}

impl View for CPU {
    type V = CpuView;

    open spec fn view(&self) -> CpuView {
        CpuView {
            a: self.registers.a,
            b: self.registers.b,
            c: self.registers.c,
            d: self.registers.d,
            e: self.registers.e,
            h: self.registers.h,
            l: self.registers.l,
            sp: self.registers.sp,
            pc: self.registers.pc,
            zf: self.registers.zf,
            nf: self.registers.nf,
            hf: self.registers.hf,
            cf: self.registers.cf,
            halted: self.is_halted,
            cycle_buffer: self.cycle_buffer,
        }
    }
}

impl CPU {
    pub open spec fn a(&self) -> u8 {
        self.registers.a
    }

    pub open spec fn b(&self) -> u8 {
        self.registers.b
    }

    pub open spec fn c(&self) -> u8 {
        self.registers.c
    }

    pub open spec fn d(&self) -> u8 {
        self.registers.d
    }

    pub open spec fn e(&self) -> u8 {
        self.registers.e
    }

    pub open spec fn h(&self) -> u8 {
        self.registers.h
    }

    pub open spec fn l(&self) -> u8 {
        self.registers.l
    }

    pub open spec fn sp(&self) -> u16 {
        self.registers.sp
    }

    pub open spec fn pc(&self) -> u16 {
        self.registers.pc
    }

    pub open spec fn zf(&self) -> bool {
        self.registers.zf
    }

    pub open spec fn nf(&self) -> bool {
        self.registers.nf
    }

    pub open spec fn hf(&self) -> bool {
        self.registers.hf
    }

    pub open spec fn cf(&self) -> bool {
        self.registers.cf
    }

    pub open spec fn f(&self) -> u8 {
        flag_byte(self.zf(), self.nf(), self.hf(), self.cf())
    }

    pub open spec fn af(&self) -> u16 {
        pair(self.a(), self.f())
    }

    pub open spec fn bc(&self) -> u16 {
        pair(self.b(), self.c())
    }

    pub open spec fn de(&self) -> u16 {
        pair(self.d(), self.e())
    }

    pub open spec fn hl(&self) -> u16 {
        pair(self.h(), self.l())
    }

    /// All registers but `A` and the flags are those of `o`.
    pub open spec fn same_except_af(&self, o: &CPU) -> bool {
        &&& self.b() == o.b() && self.c() == o.c() && self.d() == o.d() && self.e() == o.e()
        &&& self.h() == o.h() && self.l() == o.l() && self.sp() == o.sp() && self.pc() == o.pc()
        &&& self.cycles == o.cycles && self.cycle_buffer == o.cycle_buffer
        &&& self.is_halted == o.is_halted
    }

    /// All registers but the flags are those of `o`.
    pub open spec fn same_except_flags(&self, o: &CPU) -> bool {
        &&& self.same_except_af(o)
        &&& self.a() == o.a()
    }

    /// Same registers and flags as `o`, except possibly `PC` and the cycle buffer.
    pub open spec fn same_but_pc(&self, o: &CPU) -> bool {
        &&& self.a() == o.a() && self.b() == o.b() && self.c() == o.c() && self.d() == o.d()
        &&& self.e() == o.e() && self.h() == o.h() && self.l() == o.l() && self.sp() == o.sp()
        &&& self.zf() == o.zf() && self.nf() == o.nf() && self.hf() == o.hf() && self.cf() == o.cf()
        &&& self.cycles == o.cycles && self.is_halted == o.is_halted
    }

    /// Power-on state.
    pub fn default() -> (r: CPU)
        ensures
            r.af() == 0x01B0,
            r.bc() == 0x0013,
            r.de() == 0x00D8,
            r.hl() == 0x014D,
            r.sp() == 0xFFFE,
            r.pc() == 0x0100,
            !r.is_halted,
            r.cycle_buffer == 0,
            r.cycles == 0,
    {
        CPU { registers: Registers::default(), cycle_buffer: 0, cycles: 0, is_halted: false }
    }

    pub fn get_pc_and_increment(&mut self) -> (r: u16)
        ensures
            r == old(self).pc(),
            final(self).pc() == w16(old(self).pc() + 1),
            final(self).same_but_pc(old(self)),
            final(self).cycle_buffer == old(self).cycle_buffer,
    {
        let pc = self.registers.pc;
        self.registers.pc = pc.wrapping_add(1);
        pc
    }

    pub fn get_pc(&self) -> (r: u16)
        ensures
            r == self.pc(),
    {
        self.registers.pc
    }

    pub fn set_pc(&mut self, value: u16)
        ensures
            final(self).pc() == value,
            final(self).same_but_pc(old(self)),
            final(self).cycle_buffer == old(self).cycle_buffer,
    {
        self.registers.pc = value;
    }

    /// Moves `PC` forward by `value`, wrapping at 16 bits.
    pub fn add_to_pc(&mut self, value: u16)
        ensures
            final(self).pc() == w16(old(self).pc() + value),
            final(self).same_but_pc(old(self)),
            final(self).cycle_buffer == old(self).cycle_buffer,
    {
        self.registers.pc = self.registers.pc.wrapping_add(value);
    }

    /// Moves `PC` by a signed offset, wrapping at 16 bits.
    pub fn add_i8_to_pc(&mut self, value: i8)
        ensures
            final(self).pc() == w16(old(self).pc() + value),
            final(self).same_but_pc(old(self)),
            final(self).cycle_buffer == old(self).cycle_buffer,
    {
        self.registers.pc = self.registers.pc.wrapping_add_signed(value as i16);
    }

    /// Address of the byte fetched last, `PC - 1` with wrap-around.
    pub fn get_previous_pc(&self) -> (r: u16)
        ensures
            r == w16(self.pc() - 1),
    {
        self.registers.pc.wrapping_sub(1)
    }

    pub fn set_sp(&mut self, value: u16)
        ensures
            final(self).sp() == value,
            final(self).same_except_sp(old(self)),
    {
        self.registers.sp = value;
    }

    /// Every register and flag is that of `o`, but `SP`.
    pub open spec fn same_except_sp(&self, o: &CPU) -> bool {
        &&& self.a() == o.a() && self.b() == o.b() && self.c() == o.c() && self.d() == o.d()
        &&& self.e() == o.e() && self.h() == o.h() && self.l() == o.l() && self.pc() == o.pc()
        &&& self.zf() == o.zf() && self.nf() == o.nf() && self.hf() == o.hf() && self.cf() == o.cf()
        &&& self.cycles == o.cycles && self.is_halted == o.is_halted
        &&& self.cycle_buffer == o.cycle_buffer
    }

    pub fn get_sp(&self) -> (r: u16)
        ensures
            r == self.sp(),
    {
        self.registers.sp
    }

    /// Makes room for two bytes on the stack and returns the new `SP`.
    pub fn push_sp(&mut self) -> (r: u16)
        ensures
            r == final(self).sp(),
            final(self).sp() == w16(old(self).sp() - 2),
            final(self).same_except_sp(old(self)),
    {
        self.registers.sp = self.registers.sp.wrapping_sub(2);
        self.registers.sp
    }

    /// Drops two bytes from the stack and returns the new `SP`.
    pub fn pop_sp(&mut self) -> (r: u16)
        ensures
            r == final(self).sp(),
            final(self).sp() == w16(old(self).sp() + 2),
            final(self).same_except_sp(old(self)),
    {
        self.registers.sp = self.registers.sp.wrapping_add(2);
        self.registers.sp
    }

    // 16-bit register pairs
    pub fn set_bc(&mut self, value: u16)
        ensures
            final(self).bc() == value,
            final(self).b() == hi_byte(value) && final(self).c() == lo_byte(value),
            final(self).same_except_bc(old(self)),
    {
        self.registers.b = (value / 256) as u8;
        self.registers.c = (value % 256) as u8;
    }

    /// Every register and flag is that of `o`, but `B` and `C`.
    pub open spec fn same_except_bc(&self, o: &CPU) -> bool {
        &&& self.a() == o.a() && self.d() == o.d() && self.e() == o.e()
        &&& self.h() == o.h() && self.l() == o.l() && self.pc() == o.pc() && self.sp() == o.sp()
        &&& self.zf() == o.zf() && self.nf() == o.nf() && self.hf() == o.hf() && self.cf() == o.cf()
        &&& self.cycles == o.cycles && self.is_halted == o.is_halted
        &&& self.cycle_buffer == o.cycle_buffer
    }

    /// Every register and flag is that of `o`, but `D` and `E`.
    pub open spec fn same_except_de(&self, o: &CPU) -> bool {
        &&& self.a() == o.a() && self.b() == o.b() && self.c() == o.c()
        &&& self.h() == o.h() && self.l() == o.l() && self.pc() == o.pc() && self.sp() == o.sp()
        &&& self.zf() == o.zf() && self.nf() == o.nf() && self.hf() == o.hf() && self.cf() == o.cf()
        &&& self.cycles == o.cycles && self.is_halted == o.is_halted
        &&& self.cycle_buffer == o.cycle_buffer
    }

    /// Every register and flag is that of `o`, but `H` and `L`.
    pub open spec fn same_except_hl(&self, o: &CPU) -> bool {
        &&& self.a() == o.a() && self.b() == o.b() && self.c() == o.c()
        &&& self.d() == o.d() && self.e() == o.e() && self.pc() == o.pc() && self.sp() == o.sp()
        &&& self.zf() == o.zf() && self.nf() == o.nf() && self.hf() == o.hf() && self.cf() == o.cf()
        &&& self.cycles == o.cycles && self.is_halted == o.is_halted
        &&& self.cycle_buffer == o.cycle_buffer
    }

    pub fn get_bc(&self) -> (r: u16)
        ensures
            r == self.bc(),
    {
        (self.registers.b as u16) * 256 + (self.registers.c as u16)
    }

    pub fn set_de(&mut self, value: u16)
        ensures
            final(self).de() == value,
            final(self).d() == hi_byte(value) && final(self).e() == lo_byte(value),
            final(self).same_except_de(old(self)),
    {
        self.registers.d = (value / 256) as u8;
        self.registers.e = (value % 256) as u8;
    }

    pub fn get_de(&self) -> (r: u16)
        ensures
            r == self.de(),
    {
        (self.registers.d as u16) * 256 + (self.registers.e as u16)
    }

    pub fn set_hl(&mut self, value: u16)
        ensures
            final(self).hl() == value,
            final(self).h() == hi_byte(value) && final(self).l() == lo_byte(value),
            final(self).same_except_hl(old(self)),
    {
        self.registers.h = (value / 256) as u8;
        self.registers.l = (value % 256) as u8;
    }

    pub fn get_hl(&self) -> (r: u16)
        ensures
            r == self.hl(),
    {
        (self.registers.h as u16) * 256 + (self.registers.l as u16)
    }

    /// Writes `AF`; the low nibble of F is dropped.
    pub fn set_af(&mut self, value: u16)
        ensures
            final(self).af() == value & 0xFFF0,
            final(self).a() == hi_byte(value),
            final(self).f() == lo_byte(value) & 0xF0,
            final(self).zf() == (lo_byte(value) & 0x80 != 0),
            final(self).nf() == (lo_byte(value) & 0x40 != 0),
            final(self).hf() == (lo_byte(value) & 0x20 != 0),
            final(self).cf() == (lo_byte(value) & 0x10 != 0),
            final(self).same_except_af(old(self)),
    {
        let lo = (value % 256) as u8;
        self.registers.a = (value / 256) as u8;
        self.registers.zf = lo & 0x80 != 0;
        self.registers.nf = lo & 0x40 != 0;
        self.registers.hf = lo & 0x20 != 0;
        self.registers.cf = lo & 0x10 != 0;
        proof {
            lemma_flag_byte_of(lo);
            assert(value & 0xFFF0 == (value / 256) * 256 + ((value % 256) as u8 & 0xF0)) by {
                assert(value & 0xFFF0 == (value >> 8) * 256 + ((value & 0xFF) as u8 & 0xF0))
                    by (bit_vector);
                assert(value >> 8 == value / 256 && value & 0xFF == value % 256) by (bit_vector);
            }
        }
    }

    pub fn get_af(&self) -> (r: u16)
        ensures
            r == self.af(),
            r & 0x000F == 0,
    {
        let r = (self.registers.a as u16) * 256 + (self.get_f() as u16);
        proof {
            let f = self.f();
            lemma_flag_byte_low_nibble(self.zf(), self.nf(), self.hf(), self.cf());
            let a = self.a();
            assert(f & 0x0F == 0 ==> (((a as u16) * 256 + (f as u16)) as u16) & 0x000F == 0) by (bit_vector);
        }
        r
    }

    // 8-bit registers
    pub fn get_a(&self) -> (r: u8)
        ensures
            r == self.a(),
    {
        self.registers.a
    }

    pub fn get_b(&self) -> (r: u8)
        ensures
            r == self.b(),
    {
        self.registers.b
    }

    pub fn get_c(&self) -> (r: u8)
        ensures
            r == self.c(),
    {
        self.registers.c
    }

    pub fn get_d(&self) -> (r: u8)
        ensures
            r == self.d(),
    {
        self.registers.d
    }

    pub fn get_e(&self) -> (r: u8)
        ensures
            r == self.e(),
    {
        self.registers.e
    }

    pub fn get_h(&self) -> (r: u8)
        ensures
            r == self.h(),
    {
        self.registers.h
    }

    pub fn get_l(&self) -> (r: u8)
        ensures
            r == self.l(),
    {
        self.registers.l
    }

    pub fn set_a(&mut self, value: u8)
        ensures
            final(self).a() == value,
            final(self).same_except_af(old(self)),
            final(self).zf() == old(self).zf() && final(self).nf() == old(self).nf(),
            final(self).hf() == old(self).hf() && final(self).cf() == old(self).cf(),
    {
        self.registers.a = value;
    }

    pub fn set_b(&mut self, value: u8)
        ensures
            final(self).b() == value && final(self).c() == old(self).c(),
            final(self).same_except_bc(old(self)),
    {
        self.registers.b = value;
    }

    pub fn set_c(&mut self, value: u8)
        ensures
            final(self).c() == value && final(self).b() == old(self).b(),
            final(self).same_except_bc(old(self)),
    {
        self.registers.c = value;
    }

    pub fn set_d(&mut self, value: u8)
        ensures
            final(self).d() == value && final(self).e() == old(self).e(),
            final(self).same_except_de(old(self)),
    {
        self.registers.d = value;
    }

    pub fn set_e(&mut self, value: u8)
        ensures
            final(self).e() == value && final(self).d() == old(self).d(),
            final(self).same_except_de(old(self)),
    {
        self.registers.e = value;
    }

    pub fn set_h(&mut self, value: u8)
        ensures
            final(self).h() == value && final(self).l() == old(self).l(),
            final(self).same_except_hl(old(self)),
    {
        self.registers.h = value;
    }

    pub fn set_l(&mut self, value: u8)
        ensures
            final(self).l() == value && final(self).h() == old(self).h(),
            final(self).same_except_hl(old(self)),
    {
        self.registers.l = value;
    }

    /// The F register; its low nibble is zero.
    pub fn get_f(&self) -> (r: u8)
        ensures
            r == self.f(),
            r & 0x0F == 0,
    {
        proof {
            lemma_flag_byte_low_nibble(self.zf(), self.nf(), self.hf(), self.cf());
        }
        let z: u8 = if self.registers.zf { 0x80 } else { 0 };
        let n: u8 = if self.registers.nf { 0x40 } else { 0 };
        let h: u8 = if self.registers.hf { 0x20 } else { 0 };
        let c: u8 = if self.registers.cf { 0x10 } else { 0 };
        z + n + h + c
    }

    // Flags
    pub fn set_zero_flag(&mut self, value: bool)
        ensures
            final(self).zf() == value,
            final(self).nf() == old(self).nf() && final(self).hf() == old(self).hf(),
            final(self).cf() == old(self).cf(),
            final(self).same_except_flags(old(self)),
    {
        self.registers.zf = value;
    }

    pub fn set_n_flag(&mut self, value: bool)
        ensures
            final(self).nf() == value,
            final(self).zf() == old(self).zf() && final(self).hf() == old(self).hf(),
            final(self).cf() == old(self).cf(),
            final(self).same_except_flags(old(self)),
    {
        self.registers.nf = value;
    }

    pub fn set_half_carry_flag(&mut self, value: bool)
        ensures
            final(self).hf() == value,
            final(self).zf() == old(self).zf() && final(self).nf() == old(self).nf(),
            final(self).cf() == old(self).cf(),
            final(self).same_except_flags(old(self)),
    {
        self.registers.hf = value;
    }

    pub fn set_carry_flag(&mut self, value: bool)
        ensures
            final(self).cf() == value,
            final(self).zf() == old(self).zf() && final(self).nf() == old(self).nf(),
            final(self).hf() == old(self).hf(),
            final(self).same_except_flags(old(self)),
    {
        self.registers.cf = value;
    }

    /// Sets all four flags at once.
    pub fn set_flags(&mut self, z: bool, n: bool, h: bool, c: bool)
        ensures
            final(self).zf() == z && final(self).nf() == n,
            final(self).hf() == h && final(self).cf() == c,
            final(self).same_except_flags(old(self)),
    {
        self.registers.zf = z;
        self.registers.nf = n;
        self.registers.hf = h;
        self.registers.cf = c;
    }

    pub fn get_zero_flag(&self) -> (r: bool)
        ensures
            r == self.zf(),
            r == (self.f() & 0x80 != 0),
    {
        proof {
            lemma_flag_byte_low_nibble(self.zf(), self.nf(), self.hf(), self.cf());
        }
        self.registers.zf
    }

    pub fn get_n_flag(&self) -> (r: bool)
        ensures
            r == self.nf(),
            r == (self.f() & 0x40 != 0),
    {
        proof {
            lemma_flag_byte_low_nibble(self.zf(), self.nf(), self.hf(), self.cf());
        }
        self.registers.nf
    }

    pub fn get_half_carry_flag(&self) -> (r: bool)
        ensures
            r == self.hf(),
            r == (self.f() & 0x20 != 0),
    {
        proof {
            lemma_flag_byte_low_nibble(self.zf(), self.nf(), self.hf(), self.cf());
        }
        self.registers.hf
    }

    pub fn get_carry_flag(&self) -> (r: bool)
        ensures
            r == self.cf(),
            r == (self.f() & 0x10 != 0),
    {
        proof {
            lemma_flag_byte_low_nibble(self.zf(), self.nf(), self.hf(), self.cf());
        }
        self.registers.cf
    }

    /// Records the machine cycles charged by the current instruction.
    pub fn add_m_cycles(&mut self, cycles: u16)
        ensures
            final(self).cycle_buffer == cycles as u8,
            final(self).same_but_pc(old(self)),
            final(self).pc() == old(self).pc(),
    {
        self.cycle_buffer = cycles as u8;
    }

    pub fn halt(&mut self)
        ensures
            final(self).is_halted,
            final(self).same_registers_and_cycles(old(self)),
    {
        self.is_halted = true;
    }

    pub fn resume(&mut self)
        ensures
            !final(self).is_halted,
            final(self).same_registers_and_cycles(old(self)),
    {
        self.is_halted = false;
    }

    /// Every register, flag and cycle count is that of `o`.
    pub open spec fn same_registers_and_cycles(&self, o: &CPU) -> bool {
        &&& self.a() == o.a() && self.b() == o.b() && self.c() == o.c() && self.d() == o.d()
        &&& self.e() == o.e() && self.h() == o.h() && self.l() == o.l() && self.sp() == o.sp()
        &&& self.pc() == o.pc()
        &&& self.zf() == o.zf() && self.nf() == o.nf() && self.hf() == o.hf() && self.cf() == o.cf()
        &&& self.cycles == o.cycles && self.cycle_buffer == o.cycle_buffer
    }
}

/// After any sequence of register operations, the low nibble of F reads zero.
pub proof fn lemma_f_low_nibble_zero(cpu: CPU)
    ensures
        cpu.f() & 0x0F == 0,
        cpu.af() & 0x000F == 0,
{
    lemma_flag_byte_low_nibble(cpu.zf(), cpu.nf(), cpu.hf(), cpu.cf());
    let f = cpu.f();
    let a = cpu.a();
    assert(f & 0x0F == 0 ==> (((a as u16) * 256 + (f as u16)) as u16) & 0x000F == 0) by (bit_vector);
    assert(cpu.af() == (a as u16) * 256 + (f as u16));
}

} // verus!
