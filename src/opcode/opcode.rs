use vstd::prelude::*;
use crate::bus::{Bus, mem_same, mem_written};
use crate::cpu::{CpuView, hi_byte, lemma_f_low_nibble_zero, lo_byte, pair, w16};
use crate::opcode::arithmatic::{
    Add16BitRegister, Add8BitRegister, Add8BitRegisterWithCarry, AddSignedImmediateToSP,
    And8BitRegister, Compare8BitRegister, ComplementAccumulator, ComplementCarryFlag,
    DecimalAdjustAccumulator, DecrementRegister, DecrementRegister8Bit, IncrementRegister,
    IncrementRegister8Bit, Or8BitRegister, RotateAccumulator, SetCarryFlag, Subtract8BitRegister,
    Subtract8BitRegisterWithCarry, Xor8BitRegister, add16_post, add_sp_post, alu_post,
    carry_flag_post, cpl_post, daa_post, dec8_post, inc8_post, is_alu_opcode, rotate_a_post,
    step16_post,
};
use crate::opcode::cb::{CB, cb_post};
use crate::opcode::control::{
    DisableInterrupts, EnableInterrupts, Halt, Noop, halt_post, ime_post, nop_post,
};
use crate::opcode::jump::{
    CallAddress, CallConditional, CallRST, CallReturn, JumpAddress, JumpConditional, JumpHL,
    JumpRelative, JumpRelativeConditional, ReturnConditional, ReturnEnableInterrupts, call_post,
    jp_hl_post, jp_post, jr_post, ret_post, rst_post,
};
use crate::opcode::load::{
    LoadRegister, PopRegister, PushRegister, is_load_opcode, load_post, pop_post, push_post,
};

verus! {

/// 8-bit register `i` of the operand encoding (0 B, 1 C, 2 D, 3 E, 4 H,
/// 5 L, 7 A); 6 stands for `(HL)`.
pub open spec fn r8(c: CpuView, i: int) -> u8 {
    if i == 0 {
        c.b
    } else if i == 1 {
        c.c
    } else if i == 2 {
        c.d
    } else if i == 3 {
        c.e
    } else if i == 4 {
        c.h
    } else if i == 5 {
        c.l
    } else {
        c.a
    }
}

/// `c` with 8-bit register `i` (not 6) set to `v`.
pub open spec fn with_r8(c: CpuView, i: int, v: u8) -> CpuView {
    if i == 0 {
        CpuView { b: v, ..c }
    } else if i == 1 {
        CpuView { c: v, ..c }
    } else if i == 2 {
        CpuView { d: v, ..c }
    } else if i == 3 {
        CpuView { e: v, ..c }
    } else if i == 4 {
        CpuView { h: v, ..c }
    } else if i == 5 {
        CpuView { l: v, ..c }
    } else {
        CpuView { a: v, ..c }
    }
}

/// Operand `i` of an 8-bit instruction: a register, or the byte at `HL` for 6.
pub open spec fn operand8(b: &Bus, i: int) -> u8 {
    if i == 6 {
        b.read_spec(b.cpu@.hl())
    } else {
        r8(b.cpu@, i)
    }
}

/// Whether `new` is `old` with CPU state `c` and operand `i` set to `v`:
/// a register, or the byte at the old `HL`.
pub open spec fn r8_post(old: &Bus, new: &Bus, i: int, v: u8, c: CpuView) -> bool {
    &&& new.ppu == old.ppu
    &&& if i == 6 {
        &&& mem_written(old, new, old.cpu@.hl(), v)
        &&& new.cpu@ == c
    } else {
        &&& mem_same(old, new)
        &&& new.cpu@ == with_r8(c, i, v)
    }
}

/// 16-bit register `i` of the encoding `0 BC, 1 DE, 2 HL, 3 SP`.
pub open spec fn r16(c: CpuView, i: int) -> u16 {
    if i == 0 {
        c.bc()
    } else if i == 1 {
        c.de()
    } else if i == 2 {
        c.hl()
    } else {
        c.sp
    }
}

/// `c` with 16-bit register `i` (`0 BC, 1 DE, 2 HL, 3 SP`) set to `v`.
pub open spec fn with_r16(c: CpuView, i: int, v: u16) -> CpuView {
    if i == 0 {
        CpuView { b: hi_byte(v), c: lo_byte(v), ..c }
    } else if i == 1 {
        CpuView { d: hi_byte(v), e: lo_byte(v), ..c }
    } else if i == 2 {
        CpuView { h: hi_byte(v), l: lo_byte(v), ..c }
    } else {
        CpuView { sp: v, ..c }
    }
}

/// Register pair `i` of PUSH and POP: `0 BC, 1 DE, 2 HL, 3 AF`.
pub open spec fn stack_r16(c: CpuView, i: int) -> u16 {
    if i == 3 {
        c.af()
    } else {
        r16(c, i)
    }
}

/// `c` with PUSH/POP pair `i` set to `v`; for `AF` the low nibble of F is dropped.
pub open spec fn with_stack_r16(c: CpuView, i: int, v: u16) -> CpuView {
    if i == 3 {
        let f = lo_byte(v);
        CpuView {
            a: hi_byte(v),
            zf: f & 0x80 != 0,
            nf: f & 0x40 != 0,
            hf: f & 0x20 != 0,
            cf: f & 0x10 != 0,
            ..c
        }
    } else {
        with_r16(c, i, v)
    }
}

/// Branch condition `cc` (0 NZ, 1 Z, 2 NC, 3 C).
pub open spec fn cond(c: CpuView, cc: int) -> bool {
    if cc == 0 {
        !c.zf
    } else if cc == 1 {
        c.zf
    } else if cc == 2 {
        !c.cf
    } else {
        c.cf
    }
}

/// The immediate byte at `PC`.
pub open spec fn imm8(b: &Bus) -> u8 {
    b.read_spec(b.cpu@.pc)
}

/// The immediate little-endian word at `PC`.
pub open spec fn imm16(b: &Bus) -> u16 {
    b.read16_spec(b.cpu@.pc)
}

/// A byte read as a two's complement signed value.
pub open spec fn signed8(v: u8) -> int {
    if v < 128 {
        v as int
    } else {
        v - 256
    }
}

/// Fetches the byte at `PC` and advances `PC`.
pub fn fetch_u8(bus: &mut Bus) -> (r: u8)
    requires
        old(bus).wf(),
    ensures
        final(bus).wf(),
        r == imm8(old(bus)),
        final(bus).cpu@ == (CpuView { pc: w16(old(bus).cpu@.pc + 1), ..old(bus).cpu@ }),
        mem_same(old(bus), final(bus)),
        final(bus).ppu == old(bus).ppu,
{
    let pc = bus.cpu.get_pc_and_increment();
    bus.read_u8(pc)
}

/// Fetches the little-endian word at `PC` and advances `PC` by 2.
pub fn fetch_u16(bus: &mut Bus) -> (r: u16)
    requires
        old(bus).wf(),
    ensures
        final(bus).wf(),
        r == imm16(old(bus)),
        final(bus).cpu@ == (CpuView { pc: w16(old(bus).cpu@.pc + 2), ..old(bus).cpu@ }),
        mem_same(old(bus), final(bus)),
        final(bus).ppu == old(bus).ppu,
{
    let pc = bus.cpu.get_pc();
    let r = bus.read_u16(pc);
    bus.cpu.add_to_pc(2);
    r
}

/// Reads operand `i` (a register, or the byte at `HL` for 6).
pub fn read_r8(bus: &Bus, i: u8) -> (r: u8)
    requires
        bus.wf(),
        i < 8,
    ensures
        r == operand8(bus, i as int),
{
    match i {
        0 => bus.cpu.get_b(),
        1 => bus.cpu.get_c(),
        2 => bus.cpu.get_d(),
        3 => bus.cpu.get_e(),
        4 => bus.cpu.get_h(),
        5 => bus.cpu.get_l(),
        6 => bus.read_u8(bus.cpu.get_hl()),
        _ => bus.cpu.get_a(),
    }
}

/// Writes operand `i` (a register, or the byte at `HL` for 6).
pub fn write_r8(bus: &mut Bus, i: u8, v: u8)
    requires
        old(bus).wf(),
        i < 8,
    ensures
        final(bus).wf(),
        r8_post(old(bus), final(bus), i as int, v, old(bus).cpu@),
{
    match i {
        0 => bus.cpu.set_b(v),
        1 => bus.cpu.set_c(v),
        2 => bus.cpu.set_d(v),
        3 => bus.cpu.set_e(v),
        4 => bus.cpu.set_h(v),
        5 => bus.cpu.set_l(v),
        6 => {
            let hl = bus.cpu.get_hl();
            bus.write_u8(hl, v);
        },
        _ => bus.cpu.set_a(v),
    }
}

/// Reads 16-bit register `i` (`0 BC, 1 DE, 2 HL, 3 SP`).
pub fn read_r16(bus: &Bus, i: u8) -> (r: u16)
    requires
        i < 4,
    ensures
        r == r16(bus.cpu@, i as int),
{
    match i {
        0 => bus.cpu.get_bc(),
        1 => bus.cpu.get_de(),
        2 => bus.cpu.get_hl(),
        _ => bus.cpu.get_sp(),
    }
}

/// Writes 16-bit register `i` (`0 BC, 1 DE, 2 HL, 3 SP`).
pub fn write_r16(bus: &mut Bus, i: u8, v: u16)
    requires
        i < 4,
    ensures
        final(bus).cpu@ == with_r16(old(bus).cpu@, i as int, v),
        mem_same(old(bus), final(bus)),
        final(bus).ppu == old(bus).ppu,
{
    match i {
        0 => bus.cpu.set_bc(v),
        1 => bus.cpu.set_de(v),
        2 => bus.cpu.set_hl(v),
        _ => bus.cpu.set_sp(v),
    }
}

/// Evaluates branch condition `cc` (0 NZ, 1 Z, 2 NC, 3 C).
pub fn condition(bus: &Bus, cc: u8) -> (r: bool)
    requires
        cc < 4,
    ensures
        r == cond(bus.cpu@, cc as int),
{
    match cc {
        0 => !bus.cpu.get_zero_flag(),
        1 => bus.cpu.get_zero_flag(),
        2 => !bus.cpu.get_carry_flag(),
        _ => bus.cpu.get_carry_flag(),
    }
}

/// The opcodes with no instruction in this core: `STOP` and the eleven
/// opcodes the SM83 leaves undefined.
pub open spec fn is_unimplemented_opcode(opcode: u8) -> bool {
    opcode == 0x10 || opcode == 0xD3 || opcode == 0xDB || opcode == 0xDD || opcode == 0xE3
        || opcode == 0xE4 || opcode == 0xEB || opcode == 0xEC || opcode == 0xED || opcode == 0xF4
        || opcode == 0xFC || opcode == 0xFD
}

/// The effect of executing `opcode`, whose byte has been fetched (`PC` is
/// past it), on `old`: the post-condition of the instruction class it decodes to.
pub open spec fn execute_post(old: &Bus, new: &Bus, opcode: u8) -> bool {
    let cc = ((opcode / 8) % 4) as int;
    if opcode == 0x00 {
        nop_post(old, new)
    } else if opcode == 0x76 {
        halt_post(old, new)
    } else if opcode < 0x40 && opcode % 16 == 3 {
        step16_post(old, new, opcode, 1)
    } else if opcode < 0x40 && opcode % 16 == 0x0B {
        step16_post(old, new, opcode, -1)
    } else if opcode < 0x40 && opcode % 16 == 9 {
        add16_post(old, new, opcode)
    } else if opcode < 0x40 && opcode % 8 == 4 {
        inc8_post(old, new, opcode)
    } else if opcode < 0x40 && opcode % 8 == 5 {
        dec8_post(old, new, opcode)
    } else if opcode == 0x18 {
        jr_post(old, new, 4)
    } else if opcode == 0x20 || opcode == 0x28 || opcode == 0x30 || opcode == 0x38 {
        jr_post(old, new, cc)
    } else if opcode == 0x07 || opcode == 0x0F || opcode == 0x17 || opcode == 0x1F {
        rotate_a_post(old, new, opcode)
    } else if opcode == 0x27 {
        daa_post(old, new)
    } else if opcode == 0x2F {
        cpl_post(old, new)
    } else if opcode == 0x37 {
        carry_flag_post(old, new, true)
    } else if opcode == 0x3F {
        carry_flag_post(old, new, false)
    } else if is_load_opcode(opcode) {
        load_post(old, new, opcode)
    } else if is_alu_opcode(opcode) {
        alu_post(old, new, opcode)
    } else if opcode == 0xC3 {
        jp_post(old, new, 4)
    } else if opcode == 0xC2 || opcode == 0xCA || opcode == 0xD2 || opcode == 0xDA {
        jp_post(old, new, cc)
    } else if opcode == 0xCD {
        call_post(old, new, 4)
    } else if opcode == 0xC4 || opcode == 0xCC || opcode == 0xD4 || opcode == 0xDC {
        call_post(old, new, cc)
    } else if opcode == 0xC9 {
        ret_post(old, new, 4)
    } else if opcode == 0xD9 {
        ret_post(old, new, 5)
    } else if opcode == 0xC0 || opcode == 0xC8 || opcode == 0xD0 || opcode == 0xD8 {
        ret_post(old, new, cc)
    } else if opcode == 0xC5 || opcode == 0xD5 || opcode == 0xE5 || opcode == 0xF5 {
        push_post(old, new, opcode)
    } else if opcode == 0xC1 || opcode == 0xD1 || opcode == 0xE1 || opcode == 0xF1 {
        pop_post(old, new, opcode)
    } else if opcode >= 0xC0 && opcode % 8 == 7 {
        rst_post(old, new, opcode)
    } else if opcode == 0xCB {
        cb_post(old, new)
    } else if opcode == 0xE9 {
        jp_hl_post(old, new)
    } else if opcode == 0xF3 {
        ime_post(old, new, false)
    } else if opcode == 0xFB {
        ime_post(old, new, true)
    } else {
        add_sp_post(old, new)
    }
}

/// Executes the instruction `opcode`, whose byte has been fetched. Returns
/// false, changing nothing, for an opcode without an instruction.
pub fn execute_opcode(bus: &mut Bus, opcode: u8) -> (r: bool)
    requires
        old(bus).wf(),
    ensures
        final(bus).wf(),
        r == !is_unimplemented_opcode(opcode),
        !r ==> *final(bus) == *old(bus),
        r ==> execute_post(old(bus), final(bus), opcode),
        r ==> 1 <= final(bus).cpu@.cycle_buffer <= 6,
        final(bus).cpu.f() & 0x0F == 0,
{
    proof {
        lemma_f_low_nibble_zero(bus.cpu);
    }
    if opcode == 0x10 || opcode == 0xD3 || opcode == 0xDB || opcode == 0xDD || opcode == 0xE3
        || opcode == 0xE4 || opcode == 0xEB || opcode == 0xEC || opcode == 0xED || opcode == 0xF4
        || opcode == 0xFC || opcode == 0xFD {
        return false;
    }
    dispatch(bus, opcode);
    proof {
        lemma_f_low_nibble_zero(bus.cpu);
    }
    true
}

#[verifier::rlimit(50)]
fn dispatch(bus: &mut Bus, opcode: u8)
    requires
        old(bus).wf(),
        !is_unimplemented_opcode(opcode),
    ensures
        final(bus).wf(),
        execute_post(old(bus), final(bus), opcode),
        1 <= final(bus).cpu@.cycle_buffer <= 6,
{
    if opcode == 0x00 {
        Noop::default().execute(bus);
    } else if opcode == 0x76 {
        Halt::default().execute(bus);
    } else if opcode < 0x40 && opcode % 16 == 3 {
        IncrementRegister::default(opcode).execute(bus);
    } else if opcode < 0x40 && opcode % 16 == 0x0B {
        DecrementRegister::default(opcode).execute(bus);
    } else if opcode < 0x40 && opcode % 16 == 9 {
        Add16BitRegister::default(opcode).execute(bus);
    } else if opcode < 0x40 && opcode % 8 == 4 {
        IncrementRegister8Bit::default(opcode).execute(bus);
    } else if opcode < 0x40 && opcode % 8 == 5 {
        DecrementRegister8Bit::default(opcode).execute(bus);
    } else if opcode == 0x18 {
        JumpRelative::default().execute(bus);
    } else if opcode == 0x20 || opcode == 0x28 || opcode == 0x30 || opcode == 0x38 {
        JumpRelativeConditional::default(opcode).execute(bus);
    } else if opcode == 0x07 || opcode == 0x0F || opcode == 0x17 || opcode == 0x1F {
        RotateAccumulator::default(opcode).execute(bus);
    } else if opcode == 0x27 {
        DecimalAdjustAccumulator::default(opcode).execute(bus);
    } else if opcode == 0x2F {
        ComplementAccumulator::default(opcode).execute(bus);
    } else if opcode == 0x37 {
        SetCarryFlag::default(opcode).execute(bus);
    } else if opcode == 0x3F {
        ComplementCarryFlag::default(opcode).execute(bus);
    } else {
        dispatch_high(bus, opcode);
    }
}

#[verifier::rlimit(50)]
fn dispatch_high(bus: &mut Bus, opcode: u8)
    requires
        old(bus).wf(),
        !is_unimplemented_opcode(opcode),
        !(opcode == 0x00 || opcode == 0x76 || opcode < 0x40 && opcode % 16 == 3 || opcode < 0x40
            && opcode % 16 == 0x0B || opcode < 0x40 && opcode % 16 == 9 || opcode < 0x40 && opcode
            % 8 == 4 || opcode < 0x40 && opcode % 8 == 5 || opcode == 0x18 || opcode == 0x20
            || opcode == 0x28 || opcode == 0x30 || opcode == 0x38 || opcode == 0x07 || opcode == 0x0F
            || opcode == 0x17 || opcode == 0x1F || opcode == 0x27 || opcode == 0x2F || opcode == 0x37
            || opcode == 0x3F),
    ensures
        final(bus).wf(),
        execute_post(old(bus), final(bus), opcode),
        1 <= final(bus).cpu@.cycle_buffer <= 6,
{
    if (0x40 <= opcode && opcode <= 0x7F) || (opcode < 0x40 && (opcode % 8 == 6 || opcode % 16
        == 1 || opcode % 16 == 2 || opcode % 16 == 0x0A)) || opcode == 0x08 || opcode == 0xE0
        || opcode == 0xF0 || opcode == 0xE2 || opcode == 0xF2 || opcode == 0xEA || opcode == 0xFA
        || opcode == 0xF8 || opcode == 0xF9 {
        LoadRegister::default(opcode).execute(bus);
    } else if 0x80 <= opcode && opcode <= 0x87 || opcode == 0xC6 {
        Add8BitRegister::default(opcode).execute(bus);
    } else if 0x88 <= opcode && opcode <= 0x8F || opcode == 0xCE {
        Add8BitRegisterWithCarry::default(opcode).execute(bus);
    } else if 0x90 <= opcode && opcode <= 0x97 || opcode == 0xD6 {
        Subtract8BitRegister::default(opcode).execute(bus);
    } else if 0x98 <= opcode && opcode <= 0x9F || opcode == 0xDE {
        Subtract8BitRegisterWithCarry::default(opcode).execute(bus);
    } else if 0xA0 <= opcode && opcode <= 0xA7 || opcode == 0xE6 {
        And8BitRegister::default(opcode).execute(bus);
    } else if 0xA8 <= opcode && opcode <= 0xAF || opcode == 0xEE {
        Xor8BitRegister::default(opcode).execute(bus);
    } else if 0xB0 <= opcode && opcode <= 0xB7 || opcode == 0xF6 {
        Or8BitRegister::default(opcode).execute(bus);
    } else if 0xB8 <= opcode && opcode <= 0xBF || opcode == 0xFE {
        Compare8BitRegister::default(opcode).execute(bus);
    } else {
        dispatch_control(bus, opcode);
    }
}

#[verifier::rlimit(50)]
fn dispatch_control(bus: &mut Bus, opcode: u8)
    requires
        old(bus).wf(),
        opcode >= 0xC0,
        !is_unimplemented_opcode(opcode),
        !is_load_opcode(opcode),
        !is_alu_opcode(opcode),
    ensures
        final(bus).wf(),
        execute_post(old(bus), final(bus), opcode),
        1 <= final(bus).cpu@.cycle_buffer <= 6,
{
    if opcode == 0xC3 {
        JumpAddress::default().execute(bus);
    } else if opcode == 0xC2 || opcode == 0xCA || opcode == 0xD2 || opcode == 0xDA {
        JumpConditional::default(opcode).execute(bus);
    } else if opcode == 0xCD {
        CallAddress::default().execute(bus);
    } else if opcode == 0xC4 || opcode == 0xCC || opcode == 0xD4 || opcode == 0xDC {
        CallConditional::default(opcode).execute(bus);
    } else if opcode == 0xC9 {
        CallReturn::default().execute(bus);
    } else if opcode == 0xD9 {
        ReturnEnableInterrupts::default().execute(bus);
    } else if opcode == 0xC0 || opcode == 0xC8 || opcode == 0xD0 || opcode == 0xD8 {
        ReturnConditional::default(opcode).execute(bus);
    } else if opcode == 0xC5 || opcode == 0xD5 || opcode == 0xE5 || opcode == 0xF5 {
        PushRegister::default(opcode).execute(bus);
    } else if opcode == 0xC1 || opcode == 0xD1 || opcode == 0xE1 || opcode == 0xF1 {
        PopRegister::default(opcode).execute(bus);
    } else if opcode % 8 == 7 {
        CallRST::default(opcode).execute(bus);
    } else if opcode == 0xCB {
        CB::default().execute(bus);
    } else if opcode == 0xE9 {
        JumpHL::default().execute(bus);
    } else if opcode == 0xF3 {
        DisableInterrupts::default().execute(bus);
    } else if opcode == 0xFB {
        EnableInterrupts::default().execute(bus);
    } else {
        AddSignedImmediateToSP::default(opcode).execute(bus);
    }
}

} // verus!
