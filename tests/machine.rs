use rustboy::bus::{Bus, StepError};
use rustboy::io::lcd::ScanLineEvent;

fn rom_image(cartridge_type: u8, rom_size: u8, banks: usize) -> Vec<u8> {
    let mut rom = vec![0u8; banks * 0x4000];
    rom[0x147] = cartridge_type;
    rom[0x148] = rom_size;
    rom[0x149] = 0;
    rom
}

fn machine() -> Bus {
    Bus::new(rom_image(0x00, 0x00, 2)).unwrap()
}

/// Places `program` at 0xC000 and points PC at it.
fn machine_with_program(program: &[u8]) -> Bus {
    let mut bus = machine();
    for (i, b) in program.iter().enumerate() {
        bus.write_u8(0xC000 + i as u16, *b);
    }
    bus.cpu.set_pc(0xC000);
    bus
}

fn step(bus: &mut Bus) -> bool {
    bus.run_cycle().unwrap()
}

#[test]
fn power_on_state() {
    let bus = machine();
    assert_eq!(bus.cpu.get_af(), 0x01B0);
    assert_eq!(bus.cpu.get_bc(), 0x0013);
    assert_eq!(bus.cpu.get_de(), 0x00D8);
    assert_eq!(bus.cpu.get_hl(), 0x014D);
    assert_eq!(bus.cpu.get_sp(), 0xFFFE);
    assert_eq!(bus.cpu.get_pc(), 0x0100);
    assert!(!bus.cpu.is_halted);
    assert!(bus.io.interrupt.interrupt_master_enable);
}

#[test]
fn fetch_execute_flags_first_step() {
    let mut bus = machine();
    assert_eq!(bus.read_u8(0x0100), 0x00);
    let ready = step(&mut bus);
    assert!(!ready);
    assert_eq!(bus.cpu.get_pc(), 0x0101);
    assert_eq!(bus.cpu.cycle_buffer, 1);
    assert_eq!(bus.io.lcd.lcd_y_coordinate, 0);
    assert_eq!(bus.io.lcd.lcd_y_cycles, 4);
}

#[test]
fn rst_dispatch() {
    let mut bus = machine_with_program(&[0xFF]);
    bus.cpu.set_sp(0xFFFE);
    step(&mut bus);
    assert_eq!(bus.cpu.get_pc(), 0x0038);
    assert_eq!(bus.cpu.get_sp(), 0xFFFC);
    assert_eq!(bus.read_u8(0xFFFC), 0x01);
    assert_eq!(bus.read_u8(0xFFFD), 0xC0);
    assert_eq!(bus.read_u16(0xFFFC), 0xC001);
    assert_eq!(bus.cpu.cycle_buffer, 4);
}

#[test]
fn interrupt_dispatch_priority() {
    let mut bus = machine();
    bus.io.interrupt.interrupt_master_enable = true;
    bus.write_u8(0xFFFF, 0x05);
    bus.write_u8(0xFF0F, 0x05);
    step(&mut bus);
    assert_eq!(bus.cpu.get_pc(), 0x0040);
    assert!(!bus.io.interrupt.interrupt_master_enable);
    assert_eq!(bus.io.interrupt.interrupt_flag & 0x01, 0);
    assert_ne!(bus.io.interrupt.interrupt_flag & 0x04, 0);
    assert_eq!(bus.cpu.cycle_buffer, 5);
    assert_eq!(bus.read_u16(bus.cpu.get_sp()), 0x0100);
}

#[test]
fn interrupt_vectors_by_priority() {
    let expected = [(0x01u8, 0x40u16), (0x02, 0x48), (0x04, 0x50), (0x08, 0x58), (0x10, 0x60)];
    for (bit, vector) in expected {
        let mut bus = machine();
        bus.write_u8(0xFFFF, 0x1F);
        bus.write_u8(0xFF0F, bit);
        step(&mut bus);
        assert_eq!(bus.cpu.get_pc(), vector);
        assert_eq!(bus.io.interrupt.interrupt_flag & bit, 0);
    }
}

#[test]
fn halt_resume_with_ime_off() {
    let mut bus = machine();
    bus.io.interrupt.interrupt_master_enable = false;
    bus.write_u8(0xFFFF, 0x01);
    bus.write_u8(0xFF0F, 0x00);
    bus.cpu.halt();
    let pc = bus.cpu.get_pc();
    for _ in 0..10 {
        step(&mut bus);
        assert!(bus.cpu.is_halted);
        assert_eq!(bus.cpu.get_pc(), pc);
        assert_eq!(bus.cpu.cycle_buffer, 1);
    }
    bus.write_u8(0xFF0F, 0x01);
    step(&mut bus);
    assert!(!bus.cpu.is_halted);
    assert_eq!(bus.cpu.get_pc(), pc);
}

#[test]
fn halt_instruction_halts() {
    let mut bus = machine_with_program(&[0x76]);
    step(&mut bus);
    assert!(bus.cpu.is_halted);
    assert_eq!(bus.cpu.get_pc(), 0xC001);
}

#[test]
fn oam_dma_copies_page() {
    let mut bus = machine();
    for i in 0..0xA0u16 {
        bus.write_u8(0xC000 + i, i as u8);
    }
    bus.write_u8(0xFF46, 0xC0);
    assert!(bus.io.oam.dma_transfer);
    step(&mut bus);
    assert!(!bus.io.oam.dma_transfer);
    for i in 0..0xA0u16 {
        assert_eq!(bus.read_u8(0xFE00 + i), i as u8);
    }
}

#[test]
fn unimplemented_opcode_faults() {
    let mut bus = machine_with_program(&[0xD3]);
    let r = bus.run_cycle();
    assert_eq!(r, Err(StepError::UnimplementedOpcode { pc: 0xC000, opcode: 0xD3 }));
    assert_eq!(bus.cpu.get_pc(), 0xC000);
}

#[test]
fn push_then_pop_restores_pairs() {
    // LD BC,0x1234; PUSH BC; LD BC,0; POP BC
    let mut bus = machine_with_program(&[0x01, 0x34, 0x12, 0xC5, 0x01, 0x00, 0x00, 0xC1]);
    bus.cpu.set_sp(0xD000);
    for _ in 0..4 {
        step(&mut bus);
    }
    assert_eq!(bus.cpu.get_bc(), 0x1234);
    assert_eq!(bus.cpu.get_sp(), 0xD000);
}

#[test]
fn pop_af_masks_low_nibble() {
    // LD BC,0x12FF; PUSH BC; POP AF; PUSH AF; POP DE
    let mut bus = machine_with_program(&[0x01, 0xFF, 0x12, 0xC5, 0xF1, 0xF5, 0xD1]);
    bus.cpu.set_sp(0xD000);
    for _ in 0..5 {
        step(&mut bus);
    }
    assert_eq!(bus.cpu.get_af(), 0x12F0);
    assert_eq!(bus.cpu.get_f() & 0x0F, 0);
    assert_eq!(bus.cpu.get_de(), 0x12F0);
}

#[test]
fn flags_low_nibble_stays_zero() {
    // A mix of arithmetic: ADD, SUB, DAA, CPL, SCF, CCF, INC, DEC, RLA
    let program = [0xC6, 0x7F, 0xD6, 0x01, 0x27, 0x2F, 0x37, 0x3F, 0x3C, 0x3D, 0x17];
    let mut bus = machine_with_program(&program);
    for _ in 0..9 {
        step(&mut bus);
        assert_eq!(bus.cpu.get_f() & 0x0F, 0);
        assert_eq!(bus.cpu.get_af() & 0x000F, 0);
    }
}

#[test]
fn cpl_twice_restores_a() {
    let mut bus = machine_with_program(&[0x3E, 0x5A, 0x2F, 0x2F]);
    step(&mut bus);
    step(&mut bus);
    assert_eq!(bus.cpu.get_a(), 0xA5);
    assert!(bus.cpu.get_n_flag() && bus.cpu.get_half_carry_flag());
    step(&mut bus);
    assert_eq!(bus.cpu.get_a(), 0x5A);
}

#[test]
fn ccf_twice_restores_carry_and_scf_sets_it() {
    let mut bus = machine_with_program(&[0x3F, 0x3F, 0x37]);
    let c0 = bus.cpu.get_carry_flag();
    step(&mut bus);
    assert_eq!(bus.cpu.get_carry_flag(), !c0);
    step(&mut bus);
    assert_eq!(bus.cpu.get_carry_flag(), c0);
    bus.cpu.set_carry_flag(false);
    bus.cpu.set_n_flag(true);
    bus.cpu.set_half_carry_flag(true);
    step(&mut bus);
    assert!(bus.cpu.get_carry_flag());
    assert!(!bus.cpu.get_n_flag());
    assert!(!bus.cpu.get_half_carry_flag());
}

#[test]
fn add_sets_zero_half_and_carry() {
    // LD A,0x3A; ADD A,0xC6
    let mut bus = machine_with_program(&[0x3E, 0x3A, 0xC6, 0xC6]);
    step(&mut bus);
    step(&mut bus);
    assert_eq!(bus.cpu.get_a(), 0x00);
    assert!(bus.cpu.get_zero_flag());
    assert!(!bus.cpu.get_n_flag());
    assert!(bus.cpu.get_half_carry_flag());
    assert!(bus.cpu.get_carry_flag());
    assert_eq!(bus.cpu.cycle_buffer, 2);
}

#[test]
fn sub_and_compare_flags() {
    // LD A,0x3E; SUB 0x0F; CP 0x2F
    let mut bus = machine_with_program(&[0x3E, 0x3E, 0xD6, 0x0F, 0xFE, 0x2F]);
    step(&mut bus);
    step(&mut bus);
    assert_eq!(bus.cpu.get_a(), 0x2F);
    assert!(bus.cpu.get_n_flag());
    assert!(bus.cpu.get_half_carry_flag());
    assert!(!bus.cpu.get_carry_flag());
    step(&mut bus);
    assert_eq!(bus.cpu.get_a(), 0x2F);
    assert!(bus.cpu.get_zero_flag());
}

#[test]
fn daa_after_bcd_addition() {
    // LD A,0x45; ADD A,0x38; DAA
    let mut bus = machine_with_program(&[0x3E, 0x45, 0xC6, 0x38, 0x27]);
    for _ in 0..3 {
        step(&mut bus);
    }
    assert_eq!(bus.cpu.get_a(), 0x83);
    assert!(!bus.cpu.get_carry_flag());
    assert!(!bus.cpu.get_half_carry_flag());
}

#[test]
fn add_hl_half_carry_from_bit_11() {
    // LD HL,0x0FFF; LD BC,0x0001; ADD HL,BC
    let mut bus = machine_with_program(&[0x21, 0xFF, 0x0F, 0x01, 0x01, 0x00, 0x09]);
    for _ in 0..3 {
        step(&mut bus);
    }
    assert_eq!(bus.cpu.get_hl(), 0x1000);
    assert!(bus.cpu.get_half_carry_flag());
    assert!(!bus.cpu.get_carry_flag());
}

#[test]
fn add_sp_signed_offset() {
    // LD SP,0xFFF8; ADD SP,-8 ; LD HL,SP+2
    let mut bus = machine_with_program(&[0x31, 0xF8, 0xFF, 0xE8, 0xF8, 0xF8, 0x02]);
    step(&mut bus);
    step(&mut bus);
    assert_eq!(bus.cpu.get_sp(), 0xFFF0);
    assert!(bus.cpu.get_carry_flag());
    assert!(bus.cpu.get_half_carry_flag());
    assert_eq!(bus.cpu.cycle_buffer, 4);
    step(&mut bus);
    assert_eq!(bus.cpu.get_hl(), 0xFFF2);
    assert_eq!(bus.cpu.cycle_buffer, 3);
}

#[test]
fn relative_jump_backwards_and_conditional_timing() {
    // XOR A (Z set); JR NZ,+5 (not taken); JR -4
    let mut bus = machine_with_program(&[0xAF, 0x20, 0x05, 0x18, 0xFC]);
    step(&mut bus);
    step(&mut bus);
    assert_eq!(bus.cpu.get_pc(), 0xC003);
    assert_eq!(bus.cpu.cycle_buffer, 2);
    step(&mut bus);
    assert_eq!(bus.cpu.get_pc(), 0xC001);
    assert_eq!(bus.cpu.cycle_buffer, 3);
}

#[test]
fn call_and_return() {
    // CALL 0xC010; ... at 0xC010: RET
    let mut bus = machine_with_program(&[0xCD, 0x10, 0xC0]);
    bus.write_u8(0xC010, 0xC9);
    bus.cpu.set_sp(0xD000);
    step(&mut bus);
    assert_eq!(bus.cpu.get_pc(), 0xC010);
    assert_eq!(bus.cpu.get_sp(), 0xCFFE);
    assert_eq!(bus.cpu.cycle_buffer, 6);
    assert_eq!(bus.read_u16(0xCFFE), 0xC003);
    step(&mut bus);
    assert_eq!(bus.cpu.get_pc(), 0xC003);
    assert_eq!(bus.cpu.get_sp(), 0xD000);
    assert_eq!(bus.cpu.cycle_buffer, 4);
}

#[test]
fn cb_operations() {
    // LD B,0x81; RLC B; BIT 7,B; SET 2,B; RES 0,B; SWAP B
    let mut bus = machine_with_program(&[0x06, 0x81, 0xCB, 0x00, 0xCB, 0x78, 0xCB, 0xD0, 0xCB, 0x80, 0xCB, 0x30]);
    step(&mut bus);
    step(&mut bus);
    assert_eq!(bus.cpu.get_b(), 0x03);
    assert!(bus.cpu.get_carry_flag());
    assert_eq!(bus.cpu.cycle_buffer, 2);
    step(&mut bus);
    assert!(bus.cpu.get_zero_flag());
    assert!(bus.cpu.get_half_carry_flag());
    step(&mut bus);
    assert_eq!(bus.cpu.get_b(), 0x07);
    step(&mut bus);
    assert_eq!(bus.cpu.get_b(), 0x06);
    step(&mut bus);
    assert_eq!(bus.cpu.get_b(), 0x60);
}

#[test]
fn load_through_hl_increment() {
    // LD HL,0xC100; LD A,0x42; LD (HL+),A; LD A,(HL-)... read back
    let mut bus = machine_with_program(&[0x21, 0x00, 0xC1, 0x3E, 0x42, 0x22, 0x2B, 0x7E]);
    for _ in 0..5 {
        step(&mut bus);
    }
    assert_eq!(bus.read_u8(0xC100), 0x42);
    assert_eq!(bus.cpu.get_hl(), 0xC100);
    assert_eq!(bus.cpu.get_a(), 0x42);
}

#[test]
fn write_then_read_ram_regions() {
    let mut bus = machine();
    for (addr, v) in [(0x8123u16, 0x11u8), (0xC456, 0x22), (0xD789, 0x33), (0xFE10, 0x44), (0xFF90, 0x55)] {
        bus.write_u8(addr, v);
        assert_eq!(bus.read_u8(addr), v);
    }
    bus.write_u8(0xE010, 0x66);
    assert_eq!(bus.read_u8(0xC010), 0x66);
    assert_eq!(bus.read_u8(0xFEA0), 0xFF);
    bus.write_u8(0xFEA0, 0x12);
    assert_eq!(bus.read_u8(0xFEA0), 0xFF);
}

#[test]
fn div_reads_counter_shifted() {
    let mut bus = machine();
    for _ in 0..200 {
        step(&mut bus);
        assert_eq!(bus.read_u8(0xFF04), (bus.io.timer.m_cycles >> 6) as u8);
    }
    assert_eq!(bus.io.timer.m_cycles, 200);
    assert_eq!(bus.read_u8(0xFF04), 3);
    bus.write_u8(0xFF04, 0x99);
    assert_eq!(bus.read_u8(0xFF04), 0);
    assert_eq!(bus.io.timer.m_cycles, 0);
}

#[test]
fn lcd_stays_in_range_for_a_frame() {
    let mut bus = machine();
    let mut dots: u32 = 0;
    let mut frames = 0;
    for _ in 0..20000 {
        let ready = step(&mut bus);
        dots += 4 * bus.cpu.cycle_buffer as u32;
        if ready {
            frames += 1;
        }
        assert!(bus.io.lcd.lcd_y_coordinate <= 153);
        assert!(bus.io.lcd.lcd_status & 0x03 <= 3);
        assert_eq!(bus.io.lcd.lcd_y_cycles as u32, dots % 456);
        assert_eq!(bus.io.lcd.lcd_y_coordinate as u32, (dots / 456) % 154);
    }
    assert_eq!(frames, 1);
}

#[test]
fn mbc1_zero_bank_reads_bank_one() {
    let mut rom = rom_image(0x01, 0x02, 8);
    for bank in 0..8usize {
        rom[bank * 0x4000 + 0x10] = bank as u8;
    }
    let mut bus = Bus::new(rom).unwrap();
    assert_eq!(bus.read_u8(0x4010), 1);
    bus.write_u8(0x2000, 0x01);
    assert_eq!(bus.read_u8(0x4010), 1);
    bus.write_u8(0x2000, 0x02);
    assert_eq!(bus.read_u8(0x4010), 2);
    bus.write_u8(0x2000, 0x00);
    assert_eq!(bus.read_u8(0x4010), 1);
    bus.write_u8(0x2000, 0x0F);
    assert_eq!(bus.read_u8(0x4010), 7);
}

#[test]
fn mbc_external_ram_needs_enable() {
    let mut bus = Bus::new(rom_image(0x13, 0x00, 2)).unwrap();
    assert_eq!(bus.read_u8(0xA000), 0xFF);
    bus.write_u8(0xA000, 0x12);
    assert_eq!(bus.read_u8(0xA000), 0xFF);
    bus.write_u8(0x0000, 0x0A);
    bus.write_u8(0xA000, 0x12);
    assert_eq!(bus.read_u8(0xA000), 0x12);
    bus.write_u8(0x4000, 0x01);
    assert_eq!(bus.read_u8(0xA000), 0x00);
    bus.write_u8(0x4000, 0x00);
    assert_eq!(bus.read_u8(0xA000), 0x12);
    bus.write_u8(0x0000, 0x00);
    assert_eq!(bus.read_u8(0xA000), 0xFF);
}

#[test]
fn vblank_sets_frame_ready() {
    let mut bus = machine();
    let mut steps = 0;
    loop {
        steps += 1;
        if step(&mut bus) {
            break;
        }
    }
    assert_eq!(bus.io.lcd.lcd_y_coordinate, 144);
    assert_ne!(bus.io.interrupt.interrupt_flag & 0x01, 0);
    assert_eq!(steps, 144 * 114);
    assert_eq!(bus.ppu.window_internal_line_counter, 0);
    let _ = ScanLineEvent::Idle;
}

#[test]
fn background_pixel_reaches_frame() {
    let mut bus = machine();
    // Tile 0, row 0: low byte 0xFF, high byte 0x00 -> color index 1.
    bus.write_u8(0x8000, 0xFF);
    bus.write_u8(0x8001, 0x00);
    bus.ppu.update_current_scanline_in_frame_buffer(&bus.io);
    // BGP 0xFC maps color 1 to shade 3.
    assert_eq!(bus.ppu.pixel(0, 0), 3);
    assert_eq!(bus.ppu.pixel(159, 0), 3);
    assert_eq!(bus.ppu.pixel(0, 1), 0);
}
