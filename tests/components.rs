use rustboy::bus::Bus;
use rustboy::cartridge::cartridge::Cartridge;
use rustboy::cartridge::cartridge_header::{CartridgeChipType, CartridgeError, CartridgeHeader, CartridgeType};
use rustboy::io::interrupts::Interrupt;
use rustboy::io::joypad::Joypad;
use rustboy::io::lcd::{PaletteData, ScanLineEvent, LCD};
use rustboy::io::oam::{ObjectAttribute, ObjectAttributeMemory};
use rustboy::io::timer::Timer;
use rustboy::io::vram::VRam;
use rustboy::memory::MemoryLocation;
use rustboy::opcode::arithmatic::{alu, shift};
use rustboy::ppu::PPU;

fn rom_image(cartridge_type: u8, rom_size: u8, ram_size: u8) -> Vec<u8> {
    let mut rom = vec![0u8; 0x8000];
    rom[0x147] = cartridge_type;
    rom[0x148] = rom_size;
    rom[0x149] = ram_size;
    rom
}

#[test]
fn timer_overflow_reloads_and_requests() {
    let mut timer = Timer::default();
    let mut interrupt = Interrupt::default();
    timer.write_u8(0xFF07, 0x05);
    timer.write_u8(0xFF05, 0xFF);
    timer.write_u8(0xFF06, 0x34);
    // TAC 0x05 selects bit 1: its first falling edge is the counter going 3 -> 4.
    let mut cycles: u8 = 3;
    timer.update_timer(&mut cycles, &mut interrupt);
    assert_eq!(cycles, 0);
    assert_eq!(timer.read_u8(0xFF05), 0xFF);
    assert_eq!(interrupt.interrupt_flag & 0x04, 0);
    let mut cycles: u8 = 1;
    timer.update_timer(&mut cycles, &mut interrupt);
    assert_eq!(timer.read_u8(0xFF05), 0x34);
    assert_ne!(interrupt.interrupt_flag & 0x04, 0);
}

#[test]
fn timer_disabled_does_not_count() {
    let mut timer = Timer::default();
    let mut interrupt = Interrupt::default();
    timer.write_u8(0xFF07, 0x01);
    let mut cycles: u8 = 200;
    timer.update_timer(&mut cycles, &mut interrupt);
    assert_eq!(timer.read_u8(0xFF05), 0);
    assert_eq!(timer.read_u8(0xFF04), (200u16 >> 6) as u8);
}

#[test]
fn timer_frequency_masks() {
    for (tac, period) in [(0x04u8, 256u16), (0x05, 4), (0x06, 16), (0x07, 64)] {
        let mut timer = Timer::default();
        let mut interrupt = Interrupt::default();
        timer.write_u8(0xFF07, tac);
        let mut cycles: u8 = 255;
        timer.update_timer(&mut cycles, &mut interrupt);
        let mut cycles: u8 = 1;
        timer.update_timer(&mut cycles, &mut interrupt);
        assert_eq!(timer.read_u8(0xFF05) as u16, 256 / period);
    }
}

#[test]
fn div_write_resets_counter() {
    let mut timer = Timer::default();
    let mut interrupt = Interrupt::default();
    let mut cycles: u8 = 130;
    timer.update_timer(&mut cycles, &mut interrupt);
    assert_eq!(timer.read_u8(0xFF04), 2);
    timer.write_u8(0xFF04, 0x55);
    assert_eq!(timer.read_u8(0xFF04), 0);
}

#[test]
fn lcd_line_143_to_vblank() {
    let mut lcd = LCD::default();
    let mut interrupt = Interrupt::default();
    lcd.lcd_y_coordinate = 143;
    lcd.lcd_y_cycles = 0;
    let mut events = Vec::new();
    for cycles in [100u8, 14] {
        events.push(lcd.update_ly(cycles, &mut interrupt));
    }
    assert_eq!(events[0], ScanLineEvent::HBlankEntered);
    assert_eq!(events[1], ScanLineEvent::VBlankEntered);
    assert_eq!(lcd.lcd_y_coordinate, 144);
    assert_eq!(lcd.lcd_y_cycles, 0);
    assert_ne!(interrupt.interrupt_flag & 0x01, 0);
    assert_eq!(lcd.lcd_status & 0x03, 0x01);
}

#[test]
fn lcd_modes_within_a_line() {
    let mut lcd = LCD::default();
    let mut interrupt = Interrupt::default();
    assert_eq!(lcd.update_ly(20, &mut interrupt), ScanLineEvent::PixelTransferEntered);
    assert_eq!(lcd.lcd_status & 0x03, 0x03);
    assert_eq!(lcd.update_ly(43, &mut interrupt), ScanLineEvent::HBlankEntered);
    assert_eq!(lcd.lcd_status & 0x03, 0x00);
    assert_eq!(lcd.update_ly(51, &mut interrupt), ScanLineEvent::OAMScanEntered);
    assert_eq!(lcd.lcd_status & 0x03, 0x02);
    assert_eq!(lcd.lcd_y_coordinate, 1);
}

#[test]
fn lcd_line_compare_requests_stat() {
    let mut lcd = LCD::default();
    let mut interrupt = Interrupt::default();
    lcd.write_u8(0xFF45, 1);
    lcd.write_u8(0xFF41, 0x40);
    for _ in 0..2 {
        lcd.update_ly(57, &mut interrupt);
    }
    assert_eq!(lcd.lcd_y_coordinate, 1);
    assert_ne!(lcd.lcd_status & 0x04, 0);
    assert_ne!(interrupt.interrupt_flag & 0x02, 0);
}

#[test]
fn lcd_wraps_after_line_153() {
    let mut lcd = LCD::default();
    let mut interrupt = Interrupt::default();
    lcd.lcd_y_coordinate = 153;
    lcd.lcd_y_cycles = 452;
    assert_eq!(lcd.update_ly(1, &mut interrupt), ScanLineEvent::OAMScanEntered);
    assert_eq!(lcd.lcd_y_coordinate, 0);
    assert_eq!(lcd.lcd_status & 0x03, 0x02);
}

#[test]
fn lcd_write_to_ly_resets_it() {
    let mut lcd = LCD::default();
    lcd.lcd_y_coordinate = 77;
    lcd.write_u8(0xFF44, 12);
    assert_eq!(lcd.read_u8(0xFF44), 0);
}

fn object_memory_with(objects: &[(u8, u8)]) -> ObjectAttributeMemory {
    let mut oam = ObjectAttributeMemory::default();
    for (i, (y, x)) in objects.iter().enumerate() {
        oam.write_u8(0xFE00 + 4 * i as u16, *y);
        oam.write_u8(0xFE00 + 4 * i as u16 + 1, *x);
    }
    oam
}

#[test]
fn scanline_object_cap_keeps_first_ten() {
    let mut bus = Bus::new(rom_image(0, 0, 0)).unwrap();
    bus.io.oam = object_memory_with(&[(16, 8); 15]);
    bus.io.lcd.lcd_control = 0x93;
    assert_eq!(bus.io.lcd.lcd_y_coordinate, 0);
    bus.ppu.update_scanline_object_id_buffer(&bus.io);
    let expected: Vec<u8> = (0..10).collect();
    assert_eq!(bus.ppu.scanline_object_id_buffer, expected);
    assert_eq!(bus.ppu.scanline_object_id_buffer.iter().filter(|i| **i != 0xFF).count(), 10);
}

#[test]
fn scanline_objects_by_height_and_enable() {
    let mut bus = Bus::new(rom_image(0, 0, 0)).unwrap();
    // y = 2 crosses line 0 only for 16-pixel objects; y = 16 for both.
    bus.io.oam = object_memory_with(&[(2, 8), (16, 8), (40, 8)]);
    bus.io.lcd.lcd_control = 0x93;
    bus.ppu.update_scanline_object_id_buffer(&bus.io);
    assert_eq!(bus.ppu.scanline_object_id_buffer[0], 1);
    assert_eq!(bus.ppu.scanline_object_id_buffer[1], 0xFF);
    bus.io.lcd.lcd_control = 0x97;
    bus.ppu.update_scanline_object_id_buffer(&bus.io);
    assert_eq!(&bus.ppu.scanline_object_id_buffer[..3], &[0, 1, 0xFF]);
    bus.io.lcd.lcd_control = 0x91;
    bus.ppu.update_scanline_object_id_buffer(&bus.io);
    assert!(bus.ppu.scanline_object_id_buffer.iter().all(|i| *i == 0xFF));
}

#[test]
fn object_drawn_over_background_smaller_x_wins() {
    let mut bus = Bus::new(rom_image(0, 0, 0)).unwrap();
    // Tile 1: row 0 all color 1. Tile 2: row 0 all color 2.
    bus.write_u8(0x8010, 0xFF);
    bus.write_u8(0x8021, 0xFF);
    bus.io.oam = object_memory_with(&[(16, 12), (16, 8)]);
    bus.io.oam.write_u8(0xFE02, 1);
    bus.io.oam.write_u8(0xFE06, 2);
    bus.io.lcd.lcd_control = 0x93;
    bus.io.lcd.obj_palette_0 = 0xE4;
    bus.ppu.update_scanline_object_id_buffer(&bus.io);
    bus.ppu.update_current_scanline_in_frame_buffer(&bus.io);
    // Object 1 (x = 8) covers columns 0..8 with shade 2; object 0 (x = 12)
    // covers 4..12 with shade 1 and loses where they overlap.
    assert_eq!(bus.ppu.pixel(0, 0), 2);
    assert_eq!(bus.ppu.pixel(7, 0), 2);
    assert_eq!(bus.ppu.pixel(8, 0), 1);
    assert_eq!(bus.ppu.pixel(11, 0), 1);
    assert_eq!(bus.ppu.pixel(12, 0), 0);
}

#[test]
fn lcd_off_blanks_the_line() {
    let mut ppu = PPU::new();
    let mut bus = Bus::new(rom_image(0, 0, 0)).unwrap();
    bus.write_u8(0x8000, 0xFF);
    bus.io.lcd.lcd_control = 0x11;
    ppu.update_current_scanline_in_frame_buffer(&bus.io);
    assert_eq!(ppu.pixel(0, 0), 0);
    bus.io.lcd.lcd_control = 0x91;
    ppu.update_current_scanline_in_frame_buffer(&bus.io);
    assert_eq!(ppu.pixel(0, 0), 3);
}

#[test]
fn window_counter_advances_only_when_shown() {
    let mut bus = Bus::new(rom_image(0, 0, 0)).unwrap();
    bus.io.lcd.lcd_control = 0xB1;
    bus.io.lcd.window_x = 7;
    bus.io.lcd.window_y = 0;
    bus.ppu.update_current_scanline_in_frame_buffer(&bus.io);
    assert_eq!(bus.ppu.window_internal_line_counter, 1);
    bus.io.lcd.window_x = 170;
    bus.ppu.update_current_scanline_in_frame_buffer(&bus.io);
    assert_eq!(bus.ppu.window_internal_line_counter, 1);
}

#[test]
fn palette_split_and_object_transparency() {
    let p = PaletteData::from_u8(0xE4);
    assert_eq!((p.color_0, p.color_1, p.color_2, p.color_3), (0, 1, 2, 3));
    assert_eq!(p.get_color(2), 2);
    assert_eq!(p.get_object_color(0), 4);
    assert_eq!(p.get_object_color(3), 3);
}

#[test]
fn tile_decoding() {
    let mut vram = VRam::default();
    vram.write_u8(0x8000, 0x3C);
    vram.write_u8(0x8001, 0x7E);
    let tile = vram.get_tile(0x8000, 0);
    assert_eq!(tile[..2], [0x3C, 0x7E]);
    let pixels = vram.process_tile(&tile);
    assert_eq!(pixels[..8], [0, 2, 3, 3, 3, 3, 2, 0]);
    assert_eq!(VRam::decode_pixel(0x80, 0x80, 0), 3);
    assert_eq!(VRam::tile_base(0x9000, 0x80), 0x800);
    assert_eq!(VRam::tile_base(0x9000, 0x01), 0x1010);
    assert_eq!(vram.read_u8(0xFF4F), 0);
    assert_eq!(vram.get_tile_map(0x9800).len(), 0x400);
}

#[test]
fn object_attribute_flags() {
    let o = ObjectAttribute { y: 20, x: 8, tile_number: 0, flags: 0xF0 };
    assert!(o.is_bg_priority() && o.is_v_flip() && o.is_h_flip() && !o.is_obj_palette_0());
    assert!(o.is_in_scanline(4, 8));
    assert!(!o.is_in_scanline(3, 8));
    assert!(o.is_in_scanline(19, 16));
    assert!(!o.is_in_scanline(20, 16));
    let far = ObjectAttribute { y: 250, x: 8, tile_number: 0, flags: 0 };
    assert!(far.is_in_scanline(240, 16));
}

#[test]
fn joypad_groups() {
    let mut joypad = Joypad::default();
    joypad.joypad_buttons.set_a(true);
    joypad.joypad_buttons.set_down(true);
    joypad.write_u8(0xFF00, 0x10);
    assert_eq!(joypad.read_u8(0xFF00), 0x0E);
    joypad.write_u8(0xFF00, 0x20);
    assert_eq!(joypad.read_u8(0xFF00), 0x07);
    joypad.write_u8(0xFF00, 0x30);
    assert_eq!(joypad.read_u8(0xFF00), 0x0F);
    assert_eq!(joypad.joypad_buttons.direction_button_mask(), 0x07);
    assert_eq!(joypad.joypad_buttons.action_button_mask(), 0x0E);
}

#[test]
fn header_fields_and_entry_point() {
    let mut rom = rom_image(0x01, 0x01, 0x02);
    rom[0x100] = 0x00;
    rom[0x101] = 0xC3;
    rom[0x102] = 0x50;
    rom[0x103] = 0x01;
    rom[0x134] = b'T';
    rom[0x143] = 0x80;
    let header = CartridgeHeader::new(&rom).unwrap();
    assert_eq!(header.entry_point, 0x00C3_5001);
    assert_eq!(header.title.len(), 15);
    assert_eq!(header.title[0], b'T');
    assert_eq!(header.cgb_flag, 0x80);
    assert_eq!(header.cartridge_type, CartridgeType::MBC1);
    assert_eq!(header.get_rom_bank_mask(), 0x03);
}

#[test]
fn rom_bank_masks() {
    let expected = [0x01u8, 0x03, 0x07, 0x0F, 0x1F, 0x3F, 0x7F, 0xFF];
    for (code, mask) in expected.iter().enumerate() {
        let header = CartridgeHeader::new(&rom_image(0x00, code as u8, 0)).unwrap();
        assert_eq!(header.get_rom_bank_mask(), *mask);
    }
}

#[test]
fn header_errors() {
    assert_eq!(CartridgeHeader::new(&vec![0u8; 0x100]).unwrap_err(), CartridgeError::HeaderTooShort);
    assert_eq!(
        CartridgeHeader::new(&rom_image(0x04, 0, 0)).unwrap_err(),
        CartridgeError::InvalidCartridgeType(0x04)
    );
    assert_eq!(
        CartridgeHeader::new(&rom_image(0x00, 0x08, 0)).unwrap_err(),
        CartridgeError::InvalidRomSize(0x08)
    );
    assert_eq!(
        CartridgeHeader::new(&rom_image(0x00, 0x00, 0x04)).unwrap_err(),
        CartridgeError::InvalidRamSize(0x04)
    );
    assert_eq!(
        Cartridge::new(rom_image(0x05, 0, 0)).err(),
        Some(CartridgeError::UnsupportedCartridgeType(0x05))
    );
    assert!(Bus::new(rom_image(0x0F, 0, 0)).is_err());
}

#[test]
fn chip_types() {
    assert_eq!(CartridgeType::from_u8(0x13), Some(CartridgeType::MBC3_RAM_BATTERY));
    assert_eq!(CartridgeType::from_u8(0x14), None);
    assert_eq!(CartridgeChipType::from_cartridge_type(CartridgeType::MBC1_RAM), CartridgeChipType::MBC1);
    assert_eq!(CartridgeChipType::from_cartridge_type(CartridgeType::ROM), CartridgeChipType::ROMOnly);
    assert_eq!(CartridgeChipType::from_cartridge_type(CartridgeType::MBC2), CartridgeChipType::Unknown);
}

#[test]
fn rom_only_ignores_writes() {
    let mut rom = rom_image(0x00, 0, 0);
    rom[0x4000] = 0x77;
    let mut cartridge = Cartridge::new(rom).unwrap();
    cartridge.write_u8(0x2000, 0x02);
    assert_eq!(cartridge.read_u8(0x4000), 0x77);
    assert_eq!(cartridge.read_u8(0xA000), 0xFF);
    assert_eq!(cartridge.read_u16(0x3FFF), 0x7700);
}

#[test]
fn memory_map() {
    assert_eq!(MemoryLocation::parse_address(0x3FFF), MemoryLocation::Bank0);
    assert_eq!(MemoryLocation::parse_address(0x4000), MemoryLocation::BankN);
    assert_eq!(MemoryLocation::parse_address(0xE000), MemoryLocation::EchoRam);
    assert_eq!(MemoryLocation::parse_address(0xFEA0), MemoryLocation::NotUsed);
    assert_eq!(MemoryLocation::parse_address(0xFFFF), MemoryLocation::InterruptEnableRegister);
}

#[test]
fn alu_and_shift_values() {
    assert_eq!(alu(0, 0x3A, 0xC6, false), (0x00, false, true, true));
    assert_eq!(alu(1, 0xE1, 0x0F, true), (0xF1, false, true, false));
    assert_eq!(alu(2, 0x3E, 0x40, false), (0xFE, true, false, true));
    assert_eq!(alu(3, 0x3B, 0x2A, true), (0x10, true, false, false));
    assert_eq!(alu(4, 0x5A, 0x3F, false), (0x1A, false, true, false));
    assert_eq!(alu(5, 0xFF, 0x0F, false), (0xF0, false, false, false));
    assert_eq!(alu(6, 0x5A, 0x03, false), (0x5B, false, false, false));
    assert_eq!(shift(0, 0x85, false), (0x0B, true));
    assert_eq!(shift(1, 0x01, false), (0x80, true));
    assert_eq!(shift(2, 0x80, false), (0x00, true));
    assert_eq!(shift(3, 0x01, true), (0x80, true));
    assert_eq!(shift(4, 0xFF, false), (0xFE, true));
    assert_eq!(shift(5, 0x8A, false), (0xC5, false));
    assert_eq!(shift(6, 0xF0, false), (0x0F, false));
    assert_eq!(shift(7, 0x01, false), (0x00, true));
}

#[test]
fn interrupt_controller() {
    let mut it = Interrupt::default();
    it.write_u8(0xFFFF, 0x05);
    it.set_timer_interrupt();
    assert!(it.is_timer_interrupt());
    assert!(!it.is_vblank_interrupt());
    assert!(it.has_interrupts());
    assert_eq!(it.check_interrupts(), 0x04);
    it.disable_interrupts();
    assert_eq!(it.check_interrupts(), 0);
    assert!(it.has_interrupts());
    it.disable_timer_interrupt();
    assert!(!it.has_interrupts());
    it.set_lcd_interrupt();
    it.set_vblank_interrupt();
    assert_eq!(it.read_u8(0xFF0F), 0x03);
    it.disable_vblank_interrupt();
    it.disable_lcd_interrupt();
    assert_eq!(it.read_u8(0xFF0F), 0x00);
}

#[test]
fn lcd_full_line_in_one_update() {
    let mut lcd = LCD::default();
    let mut interrupt = Interrupt::default();
    lcd.lcd_y_coordinate = 143;
    lcd.lcd_y_cycles = 0;
    assert_eq!(lcd.update_ly(114, &mut interrupt), ScanLineEvent::VBlankEntered);
    assert_eq!(lcd.lcd_y_coordinate, 144);
    assert_eq!(lcd.lcd_y_cycles, 0);
    assert_ne!(interrupt.interrupt_flag & 0x01, 0);
    assert_eq!(lcd.lcd_status & 0x03, 0x01);
    lcd.lcd_y_cycles = 455;
    lcd.update_ly(114, &mut interrupt);
    assert_eq!(lcd.lcd_y_coordinate, 145);
    assert_eq!(lcd.lcd_y_cycles, 455);
}
