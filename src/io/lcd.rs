use vstd::prelude::*;
use crate::io::interrupts::{Interrupt, LCD_BIT, VBLANK_BIT};

verus! {

/// Dot cycles in one scanline.
pub const DOTS_PER_LINE: u16 = 456;

/// What a call of `LCD::update_ly` crossed into.
#[derive(Clone, Copy, PartialEq, Eq, Structural, Debug)]
pub enum ScanLineEvent {
    OAMScanEntered,
    PixelTransferEntered,
    HBlankEntered,
    VBlankEntered,
    Idle,
}

/// A palette register split into its four 2-bit shades.
#[derive(Clone, Copy, Debug)]
pub struct PaletteData {
    pub color_0: u8,
    pub color_1: u8,
    pub color_2: u8,
    pub color_3: u8,
}

/// Shade `i` (0 to 3) of palette register `byte`.
pub open spec fn shade(byte: u8, i: int) -> u8 {
    ((byte as int / pow4(i)) % 4) as u8
}

pub open spec fn pow4(i: int) -> int {
    if i <= 0 {
        1
    } else if i == 1 {
        4
    } else if i == 2 {
        16
    } else {
        64
    }
}

impl PaletteData {
    /// The shade that color index `color` maps to.
    pub open spec fn color(&self, color: int) -> u8 {
        if color == 0 {
            self.color_0
        } else if color == 1 {
            self.color_1
        } else if color == 2 {
            self.color_2
        } else {
            self.color_3
        }
    }

    /// The palette of register byte `byte`.
    pub open spec fn of(&self, byte: u8) -> bool {
        &&& self.color_0 == shade(byte, 0)
        &&& self.color_1 == shade(byte, 1)
        &&& self.color_2 == shade(byte, 2)
        &&& self.color_3 == shade(byte, 3)
    }

    pub fn default() -> (r: PaletteData)
        ensures
            r.of(0),
    {
        PaletteData { color_0: 0, color_1: 0, color_2: 0, color_3: 0 }
    }

    /// The shade of background color index `color`.
    pub fn get_color(&self, color: u8) -> (r: u8)
        requires
            color < 4,
        ensures
            r == self.color(color as int),
    {
        if color == 0 {
            self.color_0
        } else if color == 1 {
            self.color_1
        } else if color == 2 {
            self.color_2
        } else {
            self.color_3
        }
    }

    /// The shade of object color index `color`; index 0 is transparent and gives 4.
    pub fn get_object_color(&self, color: u8) -> (r: u8)
        requires
            color < 4,
        ensures
            r == (if color == 0 {
                4
            } else {
                self.color(color as int)
            }),
    {
        if color == 0 {
            4
        } else {
            self.get_color(color)
        }
    }

    /// Splits a palette register into its four shades, bits 1-0 first.
    pub fn from_u8(byte: u8) -> (r: PaletteData)
        ensures
            r.of(byte),
            r.color_0 < 4 && r.color_1 < 4 && r.color_2 < 4 && r.color_3 < 4,
    {
        let color_0 = byte & 0x03;
        let color_1 = (byte & 0x0C) >> 2;
        let color_2 = (byte & 0x30) >> 4;
        let color_3 = (byte & 0xC0) >> 6;
        assert(byte & 0x03 == byte % 4 && (byte & 0x0C) >> 2 == (byte / 4) % 4 && (byte & 0x30) >> 4
            == (byte / 16) % 4 && (byte & 0xC0) >> 6 == (byte / 64) % 4) by (bit_vector);
        PaletteData { color_0, color_1, color_2, color_3 }
    }
}

/// The LCD registers `0xFF40..=0xFF4B` (but `DMA`) and the dot counter of the
/// current scanline.
pub struct LCD {
    pub lcd_control: u8,
    pub lcd_status: u8,
    pub scroll_y: u8,
    pub scroll_x: u8,
    pub lcd_y_coordinate: u8,
    pub lcd_y_cycles: u16,
    pub ly_compare: u8,
    pub bg_palette: u8,
    pub obj_palette_0: u8,
    pub obj_palette_1: u8,
    pub window_x: u8,
    pub window_y: u8,
}

/// Whether `address` is one of the LCD registers this block owns.
pub open spec fn is_lcd_register(address: u16) -> bool {
    0xFF40 <= address <= 0xFF4B && address != 0xFF46
}

/// The STAT value with its mode bits replaced by `mode`.
pub open spec fn with_mode(stat: u8, mode: u8) -> u8 {
    (stat & 0xFC) | mode
}

impl LCD {
    /// Every register but STAT, `LY` and the dot counter is that of `o`.
    pub open spec fn same_settings(&self, o: &LCD) -> bool {
        &&& self.lcd_control == o.lcd_control && self.ly_compare == o.ly_compare
        &&& self.scroll_x == o.scroll_x && self.scroll_y == o.scroll_y
        &&& self.window_x == o.window_x && self.window_y == o.window_y
        &&& self.bg_palette == o.bg_palette && self.obj_palette_0 == o.obj_palette_0
        &&& self.obj_palette_1 == o.obj_palette_1
    }

    /// `LY` stays within `[0,153]` and the dot counter within one scanline.
    pub open spec fn wf(&self) -> bool {
        &&& self.lcd_y_coordinate <= 153
        &&& self.lcd_y_cycles < DOTS_PER_LINE
    }

    /// The dot count after `cycles` more machine cycles, before wrapping.
    pub open spec fn dots_after(&self, cycles: u8) -> int {
        self.lcd_y_cycles + 4 * cycles
    }

    /// Whether `cycles` more machine cycles complete the current scanline.
    pub open spec fn line_done(&self, cycles: u8) -> bool {
        self.dots_after(cycles) >= DOTS_PER_LINE
    }

    /// `LY` after `cycles` more machine cycles.
    pub open spec fn next_ly(&self, cycles: u8) -> u8 {
        if !self.line_done(cycles) {
            self.lcd_y_coordinate
        } else if self.lcd_y_coordinate >= 153 {
            0
        } else {
            (self.lcd_y_coordinate + 1) as u8
        }
    }

    /// The event of the visible-line mode change within the scanline, if any.
    pub open spec fn mode_event(&self, cycles: u8) -> ScanLineEvent {
        let prev = self.lcd_y_cycles;
        let now = self.dots_after(cycles);
        if self.lcd_y_coordinate >= 144 {
            ScanLineEvent::Idle
        } else if prev < 252 && 252 <= now {
            ScanLineEvent::HBlankEntered
        } else if prev < 80 && 80 <= now {
            ScanLineEvent::PixelTransferEntered
        } else {
            ScanLineEvent::Idle
        }
    }

    /// STAT and `IF` after the mode change within the line: entering mode 0
    /// requests the STAT interrupt when STAT bit 3 is set.
    pub open spec fn mode_phase(&self, cycles: u8, f: u8) -> (u8, u8) {
        let s = self.lcd_status;
        let ev = self.mode_event(cycles);
        if ev == ScanLineEvent::HBlankEntered {
            let s1 = with_mode(s, 0);
            (s1, if s1 & 0x08 != 0 {
                f | LCD_BIT
            } else {
                f
            })
        } else if ev == ScanLineEvent::PixelTransferEntered {
            (with_mode(s, 3), f)
        } else {
            (s, f)
        }
    }

    /// STAT and `IF` after `LY` steps to `ly1`: the coincidence bit follows
    /// `ly1 == LYC` (STAT interrupt on a match when bit 6 is set); line 144
    /// enters mode 1 with the vblank request (STAT interrupt when bit 4 is
    /// set); past line 153 the vblank request is withdrawn; a visible line
    /// enters mode 2 (STAT interrupt when bit 5 is set).
    pub open spec fn line_phase(s1: u8, f1: u8, ly1: int, lyc: u8) -> (u8, u8) {
        let s2: u8 = if ly1 == lyc {
            s1 | 0x04
        } else {
            s1 & 0xFB
        };
        let f2: u8 = if ly1 == lyc && s1 & 0x40 != 0 {
            f1 | LCD_BIT
        } else {
            f1
        };
        if ly1 == 144 {
            let s3: u8 = (s2 & 0xFC) | 0x01;
            let f3: u8 = f2 | VBLANK_BIT;
            (s3, if s3 & 0x10 != 0 {
                f3 | LCD_BIT
            } else {
                f3
            })
        } else if ly1 > 153 {
            let s3 = with_mode(s2, 2);
            let f3: u8 = f2 & !VBLANK_BIT;
            (s3, if s3 & 0x20 != 0 {
                f3 | LCD_BIT
            } else {
                f3
            })
        } else if ly1 < 144 {
            let s3 = with_mode(s2, 2);
            (s3, if s3 & 0x20 != 0 {
                f2 | LCD_BIT
            } else {
                f2
            })
        } else {
            (s2, f2)
        }
    }

    /// STAT and `IF` (from `f`) after `cycles` more machine cycles.
    pub open spec fn stat_if_after(&self, cycles: u8, f: u8) -> (u8, u8) {
        let (s1, f1) = self.mode_phase(cycles, f);
        if self.line_done(cycles) {
            Self::line_phase(s1, f1, self.lcd_y_coordinate + 1, self.ly_compare)
        } else {
            (s1, f1)
        }
    }

    /// The event that `update_ly(cycles)` reports.
    pub open spec fn event_after(&self, cycles: u8) -> ScanLineEvent {
        if self.line_done(cycles) && self.next_ly(cycles) == 144 {
            ScanLineEvent::VBlankEntered
        } else if self.line_done(cycles) && self.next_ly(cycles) < 144 {
            ScanLineEvent::OAMScanEntered
        } else {
            self.mode_event(cycles)
        }
    }

    pub fn default() -> (r: LCD)
        ensures
            r.wf(),
            r.lcd_control == 0x91 && r.lcd_status == 0x85,
            r.lcd_y_coordinate == 0 && r.lcd_y_cycles == 0,
            r.scroll_x == 0 && r.scroll_y == 0 && r.ly_compare == 0,
            r.bg_palette == 0xFC && r.obj_palette_0 == 0xFF && r.obj_palette_1 == 0xFF,
            r.window_x == 0 && r.window_y == 0,
    {
        LCD {
            lcd_control: 0x91,
            lcd_status: 0x85,
            scroll_y: 0,
            scroll_x: 0,
            lcd_y_coordinate: 0,
            lcd_y_cycles: 0,
            ly_compare: 0,
            bg_palette: 0xFC,
            obj_palette_0: 0xFF,
            obj_palette_1: 0xFF,
            window_x: 0,
            window_y: 0,
        }
    }

    /// The registers after writing `value` to `address`; `LY` resets to 0.
    pub open spec fn write_spec(self, address: u16, value: u8) -> LCD {
        if address == 0xFF40 {
            LCD { lcd_control: value, ..self }
        } else if address == 0xFF41 {
            LCD { lcd_status: value, ..self }
        } else if address == 0xFF42 {
            LCD { scroll_y: value, ..self }
        } else if address == 0xFF43 {
            LCD { scroll_x: value, ..self }
        } else if address == 0xFF44 {
            LCD { lcd_y_coordinate: 0, ..self }
        } else if address == 0xFF45 {
            LCD { ly_compare: value, ..self }
        } else if address == 0xFF47 {
            LCD { bg_palette: value, ..self }
        } else if address == 0xFF48 {
            LCD { obj_palette_0: value, ..self }
        } else if address == 0xFF49 {
            LCD { obj_palette_1: value, ..self }
        } else if address == 0xFF4A {
            LCD { window_y: value, ..self }
        } else {
            LCD { window_x: value, ..self }
        }
    }

    /// The value register `address` reads.
    pub open spec fn register(&self, address: u16) -> u8 {
        if address == 0xFF40 {
            self.lcd_control
        } else if address == 0xFF41 {
            self.lcd_status
        } else if address == 0xFF42 {
            self.scroll_y
        } else if address == 0xFF43 {
            self.scroll_x
        } else if address == 0xFF44 {
            self.lcd_y_coordinate
        } else if address == 0xFF45 {
            self.ly_compare
        } else if address == 0xFF47 {
            self.bg_palette
        } else if address == 0xFF48 {
            self.obj_palette_0
        } else if address == 0xFF49 {
            self.obj_palette_1
        } else if address == 0xFF4A {
            self.window_y
        } else {
            self.window_x
        }
    }

    pub fn read_u8(&self, address: u16) -> (r: u8)
        requires
            is_lcd_register(address),
        ensures
            r == self.register(address),
    {
        if address == 0xFF40 {
            self.lcd_control
        } else if address == 0xFF41 {
            self.lcd_status
        } else if address == 0xFF42 {
            self.scroll_y
        } else if address == 0xFF43 {
            self.scroll_x
        } else if address == 0xFF44 {
            self.lcd_y_coordinate
        } else if address == 0xFF45 {
            self.ly_compare
        } else if address == 0xFF47 {
            self.bg_palette
        } else if address == 0xFF48 {
            self.obj_palette_0
        } else if address == 0xFF49 {
            self.obj_palette_1
        } else if address == 0xFF4A {
            self.window_y
        } else {
            self.window_x
        }
    }

    /// Writes register `address`; a write to `LY` resets it to 0.
    pub fn write_u8(&mut self, address: u16, value: u8)
        requires
            is_lcd_register(address),
        ensures
            *final(self) == old(self).write_spec(address, value),
            forall|a: u16|
                is_lcd_register(a) && a != address ==> final(self).register(a) == old(
                    self,
                ).register(a),
            final(self).register(address) == (if address == 0xFF44 {
                0
            } else {
                value
            }),
            final(self).lcd_y_cycles == old(self).lcd_y_cycles,
            old(self).wf() ==> final(self).wf(),
    {
        if address == 0xFF40 {
            self.lcd_control = value;
        } else if address == 0xFF41 {
            self.lcd_status = value;
        } else if address == 0xFF42 {
            self.scroll_y = value;
        } else if address == 0xFF43 {
            self.scroll_x = value;
        } else if address == 0xFF44 {
            self.lcd_y_coordinate = 0;
        } else if address == 0xFF45 {
            self.ly_compare = value;
        } else if address == 0xFF47 {
            self.bg_palette = value;
        } else if address == 0xFF48 {
            self.obj_palette_0 = value;
        } else if address == 0xFF49 {
            self.obj_palette_1 = value;
        } else if address == 0xFF4A {
            self.window_y = value;
        } else {
            self.window_x = value;
        }
    }

    pub fn is_lcd_enabled(&self) -> (r: bool)
        ensures
            r == (self.lcd_control & 0x80 != 0),
    {
        self.lcd_control & 0x80 != 0
    }

    pub fn is_background_enabled(&self) -> (r: bool)
        ensures
            r == (self.lcd_control & 0x01 != 0),
    {
        self.lcd_control & 0x01 != 0
    }

    /// Base of the window tile map: `0x9C00` when LCDC bit 6 is set, else `0x9800`.
    pub fn window_tile_map_area(&self) -> (r: u16)
        ensures
            r == (if self.lcd_control & 0x40 == 0 {
                0x9800u16
            } else {
                0x9C00u16
            }),
    {
        if self.lcd_control & 0x40 == 0 {
            0x9800
        } else {
            0x9C00
        }
    }

    pub fn is_window_enabled(&self) -> (r: bool)
        ensures
            r == (self.lcd_control & 0x20 != 0),
    {
        self.lcd_control & 0x20 != 0
    }

    /// Base of the background tile map: `0x9C00` when LCDC bit 3 is set, else `0x9800`.
    pub fn bg_tile_map_area(&self) -> (r: u16)
        ensures
            r == (if self.lcd_control & 0x08 == 0 {
                0x9800u16
            } else {
                0x9C00u16
            }),
    {
        if self.lcd_control & 0x08 == 0 {
            0x9800
        } else {
            0x9C00
        }
    }

    /// Base of the tile data: `0x8000` (unsigned indices) when LCDC bit 4 is
    /// set, else `0x9000` (signed indices).
    pub fn bg_window_tile_data_area(&self) -> (r: u16)
        ensures
            r == (if self.lcd_control & 0x10 == 0 {
                0x9000u16
            } else {
                0x8000u16
            }),
    {
        if self.lcd_control & 0x10 == 0 {
            0x9000
        } else {
            0x8000
        }
    }

    pub fn object_height(&self) -> (r: u8)
        ensures
            r == (if self.lcd_control & 0x04 == 0 {
                8u8
            } else {
                16u8
            }),
    {
        if self.lcd_control & 0x04 == 0 {
            8
        } else {
            16
        }
    }

    pub fn is_8_height(&self) -> (r: bool)
        ensures
            r == (self.lcd_control & 0x04 == 0),
    {
        self.lcd_control & 0x04 == 0
    }

    pub fn is_object_enabled(&self) -> (r: bool)
        ensures
            r == (self.lcd_control & 0x02 != 0),
    {
        self.lcd_control & 0x02 != 0
    }

    /// `(SCY, SCX)`.
    pub fn get_scroll_data(&self) -> (r: (u8, u8))
        ensures
            r == (self.scroll_y, self.scroll_x),
    {
        (self.scroll_y, self.scroll_x)
    }

    /// `(WY, WX)`.
    pub fn get_window_scroll_data(&self) -> (r: (u8, u8))
        ensures
            r == (self.window_y, self.window_x),
    {
        (self.window_y, self.window_x)
    }

    fn set_mode(&mut self, mode: u8)
        requires
            mode < 4,
        ensures
            final(self).lcd_status == with_mode(old(self).lcd_status, mode),
            final(self).lcd_y_coordinate == old(self).lcd_y_coordinate,
            final(self).lcd_y_cycles == old(self).lcd_y_cycles,
            final(self).same_settings(old(self)),
    {
        self.lcd_status = (self.lcd_status & 0xFC) | mode;
    }

    /// Requests the STAT interrupt when STAT bit `enable` is set.
    fn stat_interrupt(&self, enable: u8, interrupt: &mut Interrupt)
        ensures
            final(interrupt).interrupt_flag == (if self.lcd_status & enable != 0 {
                old(interrupt).interrupt_flag | LCD_BIT
            } else {
                old(interrupt).interrupt_flag
            }),
            final(interrupt).interrupt_enable == old(interrupt).interrupt_enable,
            final(interrupt).interrupt_master_enable == old(interrupt).interrupt_master_enable,
    {
        if self.lcd_status & enable != 0 {
            interrupt.set_lcd_interrupt();
        }
    }

    /// Sets or clears the coincidence bit by `LY == LYC`, requesting the STAT
    /// interrupt on a match when STAT bit 6 is set.
    fn handle_ly_eq_ly_compare(&mut self, interrupt: &mut Interrupt)
        ensures
            final(self).lcd_status == (if old(self).lcd_y_coordinate == old(self).ly_compare {
                old(self).lcd_status | 0x04
            } else {
                old(self).lcd_status & 0xFB
            }),
            final(interrupt).interrupt_flag == (if old(self).lcd_y_coordinate == old(
                self,
            ).ly_compare && old(self).lcd_status & 0x40 != 0 {
                old(interrupt).interrupt_flag | LCD_BIT
            } else {
                old(interrupt).interrupt_flag
            }),
            final(interrupt).interrupt_enable == old(interrupt).interrupt_enable,
            final(interrupt).interrupt_master_enable == old(interrupt).interrupt_master_enable,
            final(self).lcd_y_coordinate == old(self).lcd_y_coordinate,
            final(self).lcd_y_cycles == old(self).lcd_y_cycles,
            final(self).same_settings(old(self)),
    {
        if self.lcd_y_coordinate == self.ly_compare {
            let s = self.lcd_status;
            assert((s | 0x04) & 0x40 == s & 0x40) by (bit_vector);
            self.lcd_status = self.lcd_status | 0x04;
            self.stat_interrupt(0x40, interrupt);
        } else {
            self.lcd_status = self.lcd_status & 0xFB;
        }
    }

    /// Advances the dot counter by `cycles` machine cycles (4 dots each),
    /// updating the mode bits, `LY`, the coincidence bit and the interrupt
    /// requests, and reports what was entered.
    ///
    /// Crossing dot 80 of a visible line enters mode 3; crossing dot 252
    /// enters mode 0 (STAT interrupt iff STAT bit 3). Completing a line
    /// increments `LY` and compares it with `LYC`; reaching 144 enters mode 1
    /// and requests the vblank interrupt (and STAT iff bit 4); passing 153
    /// wraps to line 0. Entering a visible line enters mode 2 (STAT iff bit 5).
    pub fn update_ly(&mut self, cycles: u8, interrupt: &mut Interrupt) -> (r: ScanLineEvent)
        requires
            old(self).wf(),
            4 * cycles <= DOTS_PER_LINE,
        ensures
            final(self).wf(),
            r == old(self).event_after(cycles),
            (final(self).lcd_status, final(interrupt).interrupt_flag) == old(self).stat_if_after(
                cycles,
                old(interrupt).interrupt_flag,
            ),
            final(self).lcd_y_coordinate == old(self).next_ly(cycles),
            final(self).lcd_y_cycles == old(self).dots_after(cycles) % (DOTS_PER_LINE as int),
            final(self).lcd_control == old(self).lcd_control,
            final(self).ly_compare == old(self).ly_compare,
            final(self).scroll_x == old(self).scroll_x && final(self).scroll_y == old(self).scroll_y,
            final(self).window_x == old(self).window_x && final(self).window_y == old(self).window_y,
            final(self).bg_palette == old(self).bg_palette,
            final(self).obj_palette_0 == old(self).obj_palette_0,
            final(self).obj_palette_1 == old(self).obj_palette_1,
            r == ScanLineEvent::VBlankEntered ==> final(interrupt).interrupt_flag & VBLANK_BIT != 0,
            r == ScanLineEvent::VBlankEntered ==> final(self).lcd_status & 0x03 == 0x01,
            r == ScanLineEvent::OAMScanEntered ==> final(self).lcd_status & 0x03 == 0x02,
            r == ScanLineEvent::HBlankEntered ==> final(self).lcd_status & 0x03 == 0x00,
            r == ScanLineEvent::PixelTransferEntered ==> final(self).lcd_status & 0x03 == 0x03,
            r == ScanLineEvent::Idle ==> final(self).lcd_status & 0x03 == old(self).lcd_status & 0x03,
            final(interrupt).interrupt_enable == old(interrupt).interrupt_enable,
            final(interrupt).interrupt_master_enable == old(interrupt).interrupt_master_enable,
    {
        let mut scanline_event = ScanLineEvent::Idle;
        let previous_cycles = self.lcd_y_cycles;
        self.lcd_y_cycles = self.lcd_y_cycles + (cycles as u16) * 4;

        if self.lcd_y_coordinate < 144 {
            if previous_cycles < 252 && self.lcd_y_cycles >= 252 {
                self.set_mode(0);
                self.stat_interrupt(0x08, interrupt);
                scanline_event = ScanLineEvent::HBlankEntered;
            } else if previous_cycles < 80 && self.lcd_y_cycles >= 80 {
                self.set_mode(3);
                scanline_event = ScanLineEvent::PixelTransferEntered;
            }
        }
        let ghost mode_stat = self.lcd_status;
        let ghost mode_if = interrupt.interrupt_flag;
        proof {
            let s = old(self).lcd_status;
            assert(with_mode(s, 0) & 0x03 == 0 && with_mode(s, 3) & 0x03 == 3) by (bit_vector);
            assert((mode_stat, mode_if) == old(self).mode_phase(cycles, old(interrupt).interrupt_flag));
        }

        if self.lcd_y_cycles >= DOTS_PER_LINE {
            self.lcd_y_coordinate = self.lcd_y_coordinate + 1;
            self.lcd_y_cycles = self.lcd_y_cycles - DOTS_PER_LINE;
            let ghost s1 = self.lcd_status;
            self.handle_ly_eq_ly_compare(interrupt);
            let ghost s2 = self.lcd_status;
            let ghost f2 = interrupt.interrupt_flag;
            proof {
                let ly1 = old(self).lcd_y_coordinate + 1;
                assert(s2 == (if ly1 == old(self).ly_compare { s1 | 0x04 } else { s1 & 0xFB }));
                assert(f2 == (if ly1 == old(self).ly_compare && s1 & 0x40 != 0 { mode_if | LCD_BIT } else { mode_if }));
            }

            if self.lcd_y_coordinate == 144 {
                let s = self.lcd_status;
                let ghost f = interrupt.interrupt_flag;
                self.lcd_status = (self.lcd_status & 0xFC) | 0x01;
                interrupt.set_vblank_interrupt();
                self.stat_interrupt(0x10, interrupt);
                scanline_event = ScanLineEvent::VBlankEntered;
                proof {
                    let f1 = f | VBLANK_BIT;
                    assert(((s & 0xFC) | 0x01) & 0x03 == 0x01) by (bit_vector);
                    assert(f1 == f | 0x01);
                    assert(((f | 0x01) | 0x02) & 0x01 != 0 && (f | 0x01) & 0x01 != 0) by (bit_vector);
                }
            } else if self.lcd_y_coordinate > 153 {
                self.lcd_y_coordinate = 0;
                interrupt.disable_vblank_interrupt();
                self.set_mode(2);
                self.stat_interrupt(0x20, interrupt);
                scanline_event = ScanLineEvent::OAMScanEntered;
                proof {
                    let s = s1;
                    assert(with_mode(s | 0x04, 2) & 0x03 == 2 && with_mode(s & 0xFB, 2) & 0x03 == 2)
                        by (bit_vector);
                }
            } else if self.lcd_y_coordinate < 144 {
                self.set_mode(2);
                self.stat_interrupt(0x20, interrupt);
                scanline_event = ScanLineEvent::OAMScanEntered;
                proof {
                    let s = s1;
                    assert(with_mode(s | 0x04, 2) & 0x03 == 2 && with_mode(s & 0xFB, 2) & 0x03 == 2)
                        by (bit_vector);
                }
            } else {
                proof {
                    let s = s1;
                    assert((s | 0x04) & 0x03 == s & 0x03 && (s & 0xFB) & 0x03 == s & 0x03)
                        by (bit_vector);
                }
            }
        }
        scanline_event
    }

    pub fn get_palette_data(&self) -> (r: PaletteData)
        ensures
            r.of(self.bg_palette),
            r.color_0 < 4 && r.color_1 < 4 && r.color_2 < 4 && r.color_3 < 4,
    {
        PaletteData::from_u8(self.bg_palette)
    }

    pub fn get_object_palette_0_data(&self) -> (r: PaletteData)
        ensures
            r.of(self.obj_palette_0),
            r.color_0 < 4 && r.color_1 < 4 && r.color_2 < 4 && r.color_3 < 4,
    {
        PaletteData::from_u8(self.obj_palette_0)
    }

    pub fn get_object_palette_1_data(&self) -> (r: PaletteData)
        ensures
            r.of(self.obj_palette_1),
            r.color_0 < 4 && r.color_1 < 4 && r.color_2 < 4 && r.color_3 < 4,
    {
        PaletteData::from_u8(self.obj_palette_1)
    }
}

} // verus!
