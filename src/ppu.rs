use vstd::prelude::*;
use crate::io::io::IO;
use crate::io::lcd::{LCD, PaletteData, shade};
use crate::io::oam::{ObjectAttribute, ObjectAttributeMemory};
use crate::io::vram::{VRam, tile_address};

verus! {

/// Pixels per scanline.
pub const SCREEN_WIDTH: usize = 160;

/// Visible scanlines.
pub const SCREEN_HEIGHT: usize = 144;

/// Bytes of the frame buffer: one palette index per pixel, row by row.
pub const FRAME_SIZE: usize = 23040;

/// Slots of the scanline object buffer.
pub const OBJECT_BUFFER_SIZE: usize = 10;

/// The object buffer's marker for an empty slot.
pub const EMPTY_SLOT: u8 = 0xFF;

/// The OAM indices below `n` whose objects cross line `ly`, in index order.
pub open spec fn matching_objects(oam: ObjectAttributeMemory, ly: u8, height: u8, n: nat) -> Seq<u8>
    decreases n,
{
    if n == 0 {
        Seq::empty()
    } else {
        let prev = matching_objects(oam, ly, height, (n - 1) as nat);
        if oam.entry(n - 1).in_scanline(ly, height) {
            prev.push((n - 1) as u8)
        } else {
            prev
        }
    }
}

/// The height of objects that LCDC selects.
pub open spec fn object_height_of(lcd: LCD) -> u8 {
    if lcd.lcd_control & 0x04 == 0 {
        8
    } else {
        16
    }
}

/// The object buffer of the current line: the first ten objects crossing it,
/// by OAM index, then empty slots; all empty while objects are disabled.
pub open spec fn scanline_objects(lcd: LCD, oam: ObjectAttributeMemory) -> Seq<u8> {
    let m = matching_objects(oam, lcd.lcd_y_coordinate, object_height_of(lcd), 40);
    Seq::new(
        OBJECT_BUFFER_SIZE as nat,
        |i: int|
            if lcd.lcd_control & 0x02 != 0 && i < m.len() {
                m[i]
            } else {
                EMPTY_SLOT
            },
    )
}

/// Color index at (`sx`, `sy`) of the 256×256 plane drawn by the tile map at
/// `map_base` with tile data at `data_base`.
pub open spec fn map_pixel(vram: VRam, map_base: u16, data_base: u16, sx: int, sy: int) -> u8 {
    let tile = vram.data@[map_base - 0x8000 + (sy / 8) * 32 + sx / 8];
    vram.pixel(tile_address(data_base, tile), sx % 8, sy % 8)
}

pub open spec fn bg_map_of(lcd: LCD) -> u16 {
    if lcd.lcd_control & 0x08 == 0 {
        0x9800
    } else {
        0x9C00
    }
}

pub open spec fn window_map_of(lcd: LCD) -> u16 {
    if lcd.lcd_control & 0x40 == 0 {
        0x9800
    } else {
        0x9C00
    }
}

pub open spec fn tile_data_of(lcd: LCD) -> u16 {
    if lcd.lcd_control & 0x10 == 0 {
        0x9000
    } else {
        0x8000
    }
}

/// Background shade of column `x` of the current line; 0 while the background is off.
pub open spec fn bg_shade(lcd: LCD, vram: VRam, x: int) -> u8 {
    if lcd.lcd_control & 0x01 == 0 {
        0
    } else {
        let sx = (x + lcd.scroll_x) % 256;
        let sy = (lcd.lcd_y_coordinate + lcd.scroll_y) % 256;
        shade(lcd.bg_palette, map_pixel(vram, bg_map_of(lcd), tile_data_of(lcd), sx, sy) as int)
    }
}

/// Whether the window shows on the current line.
pub open spec fn window_visible(lcd: LCD) -> bool {
    &&& lcd.lcd_control & 0x20 != 0
    &&& lcd.lcd_control & 0x01 != 0
    &&& lcd.lcd_y_coordinate >= lcd.window_y
    &&& lcd.window_y < 144
}

/// Whether the window covers column `x` of the current line.
pub open spec fn window_covers(lcd: LCD, x: int) -> bool {
    window_visible(lcd) && x + 7 >= lcd.window_x && lcd.window_x <= 166
}

/// Window shade of column `x` on window line `line`.
pub open spec fn window_shade(lcd: LCD, vram: VRam, x: int, line: u8) -> u8 {
    let wx = x + 7 - lcd.window_x;
    shade(
        lcd.bg_palette,
        map_pixel(vram, window_map_of(lcd), tile_data_of(lcd), wx, line as int) as int,
    )
}

/// Background and window shades of the current line.
pub open spec fn background_row(lcd: LCD, vram: VRam, line: u8) -> Seq<u8> {
    Seq::new(
        SCREEN_WIDTH as nat,
        |x: int|
            if window_covers(lcd, x) {
                window_shade(lcd, vram, x, line)
            } else {
                bg_shade(lcd, vram, x)
            },
    )
}

/// Whether object `o` has a column at screen column `x`.
pub open spec fn object_covers(o: ObjectAttribute, x: int) -> bool {
    o.x != 0 && o.x < 168 && o.x - 8 <= x < o.x
}

/// Shade of object `o` at screen column `x` of the current line, with 4
/// standing for a transparent pixel.
pub open spec fn object_pixel(lcd: LCD, vram: VRam, o: ObjectAttribute, x: int) -> u8 {
    let h: int = object_height_of(lcd) as int;
    let i = x - (o.x - 8);
    let xoff = if o.flags & 0x20 != 0 {
        7 - i
    } else {
        i
    };
    let ypix = (lcd.lcd_y_coordinate + 16 - o.y) % h;
    let yoff = if o.flags & 0x40 != 0 {
        h - 1 - ypix
    } else {
        ypix
    };
    let tile: u8 = if h == 8 {
        o.tile_number
    } else if yoff < 8 {
        o.tile_number & 0xFE
    } else {
        o.tile_number | 0x01
    };
    let color = vram.pixel(tile_address(0x8000, tile), xoff, yoff % 8);
    let palette = if o.flags & 0x10 == 0 {
        lcd.obj_palette_0
    } else {
        lcd.obj_palette_1
    };
    if color == 0 {
        4
    } else {
        shade(palette, color as int)
    }
}

/// `row` with object `o` drawn over it: a pixel is drawn unless it is
/// transparent, or the object yields to the background (flags bit 7) and the
/// row already holds a nonzero shade there.
pub open spec fn paint_object(row: Seq<u8>, lcd: LCD, vram: VRam, o: ObjectAttribute) -> Seq<u8> {
    Seq::new(
        row.len(),
        |x: int|
            {
                let p = object_pixel(lcd, vram, o, x);
                if object_covers(o, x) && p != 4 && (o.flags & 0x80 == 0 || row[x] == 0) {
                    p
                } else {
                    row[x]
                }
            },
    )
}

/// `row` with `objs` drawn from the last to the first, so that the first wins.
pub open spec fn paint_objects(row: Seq<u8>, lcd: LCD, vram: VRam, objs: Seq<ObjectAttribute>) -> Seq<u8>
    decreases objs.len(),
{
    if objs.len() == 0 {
        row
    } else {
        paint_object(paint_objects(row, lcd, vram, objs.drop_first()), lcd, vram, objs[0])
    }
}

/// Where `o` goes in `s`: after the last element whose `x` is not greater.
pub open spec fn back_pos(s: Seq<ObjectAttribute>, o: ObjectAttribute, j: int) -> int
    decreases j,
{
    if j > 0 && s[j - 1].x > o.x {
        back_pos(s, o, j - 1)
    } else {
        j
    }
}

/// `s` sorted by `x`, objects with equal `x` keeping their order.
pub open spec fn sort_by_x(s: Seq<ObjectAttribute>) -> Seq<ObjectAttribute>
    decreases s.len(),
{
    if s.len() == 0 {
        s
    } else {
        let sorted = sort_by_x(s.drop_last());
        sorted.insert(back_pos(sorted, s.last(), sorted.len() as int), s.last())
    }
}

/// The OAM entries that the object buffer names, in buffer order.
pub open spec fn buffered_objects(oam: ObjectAttributeMemory, buffer: Seq<u8>) -> Seq<ObjectAttribute>
    decreases buffer.len(),
{
    if buffer.len() == 0 {
        Seq::empty()
    } else {
        let prev = buffered_objects(oam, buffer.drop_last());
        if buffer.last() != EMPTY_SLOT {
            prev.push(oam.entry(buffer.last() as int))
        } else {
            prev
        }
    }
}

/// The shades of the current line.
pub open spec fn rendered_row(
    lcd: LCD,
    vram: VRam,
    oam: ObjectAttributeMemory,
    buffer: Seq<u8>,
    line: u8,
) -> Seq<u8> {
    if lcd.lcd_control & 0x80 == 0 {
        Seq::new(SCREEN_WIDTH as nat, |x: int| 0u8)
    } else if lcd.lcd_control & 0x02 != 0 {
        paint_objects(background_row(lcd, vram, line), lcd, vram, sort_by_x(buffered_objects(oam, buffer)))
    } else {
        background_row(lcd, vram, line)
    }
}

/// The LCD state a scanline is drawn with.
pub struct BGState {
    pub bg_window_tile_data_area: u16,
    pub bg_palette: PaletteData,
    pub bg_tile_map_area: u16,
    pub window_tile_map_area: u16,
}

/// The object settings a scanline is drawn with.
pub struct OAMState {
    pub object_palette_0: PaletteData,
    pub object_palette_1: PaletteData,
    pub is_8_height: bool,
}

/// The scanline renderer: the object buffer of the current line, the frame
/// buffer, and the window's own line counter.
pub struct PPU {
    pub scanline_object_id_buffer: Vec<u8>,
    pub frame_buffer: Vec<u8>,
    pub window_internal_line_counter: u8,
    pub current_scanline: u8,
}

impl PPU {
    pub open spec fn wf(&self) -> bool {
        &&& self.scanline_object_id_buffer@.len() == OBJECT_BUFFER_SIZE
        &&& self.frame_buffer@.len() == FRAME_SIZE
        &&& forall|i: int|
            0 <= i < OBJECT_BUFFER_SIZE ==> (#[trigger] self.scanline_object_id_buffer@[i] < 40
                || self.scanline_object_id_buffer@[i] == EMPTY_SLOT)
    }

    /// Row `ly` of the frame buffer.
    pub open spec fn row(&self, ly: int) -> Seq<u8> {
        self.frame_buffer@.subrange(ly * 160, ly * 160 + 160)
    }

    pub fn new() -> (r: PPU)
        ensures
            r.wf(),
            r.scanline_object_id_buffer@ == Seq::new(OBJECT_BUFFER_SIZE as nat, |i: int| EMPTY_SLOT),
            r.frame_buffer@ == Seq::new(FRAME_SIZE as nat, |i: int| 0u8),
            r.window_internal_line_counter == 0,
    {
        let r = PPU {
            scanline_object_id_buffer: vec![EMPTY_SLOT; OBJECT_BUFFER_SIZE],
            frame_buffer: vec![0u8; FRAME_SIZE],
            window_internal_line_counter: 0,
            current_scanline: 0,
        };
        assert(r.scanline_object_id_buffer@ =~= Seq::new(OBJECT_BUFFER_SIZE as nat, |i: int| EMPTY_SLOT));
        assert(r.frame_buffer@ =~= Seq::new(FRAME_SIZE as nat, |i: int| 0u8));
        r
    }

    /// Palette index of pixel (`x`, `y`) of the frame.
    pub fn pixel(&self, x: usize, y: usize) -> (r: u8)
        requires
            self.wf(),
            x < SCREEN_WIDTH,
            y < SCREEN_HEIGHT,
        ensures
            r == self.frame_buffer@[y * 160 + x],
    {
        self.frame_buffer[y * SCREEN_WIDTH + x]
    }

    /// Refills the object buffer for line `LY`: the first ten OAM entries, by
    /// index, that cross the line, then empty slots. With objects disabled
    /// every slot is empty.
    pub fn update_scanline_object_id_buffer(&mut self, io: &IO)
        requires
            old(self).wf(),
            io.wf(),
        ensures
            final(self).wf(),
            final(self).scanline_object_id_buffer@ == scanline_objects(io.lcd, io.oam),
            final(self).frame_buffer == old(self).frame_buffer,
            final(self).window_internal_line_counter == old(self).window_internal_line_counter,
    {
        let mut i: usize = 0;
        while i < OBJECT_BUFFER_SIZE
            invariant
                old(self).wf(),
                self.frame_buffer == old(self).frame_buffer,
                self.window_internal_line_counter == old(self).window_internal_line_counter,
                self.scanline_object_id_buffer@.len() == OBJECT_BUFFER_SIZE,
                i <= OBJECT_BUFFER_SIZE,
                forall|k: int| 0 <= k < i ==> self.scanline_object_id_buffer@[k] == EMPTY_SLOT,
            decreases OBJECT_BUFFER_SIZE - i,
        {
            self.scanline_object_id_buffer.set(i, EMPTY_SLOT);
            i = i + 1;
        }
        if !io.lcd.is_object_enabled() {
            assert(self.scanline_object_id_buffer@ =~= scanline_objects(io.lcd, io.oam));
            return;
        }
        let ly = io.lcd.lcd_y_coordinate;
        self.current_scanline = ly;
        let object_height = io.lcd.object_height();
        let ghost h = object_height_of(io.lcd);
        let mut buffer_index: usize = 0;
        let mut object_index: u8 = 0;
        while object_index < 40
            invariant
                io.wf(),
                old(self).wf(),
                self.frame_buffer == old(self).frame_buffer,
                self.window_internal_line_counter == old(self).window_internal_line_counter,
                self.scanline_object_id_buffer@.len() == OBJECT_BUFFER_SIZE,
                object_height == h,
                ly == io.lcd.lcd_y_coordinate,
                object_index <= 40,
                ({
                    let m = matching_objects(io.oam, ly, h, object_index as nat);
                    &&& buffer_index == (if m.len() < 10 {
                        m.len() as int
                    } else {
                        10
                    })
                    &&& forall|k: int| 0 <= k < buffer_index ==> self.scanline_object_id_buffer@[k] == m[k]
                    &&& forall|k: int| buffer_index <= k < 10 ==> self.scanline_object_id_buffer@[k] == EMPTY_SLOT
                    &&& forall|k: int| 0 <= k < m.len() ==> m[k] < object_index
                }),
            decreases 40 - object_index,
        {
            let object_attribute = io.oam.get_object_attribute(object_index);
            let ghost m = matching_objects(io.oam, ly, h, object_index as nat);
            if object_attribute.is_in_scanline(ly, object_height) {
                if buffer_index < OBJECT_BUFFER_SIZE {
                    self.scanline_object_id_buffer.set(buffer_index, object_index);
                    buffer_index = buffer_index + 1;
                }
            }
            object_index = object_index + 1;
            proof {
                let m2 = matching_objects(io.oam, ly, h, object_index as nat);
                assert(object_index - 1 == (object_index - 1) as nat);
            }
        }
        proof {
            let m = matching_objects(io.oam, ly, h, 40);
            assert(self.scanline_object_id_buffer@ =~= scanline_objects(io.lcd, io.oam));
        }
    }

    /// The LCD state this line is drawn with.
    fn bg_state(io: &IO) -> (r: BGState)
        ensures
            r.bg_window_tile_data_area == tile_data_of(io.lcd),
            r.bg_palette.of(io.lcd.bg_palette),
            r.bg_tile_map_area == bg_map_of(io.lcd),
            r.window_tile_map_area == window_map_of(io.lcd),
    {
        BGState {
            bg_window_tile_data_area: io.lcd.bg_window_tile_data_area(),
            bg_palette: io.lcd.get_palette_data(),
            bg_tile_map_area: io.lcd.bg_tile_map_area(),
            window_tile_map_area: io.lcd.window_tile_map_area(),
        }
    }

    /// Color index at (`sx`, `sy`) of the plane drawn by tile map `map_base`.
    fn plane_pixel(io: &IO, map_base: u16, data_base: u16, sx: u8, sy: u8) -> (r: u8)
        requires
            io.wf(),
            map_base == 0x9800 || map_base == 0x9C00,
            data_base == 0x8000 || data_base == 0x9000,
        ensures
            r == map_pixel(io.vram, map_base, data_base, sx as int, sy as int),
            r < 4,
    {
        let map_index = (map_base - 0x8000) as usize + (sy as usize / 8) * 32 + (sx as usize / 8);
        let tile = io.vram.data[map_index];
        let base = VRam::tile_base(data_base, tile);
        io.vram.tile_pixel(base, sx % 8, sy % 8)
    }

    /// Shade of column `x` of line `LY` from the background and the window.
    fn background_pixel(io: &IO, state: &BGState, x: usize, line: u8) -> (r: u8)
        requires
            io.wf(),
            x < SCREEN_WIDTH,
            state.bg_window_tile_data_area == tile_data_of(io.lcd),
            state.bg_palette.of(io.lcd.bg_palette),
            state.bg_tile_map_area == bg_map_of(io.lcd),
            state.window_tile_map_area == window_map_of(io.lcd),
        ensures
            r == background_row(io.lcd, io.vram, line)[x as int],
    {
        let (scroll_y, scroll_x) = io.lcd.get_scroll_data();
        let (window_y, window_x) = io.lcd.get_window_scroll_data();
        let ly = io.lcd.lcd_y_coordinate;
        let bg_on = io.lcd.is_background_enabled();
        let window_on = io.lcd.is_window_enabled() && bg_on && ly >= window_y && window_y < 144;
        if window_on && x + 7 >= window_x as usize && window_x <= 166 {
            let wx = (x + 7 - window_x as usize) as u8;
            let c = Self::plane_pixel(io, state.window_tile_map_area, state.bg_window_tile_data_area, wx, line);
            assert(window_covers(io.lcd, x as int));
            state.bg_palette.get_color(c)
        } else if bg_on {
            let sx = (x as u8).wrapping_add(scroll_x);
            let sy = ly.wrapping_add(scroll_y);
            assert(sx == (x + scroll_x) % 256);
            assert(sy == (ly + scroll_y) % 256);
            let c = Self::plane_pixel(io, state.bg_tile_map_area, state.bg_window_tile_data_area, sx, sy);
            state.bg_palette.get_color(c)
        } else {
            0
        }
    }

    /// Background and window shades of line `LY`, and whether the window was drawn
    /// on a line within its horizontal range.
    fn background_line(&self, io: &IO, state: &BGState) -> (r: (Vec<u8>, bool))
        requires
            io.wf(),
            state.bg_window_tile_data_area == tile_data_of(io.lcd),
            state.bg_palette.of(io.lcd.bg_palette),
            state.bg_tile_map_area == bg_map_of(io.lcd),
            state.window_tile_map_area == window_map_of(io.lcd),
        ensures
            r.0@ == background_row(io.lcd, io.vram, self.window_internal_line_counter),
            r.1 == (window_visible(io.lcd) && io.lcd.window_x < 166),
    {
        let (scroll_y, scroll_x) = io.lcd.get_scroll_data();
        let (window_y, window_x) = io.lcd.get_window_scroll_data();
        let ly = io.lcd.lcd_y_coordinate;
        let bg_on = io.lcd.is_background_enabled();
        let window_on = io.lcd.is_window_enabled() && bg_on && ly >= window_y && window_y < 144;
        let line = self.window_internal_line_counter;
        let mut row: Vec<u8> = Vec::new();
        let mut x: usize = 0;
        while x < SCREEN_WIDTH
            invariant
                io.wf(),
                state.bg_window_tile_data_area == tile_data_of(io.lcd),
                state.bg_palette.of(io.lcd.bg_palette),
                state.bg_tile_map_area == bg_map_of(io.lcd),
                state.window_tile_map_area == window_map_of(io.lcd),
                scroll_x == io.lcd.scroll_x && scroll_y == io.lcd.scroll_y,
                window_x == io.lcd.window_x && window_y == io.lcd.window_y,
                ly == io.lcd.lcd_y_coordinate,
                bg_on == (io.lcd.lcd_control & 0x01 != 0),
                window_on == window_visible(io.lcd),
                line == self.window_internal_line_counter,
                x <= SCREEN_WIDTH,
                row@.len() == x,
                forall|k: int| 0 <= k < x ==> row@[k] == background_row(io.lcd, io.vram, line)[k],
            decreases SCREEN_WIDTH - x,
        {
            let v = Self::background_pixel(io, state, x, line);
            row.push(v);
            x = x + 1;
        }
        assert(row@ =~= background_row(io.lcd, io.vram, line));
        (row, window_on && window_x < 166)
    }

    /// The OAM entries the object buffer names, in buffer order.
    fn get_object_attributes(&self, io: &IO) -> (r: Vec<ObjectAttribute>)
        requires
            self.wf(),
            io.wf(),
        ensures
            r@ == buffered_objects(io.oam, self.scanline_object_id_buffer@),
    {
        let mut objects: Vec<ObjectAttribute> = Vec::new();
        let mut i: usize = 0;
        while i < OBJECT_BUFFER_SIZE
            invariant
                self.wf(),
                io.wf(),
                i <= OBJECT_BUFFER_SIZE,
                objects@ == buffered_objects(io.oam, self.scanline_object_id_buffer@.subrange(0, i as int)),
            decreases OBJECT_BUFFER_SIZE - i,
        {
            let oam_index = self.scanline_object_id_buffer[i];
            proof {
                let b = self.scanline_object_id_buffer@;
                assert(b.subrange(0, i + 1).drop_last() =~= b.subrange(0, i as int));
                assert(b.subrange(0, i + 1).last() == b[i as int]);
            }
            if oam_index != EMPTY_SLOT {
                objects.push(io.oam.get_object_attribute(oam_index));
            }
            i = i + 1;
        }
        assert(self.scanline_object_id_buffer@.subrange(0, 10) =~= self.scanline_object_id_buffer@);
        objects
    }

    /// `objs` sorted by `x`, objects with equal `x` keeping their order.
    fn sort_objects(objs: &Vec<ObjectAttribute>) -> (r: Vec<ObjectAttribute>)
        ensures
            r@ == sort_by_x(objs@),
    {
        let mut sorted: Vec<ObjectAttribute> = Vec::new();
        let mut k: usize = 0;
        while k < objs.len()
            invariant
                k <= objs@.len(),
                sorted@ == sort_by_x(objs@.subrange(0, k as int)),
            decreases objs@.len() - k,
        {
            let o = objs[k];
            let mut j: usize = sorted.len();
            while j > 0 && sorted[j - 1].x > o.x
                invariant
                    j <= sorted@.len(),
                    back_pos(sorted@, o, sorted@.len() as int) == back_pos(sorted@, o, j as int),
                decreases j,
            {
                j = j - 1;
            }
            proof {
                let s = objs@.subrange(0, k + 1);
                assert(s.drop_last() =~= objs@.subrange(0, k as int));
                assert(s.last() == o);
            }
            sorted.insert(j, o);
            k = k + 1;
        }
        assert(objs@.subrange(0, objs@.len() as int) =~= objs@);
        sorted
    }

    /// Object shade at column `x` (4 for transparent); `x` must be covered by `o`.
    #[verifier::rlimit(40)]
    fn object_shade(io: &IO, state: &OAMState, o: &ObjectAttribute, x: usize) -> (r: u8)
        requires
            io.wf(),
            state.object_palette_0.of(io.lcd.obj_palette_0),
            state.object_palette_1.of(io.lcd.obj_palette_1),
            state.is_8_height == (io.lcd.lcd_control & 0x04 == 0),
            object_covers(*o, x as int),
        ensures
            r == object_pixel(io.lcd, io.vram, *o, x as int),
    {
        let h: u16 = if state.is_8_height {
            8
        } else {
            16
        };
        let i = (x + 8 - o.x as usize) as u8;
        let xoff: u8 = if o.is_h_flip() {
            7 - i
        } else {
            i
        };
        let ly = io.lcd.lcd_y_coordinate;
        let ypix = ((ly as u16 + 16 + 256 - o.y as u16) % h) as u8;
        proof {
            let a = ly + 16 - o.y;
            assert((a + 256) % (h as int) == a % (h as int));
        }
        let yoff: u8 = if o.is_v_flip() {
            (h as u8) - 1 - ypix
        } else {
            ypix
        };
        let tile: u8 = if state.is_8_height {
            o.tile_number
        } else if yoff < 8 {
            o.tile_number & 0xFE
        } else {
            o.tile_number | 0x01
        };
        let base = VRam::tile_base(0x8000, tile);
        let color = io.vram.tile_pixel(base, xoff, yoff % 8);
        if o.is_obj_palette_0() {
            state.object_palette_0.get_object_color(color)
        } else {
            state.object_palette_1.get_object_color(color)
        }
    }

    /// Draws object `o` over `row` (see `paint_object`).
    fn render_object(row: &mut Vec<u8>, io: &IO, state: &OAMState, o: &ObjectAttribute)
        requires
            io.wf(),
            old(row)@.len() == SCREEN_WIDTH,
            state.object_palette_0.of(io.lcd.obj_palette_0),
            state.object_palette_1.of(io.lcd.obj_palette_1),
            state.is_8_height == (io.lcd.lcd_control & 0x04 == 0),
        ensures
            final(row)@ == paint_object(old(row)@, io.lcd, io.vram, *o),
    {
        let ghost row0 = row@;
        if o.x == 0 || o.x >= 168 {
            assert(row@ =~= paint_object(row0, io.lcd, io.vram, *o));
            return;
        }
        let mut i: usize = 0;
        while i < 8
            invariant
                io.wf(),
                row0.len() == SCREEN_WIDTH,
                row@.len() == SCREEN_WIDTH,
                state.object_palette_0.of(io.lcd.obj_palette_0),
                state.object_palette_1.of(io.lcd.obj_palette_1),
                state.is_8_height == (io.lcd.lcd_control & 0x04 == 0),
                0 < o.x < 168,
                i <= 8,
                forall|x: int|
                    0 <= x < SCREEN_WIDTH ==> #[trigger] row@[x] == (if o.x - 8 <= x < o.x - 8 + i {
                        paint_object(row0, io.lcd, io.vram, *o)[x]
                    } else {
                        row0[x]
                    }),
            decreases 8 - i,
        {
            let col = o.x as usize + i;
            if col >= 8 && col - 8 < SCREEN_WIDTH {
                let x = col - 8;
                let p = Self::object_shade(io, state, o, x);
                let current = row[x];
                if p != 4 && (!o.is_bg_priority() || current == 0) {
                    row.set(x, p);
                }
            }
            i = i + 1;
        }
        assert(row@ =~= paint_object(row0, io.lcd, io.vram, *o));
    }

    /// Renders line `LY` into the frame buffer: shade 0 throughout while the
    /// LCD is off; else the background (shade 0 while it is off), the window
    /// over it, then the buffered objects sorted by `x`, drawn from the
    /// largest `x` down so that the smallest wins. The window's line counter
    /// advances after a line where the window showed with `WX < 166`.
    pub fn update_current_scanline_in_frame_buffer(&mut self, io: &IO)
        requires
            old(self).wf(),
            io.wf(),
        ensures
            final(self).wf(),
            final(self).scanline_object_id_buffer == old(self).scanline_object_id_buffer,
            io.lcd.lcd_y_coordinate >= 144 ==> final(self).frame_buffer@ == old(self).frame_buffer@,
            io.lcd.lcd_y_coordinate < 144 ==> ({
                let ly = io.lcd.lcd_y_coordinate as int;
                &&& final(self).row(ly) == rendered_row(
                    io.lcd,
                    io.vram,
                    io.oam,
                    old(self).scanline_object_id_buffer@,
                    old(self).window_internal_line_counter,
                )
                &&& forall|i: int|
                    0 <= i < FRAME_SIZE && !(ly * 160 <= i < ly * 160 + 160)
                        ==> final(self).frame_buffer@[i] == old(self).frame_buffer@[i]
            }),
            final(self).window_internal_line_counter == (if io.lcd.lcd_y_coordinate < 144
                && io.lcd.lcd_control & 0x80 != 0 && window_visible(io.lcd) && io.lcd.window_x < 166 {
                ((old(self).window_internal_line_counter + 1) % 256) as u8
            } else {
                old(self).window_internal_line_counter
            }),
    {
        let ly = io.lcd.lcd_y_coordinate;
        if ly >= 144 {
            return;
        }
        self.current_scanline = ly;
        let ghost buffer = self.scanline_object_id_buffer@;
        let ghost line = self.window_internal_line_counter;
        let mut row: Vec<u8>;
        if !io.lcd.is_lcd_enabled() {
            row = vec![0u8; SCREEN_WIDTH];
            assert(row@ =~= rendered_row(io.lcd, io.vram, io.oam, buffer, line));
        } else {
            let state = Self::bg_state(io);
            let (bg_row, window_drawn) = self.background_line(io, &state);
            row = bg_row;
            if io.lcd.is_object_enabled() {
                let objects = self.get_object_attributes(io);
                let sorted = Self::sort_objects(&objects);
                let oam_state = OAMState {
                    object_palette_0: io.lcd.get_object_palette_0_data(),
                    object_palette_1: io.lcd.get_object_palette_1_data(),
                    is_8_height: io.lcd.is_8_height(),
                };
                let ghost base = row@;
                let mut k: usize = sorted.len();
                while k > 0
                    invariant
                        io.wf(),
                        k <= sorted@.len(),
                        row@.len() == SCREEN_WIDTH,
                        oam_state.object_palette_0.of(io.lcd.obj_palette_0),
                        oam_state.object_palette_1.of(io.lcd.obj_palette_1),
                        oam_state.is_8_height == (io.lcd.lcd_control & 0x04 == 0),
                        row@ == paint_objects(base, io.lcd, io.vram, sorted@.subrange(k as int, sorted@.len() as int)),
                    decreases k,
                {
                    proof {
                        let s = sorted@.subrange(k - 1, sorted@.len() as int);
                        assert(s.drop_first() =~= sorted@.subrange(k as int, sorted@.len() as int));
                        assert(s[0] == sorted@[k - 1]);
                    }
                    Self::render_object(&mut row, io, &oam_state, &sorted[k - 1]);
                    k = k - 1;
                }
                assert(sorted@.subrange(0, sorted@.len() as int) =~= sorted@);
            }
            if window_drawn {
                self.window_internal_line_counter = self.window_internal_line_counter.wrapping_add(1);
            }
        }
        let start = (ly as usize) * SCREEN_WIDTH;
        let ghost fb0 = self.frame_buffer@;
        let ghost counter = self.window_internal_line_counter;
        let mut x: usize = 0;
        while x < SCREEN_WIDTH
            invariant
                self.scanline_object_id_buffer == old(self).scanline_object_id_buffer,
                self.window_internal_line_counter == counter,
                start == ly * 160,
                ly < 144,
                row@.len() == SCREEN_WIDTH,
                fb0.len() == FRAME_SIZE,
                self.frame_buffer@.len() == FRAME_SIZE,
                x <= SCREEN_WIDTH,
                forall|i: int|
                    0 <= i < FRAME_SIZE ==> #[trigger] self.frame_buffer@[i] == (if start <= i < start + x {
                        row@[i - start]
                    } else {
                        fb0[i]
                    }),
            decreases SCREEN_WIDTH - x,
        {
            self.frame_buffer.set(start + x, row[x]);
            x = x + 1;
        }
        assert(self.row(ly as int) =~= row@);
    }
}

/// The object buffer never names more than ten objects: it has ten slots, and
/// each holds an OAM index or the empty marker.
pub proof fn lemma_object_buffer_bounded(ppu: PPU)
    requires
        ppu.wf(),
    ensures
        ppu.scanline_object_id_buffer@.filter(|i: u8| i != EMPTY_SLOT).len() <= 10,
{
    ppu.scanline_object_id_buffer@.lemma_filter_len(|i: u8| i != EMPTY_SLOT);
}

} // verus!
