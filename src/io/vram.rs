use vstd::prelude::*;

verus! {

/// Bytes of video RAM on the DMG: one bank at `0x8000..=0x9FFF`.
pub const VRAM_SIZE: usize = 0x2000;

/// Color index (0 to 3) of column `x` in a tile row given by its two bytes:
/// bit `7 - x` of `low` is bit 0, bit `7 - x` of `high` bit 1.
pub open spec fn row_pixel(low: u8, high: u8, x: int) -> u8 {
    let p = pow2_of(7 - x);
    (((high as int / p) % 2) * 2 + (low as int / p) % 2) as u8
}

pub open spec fn pow2_of(n: int) -> int
    decreases n,
{
    if n <= 0 {
        1
    } else {
        2 * pow2_of(n - 1)
    }
}

/// Address (relative to `0x8000`) of tile `tile_index` in the tile data block
/// based at `offset`: indices 128-255 always lie at `0x8800..=0x8FFF`, so
/// with `offset == 0x9000` the index is read as signed.
pub open spec fn tile_address(offset: u16, tile_index: u8) -> int {
    if tile_index < 128 {
        offset - 0x8000 + tile_index * 16
    } else {
        tile_index * 16
    }
}

fn bit_of(v: u8, x: u8) -> (r: u8)
    requires
        x < 8,
    ensures
        r == (v as int / pow2_of(7 - x)) % 2,
{
    let s = 7 - x;
    let r = (v >> s) & 1;
    proof {
        reveal_with_fuel(pow2_of, 8);
        assert(s < 8);
        assert((s == 0 ==> (v >> s) & 1 == (v / 1) % 2) && (s == 1 ==> (v >> s) & 1 == (v / 2) % 2)
            && (s == 2 ==> (v >> s) & 1 == (v / 4) % 2) && (s == 3 ==> (v >> s) & 1 == (v / 8) % 2)
            && (s == 4 ==> (v >> s) & 1 == (v / 16) % 2) && (s == 5 ==> (v >> s) & 1 == (v / 32) % 2)
            && (s == 6 ==> (v >> s) & 1 == (v / 64) % 2) && (s == 7 ==> (v >> s) & 1 == (v / 128) % 2))
            by (bit_vector);
    }
    r
}

/// Color index `i` (row `i / 8`, column `i % 8`) of a decoded 16-byte tile.
pub open spec fn tile_index_pixel(tile: Seq<u8>, i: int) -> u8 {
    row_pixel(tile[2 * (i / 8)], tile[2 * (i / 8) + 1], i % 8)
}

/// Video RAM. `VBK` (`0xFF4F`) reads 0 on the DMG and ignores writes.
pub struct VRam {
    pub data: Vec<u8>,
}

/// Whether `address` belongs to this block.
pub open spec fn is_vram_address(address: u16) -> bool {
    (0x8000 <= address <= 0x9FFF) || address == 0xFF4F
}

impl VRam {
    pub open spec fn wf(&self) -> bool {
        self.data@.len() == VRAM_SIZE
    }

    /// The value `address` reads.
    pub open spec fn read_spec(&self, address: u16) -> u8 {
        if address == 0xFF4F {
            0
        } else {
            self.data@[address - 0x8000]
        }
    }

    /// Color index of pixel (`x`, `y`) of the tile whose data starts at `base`
    /// (relative to `0x8000`).
    pub open spec fn pixel(&self, base: int, x: int, y: int) -> u8 {
        row_pixel(self.data@[base + 2 * y], self.data@[base + 2 * y + 1], x)
    }

    pub fn default() -> (r: VRam)
        ensures
            r.wf(),
            r.data@ == Seq::new(VRAM_SIZE as nat, |i: int| 0u8),
    {
        let r = VRam { data: vec![0u8; VRAM_SIZE] };
        assert(r.data@ =~= Seq::new(VRAM_SIZE as nat, |i: int| 0u8));
        r
    }

    pub fn read_u8(&self, address: u16) -> (r: u8)
        requires
            self.wf(),
            is_vram_address(address),
        ensures
            r == self.read_spec(address),
    {
        if address == 0xFF4F {
            0
        } else {
            self.data[(address - 0x8000) as usize]
        }
    }

    pub fn write_u8(&mut self, address: u16, value: u8)
        requires
            old(self).wf(),
            is_vram_address(address),
        ensures
            final(self).wf(),
            final(self).data@ == (if address == 0xFF4F {
                old(self).data@
            } else {
                old(self).data@.update(address - 0x8000, value)
            }),
    {
        if address != 0xFF4F {
            self.data.set((address - 0x8000) as usize, value);
        }
    }

    /// The 32×32 tile map at `address` (`0x9800` or `0x9C00`), row by row.
    pub fn get_tile_map(&self, address: u16) -> (r: Vec<u8>)
        requires
            self.wf(),
            0x8000 <= address,
            address + 0x400 <= 0xA000,
        ensures
            r@ == self.data@.subrange(address - 0x8000, address - 0x8000 + 0x400),
    {
        let start = (address - 0x8000) as usize;
        let mut tile_map: Vec<u8> = Vec::new();
        let mut i: usize = 0;
        while i < 0x400
            invariant
                self.wf(),
                start + 0x400 <= VRAM_SIZE,
                i <= 0x400,
                tile_map@ == self.data@.subrange(start as int, start + i),
            decreases 0x400 - i,
        {
            tile_map.push(self.data[start + i]);
            i = i + 1;
            assert(tile_map@ =~= self.data@.subrange(start as int, start + i));
        }
        tile_map
    }

    /// Start (relative to `0x8000`) of tile `tile_index` in the data block at
    /// `offset` (`0x8000` or `0x9000`).
    pub fn tile_base(offset: u16, tile_index: u8) -> (r: usize)
        requires
            offset == 0x8000 || offset == 0x9000,
        ensures
            r == tile_address(offset, tile_index),
            r + 16 <= VRAM_SIZE,
    {
        if tile_index < 128 {
            (offset - 0x8000) as usize + (tile_index as usize) * 16
        } else {
            (tile_index as usize) * 16
        }
    }

    /// The 16 data bytes of tile `tile_index` in the block at `offset`.
    pub fn get_tile(&self, offset: u16, tile_index: u8) -> (r: Vec<u8>)
        requires
            self.wf(),
            offset == 0x8000 || offset == 0x9000,
        ensures
            r@ == self.data@.subrange(tile_address(offset, tile_index), tile_address(offset, tile_index) + 16),
    {
        let base = Self::tile_base(offset, tile_index);
        let mut tile: Vec<u8> = Vec::new();
        let mut i: usize = 0;
        while i < 16
            invariant
                self.wf(),
                base + 16 <= VRAM_SIZE,
                i <= 16,
                tile@ == self.data@.subrange(base as int, base + i),
            decreases 16 - i,
        {
            tile.push(self.data[base + i]);
            i = i + 1;
            assert(tile@ =~= self.data@.subrange(base as int, base + i));
        }
        tile
    }

    /// Decodes 16 tile bytes into 64 color indices, row by row.
    pub fn process_tile(&self, tile: &Vec<u8>) -> (r: Vec<u8>)
        requires
            tile@.len() == 16,
        ensures
            r@.len() == 64,
            forall|i: int| 0 <= i < 64 ==> r@[i] == tile_index_pixel(tile@, i),
    {
        let mut out: Vec<u8> = Vec::new();
        let mut row: usize = 0;
        while row < 8
            invariant
                tile@.len() == 16,
                row <= 8,
                out@.len() == 8 * row,
                forall|i: int| 0 <= i < 8 * row ==> out@[i] == tile_index_pixel(tile@, i),
            decreases 8 - row,
        {
            let low = tile[row * 2];
            let high = tile[row * 2 + 1];
            let mut col: u8 = 0;
            while col < 8
                invariant
                    tile@.len() == 16,
                    row < 8,
                    col <= 8,
                    low == tile@[2 * row as int],
                    high == tile@[2 * row + 1],
                    out@.len() == 8 * row + col,
                    forall|i: int| 0 <= i < 8 * row + col ==> out@[i] == tile_index_pixel(tile@, i),
                decreases 8 - col,
            {
                out.push(Self::decode_pixel(low, high, col));
                proof {
                    let i = 8 * row + col;
                    assert(i / 8 == row as int && i % 8 == col as int);
                }
                col = col + 1;
            }
            row = row + 1;
        }
        out
    }

    /// Color index of column `x` of a tile row.
    pub fn decode_pixel(low: u8, high: u8, x: u8) -> (r: u8)
        requires
            x < 8,
        ensures
            r == row_pixel(low, high, x as int),
            r < 4,
    {
        let lo = bit_of(low, x);
        let hi = bit_of(high, x);
        hi * 2 + lo
    }

    /// Color index of pixel (`x`, `y`) of the tile whose data starts at `base`.
    pub fn tile_pixel(&self, base: usize, x: u8, y: u8) -> (r: u8)
        requires
            self.wf(),
            base + 16 <= VRAM_SIZE,
            x < 8,
            y < 8,
        ensures
            r == self.pixel(base as int, x as int, y as int),
            r < 4,
    {
        let low = self.data[base + 2 * (y as usize)];
        let high = self.data[base + 2 * (y as usize) + 1];
        Self::decode_pixel(low, high, x)
    }
}

} // verus!
