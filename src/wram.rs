use vstd::prelude::*;

verus! {

/// Bytes of work RAM on the DMG: bank 0 and bank 1, 4 KiB each.
pub const WRAM_SIZE: usize = 0x2000;

/// Offset into work RAM of an address in `0xC000..=0xFDFF`; the echo area
/// `0xE000..=0xFDFF` mirrors `0xC000..=0xDDFF`.
pub open spec fn wram_index(address: u16) -> int {
    if address < 0xE000 {
        address - 0xC000
    } else {
        address - 0xE000
    }
}

/// Work RAM at `0xC000..=0xDFFF`, mirrored at `0xE000..=0xFDFF`.
pub struct WRam {
    pub data: Vec<u8>,
}

impl WRam {
    pub open spec fn wf(&self) -> bool {
        self.data@.len() == WRAM_SIZE
    }

    pub fn default() -> (r: WRam)
        ensures
            r.wf(),
            r.data@ == Seq::new(WRAM_SIZE as nat, |i: int| 0u8),
    {
        let r = WRam { data: vec![0u8; WRAM_SIZE] };
        assert(r.data@ =~= Seq::new(WRAM_SIZE as nat, |i: int| 0u8));
        r
    }

    fn index(address: u16) -> (r: usize)
        requires
            0xC000 <= address <= 0xFDFF,
        ensures
            r == wram_index(address),
            r < WRAM_SIZE,
    {
        if address < 0xE000 {
            (address - 0xC000) as usize
        } else {
            (address - 0xE000) as usize
        }
    }

    pub fn write_u8(&mut self, address: u16, value: u8)
        requires
            old(self).wf(),
            0xC000 <= address <= 0xFDFF,
        ensures
            final(self).wf(),
            final(self).data@ == old(self).data@.update(wram_index(address), value),
    {
        self.data.set(Self::index(address), value);
    }

    pub fn read_u8(&self, address: u16) -> (r: u8)
        requires
            self.wf(),
            0xC000 <= address <= 0xFDFF,
        ensures
            r == self.data@[wram_index(address)],
    {
        self.data[Self::index(address)]
    }

    /// Little-endian 16-bit read of `address` and `address + 1`.
    pub fn read_u16(&self, address: u16) -> (r: u16)
        requires
            self.wf(),
            0xC000 <= address < 0xFDFF,
        ensures
            r == self.data@[wram_index(address)] + 256 * self.data@[wram_index(
                (address + 1) as u16,
            )],
    {
        let low_byte = self.read_u8(address) as u16;
        let high_byte = self.read_u8(address + 1) as u16;
        high_byte * 256 + low_byte
    }
}

} // verus!
