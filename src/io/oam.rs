use vstd::prelude::*;

verus! {

/// Bytes of object attribute memory: 40 entries of 4 bytes.
pub const OAM_SIZE: usize = 0xA0;

/// One OAM entry.
#[derive(Clone, Copy, Debug)]
pub struct ObjectAttribute {
    pub y: u8,
    pub x: u8,
    pub tile_number: u8,
    pub flags: u8,
}

impl ObjectAttribute {
    /// Whether line `scanline` crosses the object: `LY + 16 ∈ [y, y + height)`.
    pub open spec fn in_scanline(&self, scanline: u8, object_height: u8) -> bool {
        self.y <= scanline + 16 < self.y + object_height
    }

    pub fn is_in_scanline(&self, scanline: u8, object_height: u8) -> (r: bool)
        ensures
            r == self.in_scanline(scanline, object_height),
    {
        let line = scanline as u16 + 16;
        line >= self.y as u16 && line < self.y as u16 + object_height as u16
    }

    /// Whether the object uses `OBP0` (flags bit 4 clear).
    pub fn is_obj_palette_0(&self) -> (r: bool)
        ensures
            r == (self.flags & 0x10 == 0),
    {
        (self.flags & 0x10) == 0
    }

    pub fn is_h_flip(&self) -> (r: bool)
        ensures
            r == (self.flags & 0x20 != 0),
    {
        (self.flags & 0x20) != 0
    }

    pub fn is_v_flip(&self) -> (r: bool)
        ensures
            r == (self.flags & 0x40 != 0),
    {
        (self.flags & 0x40) != 0
    }

    /// Whether background colors 1-3 hide the object (flags bit 7).
    pub fn is_bg_priority(&self) -> (r: bool)
        ensures
            r == (self.flags & 0x80 != 0),
    {
        (self.flags & 0x80) != 0
    }
}

/// Object attribute memory (`0xFE00..=0xFE9F`) and the DMA register (`0xFF46`).
pub struct ObjectAttributeMemory {
    pub oam: Vec<u8>,
    pub dma: u8,
    pub dma_transfer: bool,
}

/// Whether `address` belongs to this block.
pub open spec fn is_oam_address(address: u16) -> bool {
    (0xFE00 <= address <= 0xFE9F) || address == 0xFF46
}

impl ObjectAttributeMemory {
    pub open spec fn wf(&self) -> bool {
        self.oam@.len() == OAM_SIZE
    }

    /// OAM entry `i` as the table holds it.
    pub open spec fn entry(&self, i: int) -> ObjectAttribute {
        ObjectAttribute {
            y: self.oam@[4 * i],
            x: self.oam@[4 * i + 1],
            tile_number: self.oam@[4 * i + 2],
            flags: self.oam@[4 * i + 3],
        }
    }

    /// The value `address` reads.
    pub open spec fn read_spec(&self, address: u16) -> u8 {
        if address == 0xFF46 {
            self.dma
        } else {
            self.oam@[address - 0xFE00]
        }
    }

    /// Whether `new` is this block after writing `value` to `address`: a write
    /// to `0xFF46` latches the source page and arms the transfer.
    pub open spec fn written(&self, new: &ObjectAttributeMemory, address: u16, value: u8) -> bool {
        if address == 0xFF46 {
            &&& new.oam@ == self.oam@
            &&& new.dma == value
            &&& new.dma_transfer
        } else {
            &&& new.oam@ == self.oam@.update(address - 0xFE00, value)
            &&& new.dma == self.dma
            &&& new.dma_transfer == self.dma_transfer
        }
    }

    pub fn default() -> (r: ObjectAttributeMemory)
        ensures
            r.wf(),
            r.oam@ == Seq::new(OAM_SIZE as nat, |i: int| 0u8),
            r.dma == 0,
            !r.dma_transfer,
    {
        let r = ObjectAttributeMemory { oam: vec![0u8; OAM_SIZE], dma: 0, dma_transfer: false };
        assert(r.oam@ =~= Seq::new(OAM_SIZE as nat, |i: int| 0u8));
        r
    }

    pub fn read_u8(&self, address: u16) -> (r: u8)
        requires
            self.wf(),
            is_oam_address(address),
        ensures
            r == self.read_spec(address),
    {
        if address == 0xFF46 {
            self.dma
        } else {
            self.oam[(address - 0xFE00) as usize]
        }
    }

    pub fn write_u8(&mut self, address: u16, value: u8)
        requires
            old(self).wf(),
            is_oam_address(address),
        ensures
            final(self).wf(),
            old(self).written(final(self), address, value),
    {
        if address == 0xFF46 {
            self.dma = value;
            self.dma_transfer = true;
        } else {
            self.oam.set((address - 0xFE00) as usize, value);
        }
    }

    /// OAM entry `object_index`.
    pub fn get_object_attribute(&self, object_index: u8) -> (r: ObjectAttribute)
        requires
            self.wf(),
            object_index < 40,
        ensures
            r == self.entry(object_index as int),
    {
        let offset = object_index as usize * 4;
        ObjectAttribute {
            y: self.oam[offset],
            x: self.oam[offset + 1],
            tile_number: self.oam[offset + 2],
            flags: self.oam[offset + 3],
        }
    }

    /// All 40 entries in index order.
    pub fn get_object_attributes(&self) -> (r: Vec<ObjectAttribute>)
        requires
            self.wf(),
        ensures
            r@.len() == 40,
            forall|i: int| 0 <= i < 40 ==> r@[i] == self.entry(i),
    {
        let mut objects: Vec<ObjectAttribute> = Vec::new();
        let mut i: u8 = 0;
        while i < 40
            invariant
                self.wf(),
                i <= 40,
                objects@.len() == i,
                forall|j: int| 0 <= j < i ==> objects@[j] == self.entry(j),
            decreases 40 - i,
        {
            objects.push(self.get_object_attribute(i));
            i = i + 1;
        }
        objects
    }
}

} // verus!
