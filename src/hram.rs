use vstd::prelude::*;

verus! {

/// Size of high RAM, `0xFF80..=0xFFFE`.
pub const HRAM_SIZE: usize = 0x7F;

/// High RAM: 127 bytes mapped at `0xFF80..=0xFFFE`.
pub struct HRam {
    pub data: Vec<u8>,
}

impl HRam {
    pub open spec fn wf(&self) -> bool {
        self.data@.len() == HRAM_SIZE
    }

    pub fn default() -> (r: HRam)
        ensures
            r.wf(),
            forall|i: int| 0 <= i < HRAM_SIZE ==> r.data@[i] == 0,
    {
        HRam { data: vec![0u8; HRAM_SIZE] }
    }

    pub fn read_u8(&self, address: u16) -> (r: u8)
        requires
            self.wf(),
            0xFF80 <= address <= 0xFFFE,
        ensures
            r == self.data@[address - 0xFF80],
    {
        self.data[(address - 0xFF80) as usize]
    }

    pub fn write_u8(&mut self, address: u16, value: u8)
        requires
            old(self).wf(),
            0xFF80 <= address <= 0xFFFE,
        ensures
            final(self).data@ == old(self).data@.update(address - 0xFF80, value),
            final(self).wf(),
    {
        self.data.set((address - 0xFF80) as usize, value);
    }
}

} // verus!
