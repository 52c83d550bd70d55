use vstd::prelude::*;

verus! {

/// The console's 2 KiB of nametable RAM, seen at 0x2000..0x27FF.
pub struct PPUBus {
    pub vram: Vec<u8>,
}

impl PPUBus {
    pub open spec fn wf(&self) -> bool {
        self.vram@.len() == 0x800
    }

    pub fn new() -> (r: Self)
        ensures
            r.wf(),
            forall|i: int| 0 <= i < 0x800 ==> #[trigger] r.vram@[i] == 0,
    {
        PPUBus { vram: vec![0u8; 0x800] }
    }

    pub fn read(&self, address: u16) -> (r: u8)
        requires
            self.wf(),
            0x2000 <= address < 0x2800,
        ensures
            r == self.vram@[address - 0x2000],
    {
        self.vram[(address - 0x2000) as usize]
    }

    pub fn write(&mut self, address: u16, value: u8)
        requires
            old(self).wf(),
            0x2000 <= address < 0x2800,
        ensures
            final(self).wf(),
            final(self).vram@ == old(self).vram@.update(address - 0x2000, value),
    {
        self.vram.set((address - 0x2000) as usize, value);
    }
}

} // verus!
