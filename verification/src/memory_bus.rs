use vstd::prelude::*;
use crate::gpu::{Gpu, VRAM_BEGIN, VRAM_END};

verus! {

/// A memory bus that so far maps video RAM only (0x8000-0x9FFF).
pub struct MemoryBus {
    pub gpu: Gpu,
}

impl MemoryBus {
    pub fn new() -> (r: MemoryBus)
        ensures
            r.gpu.wf(),
            forall|i: int| 0 <= i < 0x2000 ==> r.gpu.vram@[i] == 0,
    {
        MemoryBus { gpu: Gpu::new() }
    }

    /// The byte at a video RAM address; other addresses are not mapped.
    pub fn read_byte(&self, address: u16) -> (r: u8)
        requires
            VRAM_BEGIN <= address <= VRAM_END,
        ensures
            r == self.gpu.vram@[address - VRAM_BEGIN],
    {
        let address = address as usize;
        self.gpu.read_vram(address - VRAM_BEGIN)
    }

    pub fn write_byte(&mut self, address: u16, value: u8)
        requires
            VRAM_BEGIN <= address <= VRAM_END,
        ensures
            final(self).gpu.vram@ == old(self).gpu.vram@.update(address - VRAM_BEGIN, value),
            final(self).gpu.tile_set@ == old(self).gpu.tile_set@,
    {
        let address = address as usize;
        self.gpu.write_vram(address - VRAM_BEGIN, value)
    }
}

} // verus!
