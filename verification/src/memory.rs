//! RAM and video RAM byte arrays. The memory has no behaviour of its own
//! beyond allocation and zeroing; all access is mediated by the hardware
//! bundle, which centralizes bounds checking and write semantics.

use vstd::prelude::*;

verus! {

/// Size of the full addressable space. Addresses below `PROGRAM_START` are
/// reserved for font data; program space begins at `PROGRAM_START`.
pub const RAM_SIZE: usize = 4096;

/// First address of program space.
pub const PROGRAM_START: usize = 0x200;

/// Size of the framebuffer: 64 x 32 monochrome pixels, packed 8 per byte.
pub const VRAM_SIZE: usize = 256;

/// The byte arrays of the machine: the addressable space and the bit-packed
/// 64 x 32 framebuffer.
#[derive(Debug)]
pub struct Memory {
    pub ram: Vec<u8>,
    pub vram: Vec<u8>,
}

impl Memory {
    /// Both arrays have exactly their hardware-declared sizes.
    pub open spec fn wf(&self) -> bool {
        &&& self.ram@.len() == RAM_SIZE
        &&& self.vram@.len() == VRAM_SIZE
    }

    /// Freshly allocated, zero-filled memory.
    pub fn default() -> (m: Memory)
        ensures
            m.wf(),
            forall|i: int| 0 <= i < RAM_SIZE ==> m.ram@[i] == 0,
            forall|i: int| 0 <= i < VRAM_SIZE ==> m.vram@[i] == 0,
    {
        Memory { ram: zeroed_bytes(RAM_SIZE), vram: zeroed_bytes(VRAM_SIZE) }
    }
}

/// A zero-filled byte vector of the given length.
pub fn zeroed_bytes(n: usize) -> (v: Vec<u8>)
    ensures
        v@.len() == n,
        forall|i: int| 0 <= i < n ==> v@[i] == 0,
{
    let mut v: Vec<u8> = Vec::new();
    let mut i: usize = 0;
    while i < n
        invariant
            i <= n,
            v@.len() == i,
            forall|j: int| 0 <= j < i ==> v@[j] == 0,
        decreases n - i,
    {
        v.push(0);
        i = i + 1;
    }
    v
}

} // verus!
