//! Flat byte-addressed memory with little-endian 32-bit word accessors.

use vstd::prelude::*;

verus! {

/// Capacity of the simulated memory in bytes (1 MiB).
pub const MEM_SIZE: usize = 1024 * 1024;

/// The 32-bit word assembled little-endian from the four bytes of `m`
/// starting at `addr`: the byte at `addr + i` contributes bits `8i..8i+7`.
pub open spec fn spec_read_word(m: Seq<u8>, addr: int) -> u32 {
    (m[addr] as u32) | ((m[addr + 1] as u32) << 8u32) | ((m[addr + 2] as u32) << 16u32) | ((m[
        addr + 3] as u32) << 24u32)
}

/// The memory `m` after storing the four bytes of `w` little-endian
/// starting at `addr`.
pub open spec fn spec_write_word(m: Seq<u8>, addr: int, w: u32) -> Seq<u8> {
    m.update(addr, (w & 0xff) as u8).update(addr + 1, ((w >> 8u32) & 0xff) as u8).update(
        addr + 2,
        ((w >> 16u32) & 0xff) as u8,
    ).update(addr + 3, ((w >> 24u32) & 0xff) as u8)
}

/// A fixed-capacity flat byte buffer, zero-initialized at startup and
/// mutated only through the word accessors or an initial image load.
pub struct Memory {
    pub mem: Vec<u8>,
}

impl View for Memory {
    type V = Seq<u8>;

    open spec fn view(&self) -> Seq<u8> {
        self.mem@
    }
}

impl Memory {
    /// The buffer always spans exactly `MEM_SIZE` bytes.
    pub open spec fn wf(&self) -> bool {
        self@.len() == MEM_SIZE
    }

    /// A fresh, zero-filled memory.
    pub fn new() -> (m: Memory)
        ensures
            m.wf(),
            forall|i: int| 0 <= i < MEM_SIZE ==> m@[i] == 0u8,
    {
        Memory { mem: vec![0u8; MEM_SIZE] }
    }

    /// Loads the word whose four bytes start at `addr`, little-endian.
    /// The whole 4-byte span must lie inside the buffer; unaligned
    /// addresses are permitted.
    pub fn read(&self, addr: u32) -> (w: u32)
        requires
            self.wf(),
            addr + 3 < MEM_SIZE,
        ensures
            w == spec_read_word(self@, addr as int),
    {
        let a: usize = addr as usize;
        let b0: u32 = self.mem[a] as u32;
        let b1: u32 = self.mem[a + 1] as u32;
        let b2: u32 = self.mem[a + 2] as u32;
        let b3: u32 = self.mem[a + 3] as u32;
        b0 | (b1 << 8u32) | (b2 << 16u32) | (b3 << 24u32)
    }

    /// Stores the four bytes of `w` little-endian starting at `addr`,
    /// under the same bound as `read`.
    pub fn write(&mut self, addr: u32, w: u32)
        requires
            old(self).wf(),
            addr + 3 < MEM_SIZE,
        ensures
            final(self).wf(),
            final(self)@ == spec_write_word(old(self)@, addr as int, w),
    {
        proof {
            assert((w & 0xff) < 256 && ((w >> 8u32) & 0xff) < 256 && ((w >> 16u32) & 0xff) < 256
                && ((w >> 24u32) & 0xff) < 256) by (bit_vector);
        }
        let a: usize = addr as usize;
        self.mem[a] = (w & 0xff) as u8;
        self.mem[a + 1] = ((w >> 8u32) & 0xff) as u8;
        self.mem[a + 2] = ((w >> 16u32) & 0xff) as u8;
        self.mem[a + 3] = ((w >> 24u32) & 0xff) as u8;
    }
}

/// A word written at `addr` is read back from `addr` unchanged, for every
/// in-bounds address and every 32-bit value.
pub proof fn lemma_write_then_read(m: Seq<u8>, addr: int, w: u32)
    requires
        m.len() == MEM_SIZE,
        0 <= addr,
        addr + 3 < MEM_SIZE,
    ensures
        spec_read_word(spec_write_word(m, addr, w), addr) == w,
{
    let m2 = spec_write_word(m, addr, w);
    assert(m2[addr] == (w & 0xff) as u8);
    assert(m2[addr + 1] == ((w >> 8u32) & 0xff) as u8);
    assert(m2[addr + 2] == ((w >> 16u32) & 0xff) as u8);
    assert(m2[addr + 3] == ((w >> 24u32) & 0xff) as u8);
    assert((((w & 0xff) as u8) as u32) | ((((w >> 8u32) & 0xff) as u8 as u32) << 8u32) | ((((w
        >> 16u32) & 0xff) as u8 as u32) << 16u32) | ((((w >> 24u32) & 0xff) as u8 as u32) << 24u32)
        == w) by (bit_vector);
}

} // verus!
