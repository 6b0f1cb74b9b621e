//! The register file: 32 general-purpose 32-bit registers, a link
//! register, and one operation per ALU or memory-access instruction.
//!
//! All arithmetic is on 32-bit two's-complement values and wraps silently
//! on overflow; there is no trap and no flag.

use vstd::prelude::*;

use crate::memory::{spec_read_word, spec_write_word, Memory, MEM_SIZE};

verus! {

/// The signed (two's-complement) reading of a 32-bit register value.
pub open spec fn spec_to_signed(x: u32) -> int {
    if x < 0x8000_0000 {
        x as int
    } else {
        x as int - 0x1_0000_0000
    }
}

/// The signed (two's-complement) reading of a 16-bit immediate.
pub open spec fn spec_to_signed16(x: u16) -> int {
    if x < 0x8000 {
        x as int
    } else {
        x as int - 0x1_0000
    }
}

/// The 16-bit immediate sign-extended to 32 bits: the unique 32-bit value
/// whose signed reading equals the immediate's signed reading.
pub open spec fn spec_sign_extend(imm: u16) -> u32 {
    if imm < 0x8000 {
        imm as u32
    } else {
        (imm + 0xffff_0000) as u32
    }
}

/// Left shift: low-order bits fill with zero.
pub open spec fn spec_sll(x: u32, sa: u32) -> u32 {
    x << sa
}

/// Logical right shift: high-order bits fill with zero.
pub open spec fn spec_srl(x: u32, sa: u32) -> u32 {
    x >> sa
}

/// Arithmetic right shift: high-order bits fill with copies of the sign
/// bit, so shifting a negative value keeps it negative. This is what
/// separates `sra` from `srl`.
pub open spec fn spec_sra(x: u32, sa: u32) -> u32 {
    if sa == 0 || x < 0x8000_0000 {
        x >> sa
    } else {
        (x >> sa) | (0xffff_ffffu32 << ((32 - sa) as u32))
    }
}

/// The set-less-than result: 1 when the signed reading of `x` is below
/// the signed reading of `y`, else 0.
pub open spec fn spec_slt(x: u32, y: u32) -> u32 {
    if spec_to_signed(x) < spec_to_signed(y) {
        1u32
    } else {
        0u32
    }
}

/// The set-less-than-immediate result: 1 when the signed reading of `x`
/// is below the signed reading of the 16-bit immediate, else 0.
pub open spec fn spec_slti(x: u32, imm: u16) -> u32 {
    if spec_to_signed(x) < spec_to_signed16(imm) {
        1u32
    } else {
        0u32
    }
}

/// The effective address of a load or store: the base register value plus
/// the sign-extended immediate, wrapping modulo 2^32.
pub open spec fn spec_effective_addr(base: u32, imm: u16) -> u32 {
    base.wrapping_add(spec_sign_extend(imm))
}

/// The abstract state of a register file: the 32 general registers, the
/// mirrored program counter, the link register, and the bytes of the
/// memory the file's load/store operations act on.
pub ghost struct RegView {
    pub regs: Seq<u32>,
    pub pc: u32,
    pub ra: u32,
    pub mem: Seq<u8>,
}

/// The register file. It owns the simulated memory, which its load/store
/// word operations read and write.
///
/// Register index 0 is not special-cased: writes to it persist, unlike
/// the hard-wired-zero register of the full architecture.
pub struct Register {
    pub reg: Vec<u32>,
    pub pc: u32,
    pub ra: u32,
    pub mem: Memory,
}

impl View for Register {
    type V = RegView;

    open spec fn view(&self) -> RegView {
        RegView { regs: self.reg@, pc: self.pc, ra: self.ra, mem: self.mem@ }
    }
}

impl Register {
    /// Exactly 32 general registers, over a full-capacity memory.
    pub open spec fn wf(&self) -> bool {
        self.reg@.len() == 32 && self.mem.wf()
    }

    /// A fresh register file: every register, the program counter and the
    /// link register are zero, over a fresh zero-filled memory.
    pub fn new() -> (r: Register)
        ensures
            r.wf(),
            r@.pc == 0,
            r@.ra == 0,
            forall|i: int| 0 <= i < 32 ==> r@.regs[i] == 0u32,
            forall|i: int| 0 <= i < MEM_SIZE ==> r@.mem[i] == 0u8,
    {
        Register { reg: vec![0u32; 32], pc: 0, ra: 0, mem: Memory::new() }
    }

    /// rd = rs + rt, wrapping on overflow.
    pub fn add(&mut self, rd: u8, rs: u8, rt: u8)
        requires
            old(self).wf(),
            rd < 32,
            rs < 32,
            rt < 32,
        ensures
            final(self).wf(),
            final(self)@ == (RegView {
                regs: old(self)@.regs.update(
                    rd as int,
                    old(self)@.regs[rs as int].wrapping_add(old(self)@.regs[rt as int]),
                ),
                ..old(self)@
            }),
    {
        self.reg[rd as usize] = self.reg[rs as usize].wrapping_add(self.reg[rt as usize]);
    }

    /// rd = rs - rt, wrapping on overflow.
    pub fn sub(&mut self, rd: u8, rs: u8, rt: u8)
        requires
            old(self).wf(),
            rd < 32,
            rs < 32,
            rt < 32,
        ensures
            final(self).wf(),
            final(self)@ == (RegView {
                regs: old(self)@.regs.update(
                    rd as int,
                    old(self)@.regs[rs as int].wrapping_sub(old(self)@.regs[rt as int]),
                ),
                ..old(self)@
            }),
    {
        self.reg[rd as usize] = self.reg[rs as usize].wrapping_sub(self.reg[rt as usize]);
    }

    /// rd = rs & rt.
    pub fn and(&mut self, rd: u8, rs: u8, rt: u8)
        requires
            old(self).wf(),
            rd < 32,
            rs < 32,
            rt < 32,
        ensures
            final(self).wf(),
            final(self)@ == (RegView {
                regs: old(self)@.regs.update(
                    rd as int,
                    old(self)@.regs[rs as int] & old(self)@.regs[rt as int],
                ),
                ..old(self)@
            }),
    {
        self.reg[rd as usize] = self.reg[rs as usize] & self.reg[rt as usize];
    }

    /// rd = rs | rt.
    pub fn or(&mut self, rd: u8, rs: u8, rt: u8)
        requires
            old(self).wf(),
            rd < 32,
            rs < 32,
            rt < 32,
        ensures
            final(self).wf(),
            final(self)@ == (RegView {
                regs: old(self)@.regs.update(
                    rd as int,
                    old(self)@.regs[rs as int] | old(self)@.regs[rt as int],
                ),
                ..old(self)@
            }),
    {
        self.reg[rd as usize] = self.reg[rs as usize] | self.reg[rt as usize];
    }

    /// rd = rs ^ rt.
    pub fn xor(&mut self, rd: u8, rs: u8, rt: u8)
        requires
            old(self).wf(),
            rd < 32,
            rs < 32,
            rt < 32,
        ensures
            final(self).wf(),
            final(self)@ == (RegView {
                regs: old(self)@.regs.update(
                    rd as int,
                    old(self)@.regs[rs as int] ^ old(self)@.regs[rt as int],
                ),
                ..old(self)@
            }),
    {
        self.reg[rd as usize] = self.reg[rs as usize] ^ self.reg[rt as usize];
    }

    /// rd = !(rs | rt).
    pub fn nor(&mut self, rd: u8, rs: u8, rt: u8)
        requires
            old(self).wf(),
            rd < 32,
            rs < 32,
            rt < 32,
        ensures
            final(self).wf(),
            final(self)@ == (RegView {
                regs: old(self)@.regs.update(
                    rd as int,
                    !(old(self)@.regs[rs as int] | old(self)@.regs[rt as int]),
                ),
                ..old(self)@
            }),
    {
        self.reg[rd as usize] = !(self.reg[rs as usize] | self.reg[rt as usize]);
    }

    /// rd = 1 if rs is below rt as signed values, else 0.
    pub fn slt(&mut self, rd: u8, rs: u8, rt: u8)
        requires
            old(self).wf(),
            rd < 32,
            rs < 32,
            rt < 32,
        ensures
            final(self).wf(),
            final(self)@ == (RegView {
                regs: old(self)@.regs.update(
                    rd as int,
                    spec_slt(old(self)@.regs[rs as int], old(self)@.regs[rt as int]),
                ),
                ..old(self)@
            }),
    {
        let x: u32 = self.reg[rs as usize];
        let y: u32 = self.reg[rt as usize];
        let lt: bool = if (x >= 0x8000_0000) == (y >= 0x8000_0000) {
            x < y
        } else {
            x >= 0x8000_0000
        };
        self.reg[rd as usize] = if lt {
            1
        } else {
            0
        };
    }

    /// rd = rt shifted left by sa, low bits zero-filled.
    pub fn sll(&mut self, rd: u8, rt: u8, sa: u8)
        requires
            old(self).wf(),
            rd < 32,
            rt < 32,
            sa < 32,
        ensures
            final(self).wf(),
            final(self)@ == (RegView {
                regs: old(self)@.regs.update(
                    rd as int,
                    spec_sll(old(self)@.regs[rt as int], sa as u32),
                ),
                ..old(self)@
            }),
    {
        self.reg[rd as usize] = self.reg[rt as usize] << (sa as u32);
    }

    /// rd = rt shifted right logically by sa, high bits zero-filled.
    pub fn srl(&mut self, rd: u8, rt: u8, sa: u8)
        requires
            old(self).wf(),
            rd < 32,
            rt < 32,
            sa < 32,
        ensures
            final(self).wf(),
            final(self)@ == (RegView {
                regs: old(self)@.regs.update(
                    rd as int,
                    spec_srl(old(self)@.regs[rt as int], sa as u32),
                ),
                ..old(self)@
            }),
    {
        self.reg[rd as usize] = self.reg[rt as usize] >> (sa as u32);
    }

    /// rd = rt shifted right arithmetically by sa, high bits filled with
    /// the sign bit. Shifting a value with the sign bit set by 31 yields
    /// `0xffff_ffff`, where `srl` would yield 1.
    pub fn sra(&mut self, rd: u8, rt: u8, sa: u8)
        requires
            old(self).wf(),
            rd < 32,
            rt < 32,
            sa < 32,
        ensures
            final(self).wf(),
            final(self)@ == (RegView {
                regs: old(self)@.regs.update(
                    rd as int,
                    spec_sra(old(self)@.regs[rt as int], sa as u32),
                ),
                ..old(self)@
            }),
    {
        let x: u32 = self.reg[rt as usize];
        let v: u32 = if sa == 0 || x < 0x8000_0000 {
            x >> (sa as u32)
        } else {
            let sh: u32 = 32 - (sa as u32);
            (x >> (sa as u32)) | (0xffff_ffffu32 << sh)
        };
        self.reg[rd as usize] = v;
    }

    /// Returns rs's value, the next program counter after a register
    /// jump. The caller replaces its program counter with the result and
    /// must not also apply the normal fall-through advance.
    pub fn jr(&mut self, rs: u8) -> (target: u32)
        requires
            old(self).wf(),
            rs < 32,
        ensures
            final(self).wf(),
            final(self)@ == old(self)@,
            target == old(self)@.regs[rs as int],
    {
        self.reg[rs as usize]
    }

    /// rt = rs + sign-extended immediate, wrapping on overflow.
    pub fn addi(&mut self, rt: u8, rs: u8, imm: u16)
        requires
            old(self).wf(),
            rt < 32,
            rs < 32,
        ensures
            final(self).wf(),
            final(self)@ == (RegView {
                regs: old(self)@.regs.update(
                    rt as int,
                    old(self)@.regs[rs as int].wrapping_add(spec_sign_extend(imm)),
                ),
                ..old(self)@
            }),
    {
        self.reg[rt as usize] = self.reg[rs as usize].wrapping_add(sign_extend(imm));
    }

    /// rt = rs & zero-extended immediate.
    pub fn andi(&mut self, rt: u8, rs: u8, imm: u16)
        requires
            old(self).wf(),
            rt < 32,
            rs < 32,
        ensures
            final(self).wf(),
            final(self)@ == (RegView {
                regs: old(self)@.regs.update(
                    rt as int,
                    old(self)@.regs[rs as int] & (imm as u32),
                ),
                ..old(self)@
            }),
    {
        self.reg[rt as usize] = self.reg[rs as usize] & (imm as u32);
    }

    /// rt = rs | zero-extended immediate.
    pub fn ori(&mut self, rt: u8, rs: u8, imm: u16)
        requires
            old(self).wf(),
            rt < 32,
            rs < 32,
        ensures
            final(self).wf(),
            final(self)@ == (RegView {
                regs: old(self)@.regs.update(
                    rt as int,
                    old(self)@.regs[rs as int] | (imm as u32),
                ),
                ..old(self)@
            }),
    {
        self.reg[rt as usize] = self.reg[rs as usize] | (imm as u32);
    }

    /// rt = rs ^ zero-extended immediate.
    pub fn xori(&mut self, rt: u8, rs: u8, imm: u16)
        requires
            old(self).wf(),
            rt < 32,
            rs < 32,
        ensures
            final(self).wf(),
            final(self)@ == (RegView {
                regs: old(self)@.regs.update(
                    rt as int,
                    old(self)@.regs[rs as int] ^ (imm as u32),
                ),
                ..old(self)@
            }),
    {
        self.reg[rt as usize] = self.reg[rs as usize] ^ (imm as u32);
    }

    /// rt = 1 if rs is below the sign-extended immediate as signed
    /// values, else 0.
    pub fn slti(&mut self, rt: u8, rs: u8, imm: u16)
        requires
            old(self).wf(),
            rt < 32,
            rs < 32,
        ensures
            final(self).wf(),
            final(self)@ == (RegView {
                regs: old(self)@.regs.update(
                    rt as int,
                    spec_slti(old(self)@.regs[rs as int], imm),
                ),
                ..old(self)@
            }),
    {
        let x: u32 = self.reg[rs as usize];
        let y: u32 = sign_extend(imm);
        let lt: bool = if (x >= 0x8000_0000) == (y >= 0x8000_0000) {
            x < y
        } else {
            x >= 0x8000_0000
        };
        self.reg[rt as usize] = if lt {
            1
        } else {
            0
        };
    }

    /// The branch-if-equal condition: rs == rt. The caller applies the
    /// branch offset; this operation changes nothing.
    pub fn beq(&mut self, rs: u8, rt: u8, _imm: u16) -> (taken: bool)
        requires
            old(self).wf(),
            rs < 32,
            rt < 32,
        ensures
            final(self).wf(),
            final(self)@ == old(self)@,
            taken == (old(self)@.regs[rs as int] == old(self)@.regs[rt as int]),
    {
        self.reg[rs as usize] == self.reg[rt as usize]
    }

    /// The branch-if-not-equal condition: rs != rt. The caller applies
    /// the branch offset; this operation changes nothing.
    pub fn bne(&mut self, rs: u8, rt: u8, _imm: u16) -> (taken: bool)
        requires
            old(self).wf(),
            rs < 32,
            rt < 32,
        ensures
            final(self).wf(),
            final(self)@ == old(self)@,
            taken == (old(self)@.regs[rs as int] != old(self)@.regs[rt as int]),
    {
        self.reg[rs as usize] != self.reg[rt as usize]
    }

    /// rt = the memory word at the effective address rs plus the
    /// sign-extended immediate. The whole 4-byte span must be in bounds.
    pub fn lw(&mut self, rt: u8, imm: u16, rs: u8)
        requires
            old(self).wf(),
            rt < 32,
            rs < 32,
            spec_effective_addr(old(self)@.regs[rs as int], imm) + 3 < MEM_SIZE,
        ensures
            final(self).wf(),
            final(self)@ == (RegView {
                regs: old(self)@.regs.update(
                    rt as int,
                    spec_read_word(
                        old(self)@.mem,
                        spec_effective_addr(old(self)@.regs[rs as int], imm) as int,
                    ),
                ),
                ..old(self)@
            }),
    {
        let ea: u32 = self.reg[rs as usize].wrapping_add(sign_extend(imm));
        let w: u32 = self.mem.read(ea);
        self.reg[rt as usize] = w;
    }

    /// Stores rt's value at the effective address rs plus the
    /// sign-extended immediate. The whole 4-byte span must be in bounds.
    pub fn sw(&mut self, rt: u8, imm: u16, rs: u8)
        requires
            old(self).wf(),
            rt < 32,
            rs < 32,
            spec_effective_addr(old(self)@.regs[rs as int], imm) + 3 < MEM_SIZE,
        ensures
            final(self).wf(),
            final(self)@ == (RegView {
                mem: spec_write_word(
                    old(self)@.mem,
                    spec_effective_addr(old(self)@.regs[rs as int], imm) as int,
                    old(self)@.regs[rt as int],
                ),
                ..old(self)@
            }),
    {
        let ea: u32 = self.reg[rs as usize].wrapping_add(sign_extend(imm));
        let v: u32 = self.reg[rt as usize];
        self.mem.write(ea, v);
    }

    /// Replaces the memory the load/store operations act on.
    pub fn mem(&mut self, mem: Memory)
        requires
            old(self).wf(),
            mem.wf(),
        ensures
            final(self).wf(),
            final(self)@ == (RegView { mem: mem@, ..old(self)@ }),
    {
        self.mem = mem;
    }
}

/// Sign-extends a 16-bit immediate to 32 bits.
pub fn sign_extend(imm: u16) -> (r: u32)
    ensures
        r == spec_sign_extend(imm),
{
    if imm < 0x8000 {
        imm as u32
    } else {
        (imm as u32) + 0xffff_0000
    }
}

/// Adding a value and then subtracting the same value returns a register
/// to its original value, for every pair of 32-bit values, under
/// two's-complement wraparound arithmetic.
pub proof fn lemma_add_then_sub_restores(x: u32, y: u32)
    ensures
        x.wrapping_add(y).wrapping_sub(y) == x,
{
}

/// Shifting left by zero is the identity on the shifted value.
pub proof fn lemma_sll_zero_identity(x: u32)
    ensures
        spec_sll(x, 0) == x,
{
    assert(x << 0u32 == x) by (bit_vector);
}

/// The logical and arithmetic right shifts agree exactly when the sign
/// bit of the shifted value is clear or the shift amount is zero; on a
/// negative value and a nonzero shift they always differ.
pub proof fn lemma_srl_sra_agree_iff(x: u32, sa: u32)
    requires
        sa < 32,
    ensures
        (spec_sra(x, sa) == spec_srl(x, sa)) <==> (sa == 0 || x < 0x8000_0000),
{
    if sa != 0 && x >= 0x8000_0000 {
        let sh: u32 = (32 - sa) as u32;
        assert(1 <= sa < 32 && sh == 32 - sa && x >= 0x8000_0000 ==> ((x >> sa) | (0xffff_ffffu32
            << sh)) != (x >> sa)) by (bit_vector);
    }
}

/// A load from the effective address a word was just stored to returns
/// exactly the stored register value.
pub proof fn lemma_store_then_load(regs: Seq<u32>, mem: Seq<u8>, rt: int, rs: int, imm: u16)
    requires
        regs.len() == 32,
        mem.len() == MEM_SIZE,
        0 <= rt < 32,
        0 <= rs < 32,
        spec_effective_addr(regs[rs], imm) + 3 < MEM_SIZE,
    ensures
        spec_read_word(
            spec_write_word(mem, spec_effective_addr(regs[rs], imm) as int, regs[rt]),
            spec_effective_addr(regs[rs], imm) as int,
        ) == regs[rt],
{
    crate::memory::lemma_write_then_read(mem, spec_effective_addr(regs[rs], imm) as int, regs[rt]);
}

} // verus!
