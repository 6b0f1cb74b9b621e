//! Decoding of a 32-bit instruction word into its fixed-position bit fields.

use vstd::prelude::*;

verus! {

/// Primary operation selector: bits 31..26 of the word.
pub open spec fn spec_opcode(w: u32) -> u8 {
    ((w >> 26u32) & 0x3f) as u8
}

/// First source register index: bits 25..21.
pub open spec fn spec_rs(w: u32) -> u8 {
    ((w >> 21u32) & 0x1f) as u8
}

/// Second source register index: bits 20..16.
pub open spec fn spec_rt(w: u32) -> u8 {
    ((w >> 16u32) & 0x1f) as u8
}

/// Destination register index: bits 15..11.
pub open spec fn spec_rd(w: u32) -> u8 {
    ((w >> 11u32) & 0x1f) as u8
}

/// Shift amount: bits 10..6.
pub open spec fn spec_sa(w: u32) -> u8 {
    ((w >> 6u32) & 0x1f) as u8
}

/// Secondary selector for the register-register family: bits 5..0.
pub open spec fn spec_funct(w: u32) -> u8 {
    (w & 0x3f) as u8
}

/// 16-bit immediate operand: bits 15..0.
pub open spec fn spec_imm(w: u32) -> u16 {
    (w & 0xffff) as u16
}

/// 26-bit jump target: bits 25..0.
pub open spec fn spec_target(w: u32) -> u32 {
    w & 0x03ff_ffff
}

/// An ephemeral decoded view of one 32-bit instruction word. Decoding
/// performs no validation: a malformed word simply decodes to fields that
/// match no defined operation.
pub struct Instruction {
    pub opcode: u8,
    pub rs: u8,
    pub rt: u8,
    pub rd: u8,
    pub sa: u8,
    pub funct: u8,
    pub imm: u16,
    pub target: u32,
}

impl Instruction {
    /// Extracts every field of `w` at its fixed position.
    pub fn new(w: u32) -> (i: Instruction)
        ensures
            i.opcode == spec_opcode(w),
            i.rs == spec_rs(w),
            i.rt == spec_rt(w),
            i.rd == spec_rd(w),
            i.sa == spec_sa(w),
            i.funct == spec_funct(w),
            i.imm == spec_imm(w),
            i.target == spec_target(w),
            i.opcode < 64,
            i.rs < 32,
            i.rt < 32,
            i.rd < 32,
            i.sa < 32,
            i.funct < 64,
            i.target <= 0x03ff_ffff,
    {
        proof {
            assert(((w >> 26u32) & 0x3f) < 64 && ((w >> 21u32) & 0x1f) < 32 && ((w >> 16u32)
                & 0x1f) < 32 && ((w >> 11u32) & 0x1f) < 32 && ((w >> 6u32) & 0x1f) < 32 && (w
                & 0x3f) < 64 && (w & 0xffff) < 0x10000 && (w & 0x03ff_ffff) <= 0x03ff_ffff)
                by (bit_vector);
        }
        Instruction {
            opcode: ((w >> 26u32) & 0x3f) as u8,
            rs: ((w >> 21u32) & 0x1f) as u8,
            rt: ((w >> 16u32) & 0x1f) as u8,
            rd: ((w >> 11u32) & 0x1f) as u8,
            sa: ((w >> 6u32) & 0x1f) as u8,
            funct: (w & 0x3f) as u8,
            imm: (w & 0xffff) as u16,
            target: w & 0x03ff_ffff,
        }
    }
}

} // verus!
