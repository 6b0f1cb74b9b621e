//! The execution engine: a program counter over a register file, run by a
//! fetch-decode-dispatch-execute loop.
//!
//! Each cycle fetches the word at the program counter, advances the
//! counter by 4, then dispatches on the decoded opcode (and, for the
//! register-register family, on the function code). Branch and jump
//! targets are computed relative to the already-advanced counter and take
//! effect on the same cycle; no branch-delay slot is modeled. There is no
//! halt instruction: execution ends only in a fatal condition.

use vstd::prelude::*;

use crate::instruction::{
    spec_funct, spec_imm, spec_opcode, spec_rd, spec_rs, spec_rt, spec_sa, spec_target,
    Instruction,
};
use crate::memory::{spec_read_word, spec_write_word, MEM_SIZE};
use crate::register::{
    sign_extend, spec_effective_addr, spec_sign_extend, spec_sll, spec_slt, spec_slti, spec_sra,
    spec_srl, RegView, Register,
};

verus! {

/// An unrecoverable fault that terminates execution: an instruction word
/// whose opcode, or whose function code under opcode 0, is not in the
/// supported set, or a word access whose 4-byte span leaves the memory.
#[derive(Clone, Copy, Debug, PartialEq, Eq, Structural)]
pub enum Fatal {
    UnknownOpcode { opcode: u8 },
    UnknownFunct { funct: u8 },
    MemoryBounds { addr: u32 },
}

/// The execution engine: the program counter and the register file (which
/// owns the simulated memory).
pub struct CPU {
    pub pc: u32,
    pub reg: Register,
}

/// The abstract state of the whole machine.
pub ghost struct CpuView {
    pub pc: u32,
    pub reg: RegView,
}

impl View for CPU {
    type V = CpuView;

    open spec fn view(&self) -> CpuView {
        CpuView { pc: self.pc, reg: self.reg@ }
    }
}

/// `s` with general register `idx` set to `v`.
pub open spec fn spec_set_reg(s: CpuView, idx: int, v: u32) -> CpuView {
    CpuView { reg: RegView { regs: s.reg.regs.update(idx, v), ..s.reg }, ..s }
}

/// One fetch-decode-dispatch-execute cycle, as a function of the whole
/// machine state. Returns the next state, paired with `Ok` for a normal
/// cycle or `Err` with the fatal condition that stops execution.
///
/// A fetch outside the memory leaves the state unchanged; every other
/// path first advances the program counter by 4, so a decode fault or an
/// out-of-bounds data access leaves the state with the counter advanced.
pub open spec fn spec_step(s: CpuView) -> (CpuView, Result<(), Fatal>) {
    if s.pc + 3 >= MEM_SIZE {
        (s, Err(Fatal::MemoryBounds { addr: s.pc }))
    } else {
        let w = spec_read_word(s.reg.mem, s.pc as int);
        let s1 = CpuView { pc: (s.pc + 4) as u32, ..s };
        let rs_v = s1.reg.regs[spec_rs(w) as int];
        let rt_v = s1.reg.regs[spec_rt(w) as int];
        let rd = spec_rd(w) as int;
        let rt = spec_rt(w) as int;
        let imm = spec_imm(w);
        let opcode = spec_opcode(w);
        if opcode == 0x00 {
            let f = spec_funct(w);
            if f == 0x20 {
                (spec_set_reg(s1, rd, rs_v.wrapping_add(rt_v)), Ok(()))
            } else if f == 0x22 {
                (spec_set_reg(s1, rd, rs_v.wrapping_sub(rt_v)), Ok(()))
            } else if f == 0x24 {
                (spec_set_reg(s1, rd, rs_v & rt_v), Ok(()))
            } else if f == 0x25 {
                (spec_set_reg(s1, rd, rs_v | rt_v), Ok(()))
            } else if f == 0x26 {
                (spec_set_reg(s1, rd, rs_v ^ rt_v), Ok(()))
            } else if f == 0x27 {
                (spec_set_reg(s1, rd, !(rs_v | rt_v)), Ok(()))
            } else if f == 0x2a {
                (spec_set_reg(s1, rd, spec_slt(rs_v, rt_v)), Ok(()))
            } else if f == 0x00 {
                (spec_set_reg(s1, rd, spec_sll(rt_v, spec_sa(w) as u32)), Ok(()))
            } else if f == 0x02 {
                (spec_set_reg(s1, rd, spec_srl(rt_v, spec_sa(w) as u32)), Ok(()))
            } else if f == 0x03 {
                (spec_set_reg(s1, rd, spec_sra(rt_v, spec_sa(w) as u32)), Ok(()))
            } else if f == 0x08 {
                (CpuView { pc: rs_v, ..s1 }, Ok(()))
            } else {
                (s1, Err(Fatal::UnknownFunct { funct: f }))
            }
        } else if opcode == 0x08 {
            (spec_set_reg(s1, rt, rs_v.wrapping_add(spec_sign_extend(imm))), Ok(()))
        } else if opcode == 0x0c {
            (spec_set_reg(s1, rt, rs_v & (imm as u32)), Ok(()))
        } else if opcode == 0x0d {
            (spec_set_reg(s1, rt, rs_v | (imm as u32)), Ok(()))
        } else if opcode == 0x0e {
            (spec_set_reg(s1, rt, rs_v ^ (imm as u32)), Ok(()))
        } else if opcode == 0x0a {
            (spec_set_reg(s1, rt, spec_slti(rs_v, imm)), Ok(()))
        } else if opcode == 0x04 {
            if rs_v == rt_v {
                (CpuView { pc: s1.pc.wrapping_add(spec_sign_extend(imm)), ..s1 }, Ok(()))
            } else {
                (s1, Ok(()))
            }
        } else if opcode == 0x05 {
            if rs_v != rt_v {
                (CpuView { pc: s1.pc.wrapping_add(spec_sign_extend(imm)), ..s1 }, Ok(()))
            } else {
                (s1, Ok(()))
            }
        } else if opcode == 0x23 {
            let ea = spec_effective_addr(rs_v, imm);
            if ea + 3 < MEM_SIZE {
                (spec_set_reg(s1, rt, spec_read_word(s1.reg.mem, ea as int)), Ok(()))
            } else {
                (s1, Err(Fatal::MemoryBounds { addr: ea }))
            }
        } else if opcode == 0x2b {
            let ea = spec_effective_addr(rs_v, imm);
            if ea + 3 < MEM_SIZE {
                (
                    CpuView {
                        reg: RegView { mem: spec_write_word(s1.reg.mem, ea as int, rt_v), ..s1.reg },
                        ..s1
                    },
                    Ok(()),
                )
            } else {
                (s1, Err(Fatal::MemoryBounds { addr: ea }))
            }
        } else if opcode == 0x02 {
            (CpuView { pc: (s1.pc & 0xf000_0000) | (spec_target(w) << 2u32), ..s1 }, Ok(()))
        } else if opcode == 0x03 {
            (
                CpuView {
                    pc: (s1.pc & 0xf000_0000) | (spec_target(w) << 2u32),
                    reg: RegView { ra: s1.pc, ..s1.reg },
                },
                Ok(()),
            )
        } else {
            (s1, Err(Fatal::UnknownOpcode { opcode }))
        }
    }
}

/// Up to `fuel` cycles from `s`: the state reached, paired with the
/// fault of the first failing cycle, or `None` when all `fuel` cycles
/// complete normally.
pub open spec fn spec_run(s: CpuView, fuel: nat) -> (CpuView, Option<Fatal>)
    decreases fuel,
{
    if fuel == 0 {
        (s, None)
    } else {
        match spec_step(s) {
            (s2, Ok(())) => spec_run(s2, (fuel - 1) as nat),
            (s2, Err(f)) => (s2, Some(f)),
        }
    }
}

/// A zero instruction word executes as a no-op: it decodes as a shift of
/// register 0 by a zero amount, so the cycle completes normally and
/// changes nothing but the program counter, which advances by 4. A
/// program that falls through into zero-filled memory therefore runs on
/// harmlessly until its counter walks past the memory bound.
pub proof fn lemma_zero_word_is_a_no_op(s: CpuView)
    requires
        s.pc + 3 < MEM_SIZE,
        s.reg.regs.len() == 32,
        spec_read_word(s.reg.mem, s.pc as int) == 0,
    ensures
        spec_step(s).1 is Ok,
        spec_step(s).0 == (CpuView { pc: (s.pc + 4) as u32, ..s }),
{
    assert(((0u32 >> 26u32) & 0x3f) == 0 && ((0u32 >> 21u32) & 0x1f) == 0 && ((0u32 >> 16u32)
        & 0x1f) == 0 && ((0u32 >> 11u32) & 0x1f) == 0 && ((0u32 >> 6u32) & 0x1f) == 0 && (0u32
        & 0x3f) == 0) by (bit_vector);
    crate::register::lemma_sll_zero_identity(s.reg.regs[0]);
    assert(s.reg.regs.update(0, s.reg.regs[0]) =~= s.reg.regs);
}

impl CPU {
    /// The register file, and with it the memory, are well-formed.
    pub open spec fn wf(&self) -> bool {
        self.reg.wf()
    }

    /// A fresh machine: program counter zero, every register zero, over a
    /// zero-filled memory.
    pub fn new() -> (c: CPU)
        ensures
            c.wf(),
            c@.pc == 0,
            c@.reg.pc == 0,
            c@.reg.ra == 0,
            forall|i: int| 0 <= i < 32 ==> c@.reg.regs[i] == 0u32,
            forall|i: int| 0 <= i < MEM_SIZE ==> c@.reg.mem[i] == 0u8,
    {
        CPU { pc: 0, reg: Register::new() }
    }

    /// Executes exactly one cycle: the state advances to
    /// `spec_step(old(self)@).0` and the result is its outcome.
    pub fn step(&mut self) -> (r: Result<(), Fatal>)
        requires
            old(self).wf(),
        ensures
            final(self).wf(),
            final(self)@ == spec_step(old(self)@).0,
            r == spec_step(old(self)@).1,
    {
        if self.pc >= MEM_SIZE as u32 - 3 {
            return Err(Fatal::MemoryBounds { addr: self.pc });
        }
        let w: u32 = self.reg.mem.read(self.pc);
        let inst = Instruction::new(w);
        self.pc = self.pc + 4;
        match inst.opcode {
            0x00 => match inst.funct {
                0x20 => {
                    self.reg.add(inst.rd, inst.rs, inst.rt);
                    Ok(())
                },
                0x22 => {
                    self.reg.sub(inst.rd, inst.rs, inst.rt);
                    Ok(())
                },
                0x24 => {
                    self.reg.and(inst.rd, inst.rs, inst.rt);
                    Ok(())
                },
                0x25 => {
                    self.reg.or(inst.rd, inst.rs, inst.rt);
                    Ok(())
                },
                0x26 => {
                    self.reg.xor(inst.rd, inst.rs, inst.rt);
                    Ok(())
                },
                0x27 => {
                    self.reg.nor(inst.rd, inst.rs, inst.rt);
                    Ok(())
                },
                0x2a => {
                    self.reg.slt(inst.rd, inst.rs, inst.rt);
                    Ok(())
                },
                0x00 => {
                    self.reg.sll(inst.rd, inst.rt, inst.sa);
                    Ok(())
                },
                0x02 => {
                    self.reg.srl(inst.rd, inst.rt, inst.sa);
                    Ok(())
                },
                0x03 => {
                    self.reg.sra(inst.rd, inst.rt, inst.sa);
                    Ok(())
                },
                0x08 => {
                    let target: u32 = self.reg.jr(inst.rs);
                    self.pc = target;
                    Ok(())
                },
                _ => Err(Fatal::UnknownFunct { funct: inst.funct }),
            },
            0x08 => {
                self.reg.addi(inst.rt, inst.rs, inst.imm);
                Ok(())
            },
            0x0c => {
                self.reg.andi(inst.rt, inst.rs, inst.imm);
                Ok(())
            },
            0x0d => {
                self.reg.ori(inst.rt, inst.rs, inst.imm);
                Ok(())
            },
            0x0e => {
                self.reg.xori(inst.rt, inst.rs, inst.imm);
                Ok(())
            },
            0x0a => {
                self.reg.slti(inst.rt, inst.rs, inst.imm);
                Ok(())
            },
            0x04 => {
                if self.reg.beq(inst.rs, inst.rt, inst.imm) {
                    self.pc = self.pc.wrapping_add(sign_extend(inst.imm));
                }
                Ok(())
            },
            0x05 => {
                if self.reg.bne(inst.rs, inst.rt, inst.imm) {
                    self.pc = self.pc.wrapping_add(sign_extend(inst.imm));
                }
                Ok(())
            },
            0x23 => {
                let base: u32 = self.reg.reg[inst.rs as usize];
                let ea: u32 = base.wrapping_add(sign_extend(inst.imm));
                if ea <= MEM_SIZE as u32 - 4 {
                    self.reg.lw(inst.rt, inst.imm, inst.rs);
                    Ok(())
                } else {
                    Err(Fatal::MemoryBounds { addr: ea })
                }
            },
            0x2b => {
                let base: u32 = self.reg.reg[inst.rs as usize];
                let ea: u32 = base.wrapping_add(sign_extend(inst.imm));
                if ea <= MEM_SIZE as u32 - 4 {
                    self.reg.sw(inst.rt, inst.imm, inst.rs);
                    Ok(())
                } else {
                    Err(Fatal::MemoryBounds { addr: ea })
                }
            },
            0x02 => {
                self.pc = (self.pc & 0xf000_0000) | (inst.target << 2u32);
                Ok(())
            },
            0x03 => {
                self.reg.ra = self.pc;
                self.pc = (self.pc & 0xf000_0000) | (inst.target << 2u32);
                Ok(())
            },
            _ => Err(Fatal::UnknownOpcode { opcode: inst.opcode }),
        }
    }

    /// Runs cycles until one faults or the budget of `max_cycles` cycles
    /// is spent: exactly `spec_run` of the starting state. The result is
    /// `Some` with the first fault, or `None` when every budgeted cycle
    /// completed normally. A driver that wants the architecture's
    /// run-indefinitely behavior calls this again whenever it gets
    /// `None`.
    pub fn run(&mut self, max_cycles: u64) -> (r: Option<Fatal>)
        requires
            old(self).wf(),
        ensures
            final(self).wf(),
            final(self)@ == spec_run(old(self)@, max_cycles as nat).0,
            r == spec_run(old(self)@, max_cycles as nat).1,
    {
        let ghost s0 = self@;
        let mut left: u64 = max_cycles;
        loop
            invariant
                self.wf(),
                s0 == old(self)@,
                spec_run(s0, max_cycles as nat) == spec_run(self@, left as nat),
            decreases left,
        {
            if left == 0 {
                return None;
            }
            let res = self.step();
            match res {
                Ok(()) => {
                    left = left - 1;
                },
                Err(f) => {
                    return Some(f);
                },
            }
        }
    }
}

} // verus!
