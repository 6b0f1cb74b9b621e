use mipsim::cpu::{Fatal, CPU};
use mipsim::memory::MEM_SIZE;

#[test]
fn new_cpu_starts_at_zero() {
    let cpu = CPU::new();
    assert_eq!(cpu.pc, 0);
    assert_eq!(cpu.reg.ra, 0);
    for i in 0..32 {
        assert_eq!(cpu.reg.reg[i], 0);
    }
}

#[test]
fn zero_word_steps_as_a_no_op() {
    let mut cpu = CPU::new();
    let r = cpu.step();
    assert!(r.is_ok());
    assert_eq!(cpu.pc, 4);
    for i in 0..32 {
        assert_eq!(cpu.reg.reg[i], 0);
    }
}

#[test]
fn beq_taken_adds_immediate_to_advanced_pc() {
    // beq $1, $2, 0x0004 with r1 = r2 = 5 from pc 0x1000:
    // 0x1000 + 4 (fetch advance) + 4 (branch immediate) = 0x1008.
    let mut cpu = CPU::new();
    cpu.reg.mem.write(0x1000, 0x10220004);
    cpu.reg.reg[1] = 5;
    cpu.reg.reg[2] = 5;
    cpu.pc = 0x1000;
    let r = cpu.step();
    assert!(r.is_ok());
    assert_eq!(cpu.pc, 0x1008);
}

#[test]
fn beq_not_taken_only_advances() {
    let mut cpu = CPU::new();
    cpu.reg.mem.write(0x1000, 0x10220004);
    cpu.reg.reg[1] = 5;
    cpu.reg.reg[2] = 6;
    cpu.pc = 0x1000;
    let r = cpu.step();
    assert!(r.is_ok());
    assert_eq!(cpu.pc, 0x1004);
}

#[test]
fn bne_taken_adds_immediate_to_advanced_pc() {
    // bne $1, $2, 0x0008 with r1 != r2 from pc 0x1000.
    let mut cpu = CPU::new();
    cpu.reg.mem.write(0x1000, 0x14220008);
    cpu.reg.reg[1] = 5;
    cpu.reg.reg[2] = 6;
    cpu.pc = 0x1000;
    let r = cpu.step();
    assert!(r.is_ok());
    assert_eq!(cpu.pc, 0x100C);
}

#[test]
fn branch_with_negative_immediate_goes_backward() {
    // beq $0, $0, -8 (0xFFF8) from pc 0x1000 lands at 0x1000 + 4 - 8.
    let mut cpu = CPU::new();
    cpu.reg.mem.write(0x1000, 0x1000FFF8);
    cpu.pc = 0x1000;
    let r = cpu.step();
    assert!(r.is_ok());
    assert_eq!(cpu.pc, 0x0FFC);
}

#[test]
fn jal_links_and_jumps_to_scaled_target() {
    // jal 0x00000100 from pc 0x1000: the link register takes the
    // advanced pc 0x1004 and the new pc is the target scaled by 4 with
    // the old pc's high 4 bits kept: 0x00000400.
    let mut cpu = CPU::new();
    cpu.reg.mem.write(0x1000, 0x0C000100);
    cpu.pc = 0x1000;
    let r = cpu.step();
    assert!(r.is_ok());
    assert_eq!(cpu.reg.ra, 0x1004);
    assert_eq!(cpu.pc, 0x00000400);
}

#[test]
fn j_jumps_without_linking() {
    // j 0x00000040 from pc 0x1000.
    let mut cpu = CPU::new();
    cpu.reg.mem.write(0x1000, 0x08000040);
    cpu.pc = 0x1000;
    let r = cpu.step();
    assert!(r.is_ok());
    assert_eq!(cpu.pc, 0x100);
    assert_eq!(cpu.reg.ra, 0);
}

#[test]
fn jr_replaces_pc_with_register_value() {
    // jr $31 with r31 = 0x2000.
    let mut cpu = CPU::new();
    cpu.reg.mem.write(0x1000, 0x03E00008);
    cpu.reg.reg[31] = 0x2000;
    cpu.pc = 0x1000;
    let r = cpu.step();
    assert!(r.is_ok());
    assert_eq!(cpu.pc, 0x2000);
}

#[test]
fn unknown_opcode_is_a_decode_fault() {
    let mut cpu = CPU::new();
    cpu.reg.mem.write(0, 0xFFFFFFFF);
    let r = cpu.run(1000);
    assert_eq!(r, Some(Fatal::UnknownOpcode { opcode: 0x3F }));
    assert_eq!(cpu.pc, 4);
}

#[test]
fn unknown_funct_is_a_decode_fault() {
    // Opcode 0 with funct 0x3F is not in the register-register family.
    let mut cpu = CPU::new();
    cpu.reg.mem.write(0, 0x0000003F);
    let r = cpu.step();
    assert_eq!(r, Err(Fatal::UnknownFunct { funct: 0x3F }));
    assert_eq!(cpu.pc, 4);
}

#[test]
fn lw_out_of_bounds_is_a_memory_fault() {
    // lw $2, 0($1) with r1 pointing past the end of memory.
    let mut cpu = CPU::new();
    cpu.reg.mem.write(0, 0x8C220000);
    cpu.reg.reg[1] = 0xFFFFFFFF;
    let r = cpu.step();
    assert_eq!(r, Err(Fatal::MemoryBounds { addr: 0xFFFFFFFF }));
}

#[test]
fn sw_spanning_the_boundary_is_a_memory_fault() {
    // sw $2, 0($1) with r1 = MEM_SIZE - 3: the 4-byte span leaves memory.
    let mut cpu = CPU::new();
    cpu.reg.mem.write(0, 0xAC220000);
    cpu.reg.reg[1] = MEM_SIZE as u32 - 3;
    let r = cpu.step();
    assert_eq!(r, Err(Fatal::MemoryBounds { addr: MEM_SIZE as u32 - 3 }));
}

#[test]
fn zero_filled_program_runs_as_no_ops_until_the_bound() {
    // A 4-byte program of zero bytes on zero-filled memory: every fetch
    // decodes sll $0, $0, 0, a no-op, until the pc walks off the end.
    let mut cpu = CPU::new();
    let cycles = (MEM_SIZE / 4) as u64;
    let r = cpu.run(cycles);
    assert_eq!(r, None);
    assert_eq!(cpu.pc, MEM_SIZE as u32);
    let r = cpu.run(1);
    assert_eq!(r, Some(Fatal::MemoryBounds { addr: MEM_SIZE as u32 }));
    assert_eq!(cpu.pc, MEM_SIZE as u32);
    for i in 0..32 {
        assert_eq!(cpu.reg.reg[i], 0);
    }
    assert_eq!(cpu.reg.ra, 0);
}

#[test]
fn small_program_computes_and_stops() {
    // addi $1, $0, 5; addi $2, $0, 7; add $3, $1, $2; then an undefined
    // word stops the run.
    let mut cpu = CPU::new();
    cpu.reg.mem.write(0, 0x20010005);
    cpu.reg.mem.write(4, 0x20020007);
    cpu.reg.mem.write(8, 0x00221820);
    cpu.reg.mem.write(12, 0xFFFFFFFF);
    let r = cpu.run(100);
    assert_eq!(r, Some(Fatal::UnknownOpcode { opcode: 0x3F }));
    assert_eq!(cpu.reg.reg[1], 5);
    assert_eq!(cpu.reg.reg[2], 7);
    assert_eq!(cpu.reg.reg[3], 12);
    assert_eq!(cpu.pc, 16);
}

#[test]
fn store_load_program_round_trips_through_memory() {
    // addi $1, $0, 0x100; sw $1, 8($1); lw $4, 8($1); undefined stop.
    let mut cpu = CPU::new();
    cpu.reg.mem.write(0, 0x20010100);
    cpu.reg.mem.write(4, 0xAC210008);
    cpu.reg.mem.write(8, 0x8C240008);
    cpu.reg.mem.write(12, 0xFFFFFFFF);
    let r = cpu.run(100);
    assert_eq!(r, Some(Fatal::UnknownOpcode { opcode: 0x3F }));
    assert_eq!(cpu.reg.reg[4], 0x100);
    assert_eq!(cpu.reg.mem.read(0x108), 0x100);
}

#[test]
fn run_with_no_fuel_changes_nothing() {
    let mut cpu = CPU::new();
    cpu.pc = 0x1000;
    let r = cpu.run(0);
    assert_eq!(r, None);
    assert_eq!(cpu.pc, 0x1000);
}
