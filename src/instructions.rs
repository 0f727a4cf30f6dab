use vstd::prelude::*;
use crate::decode::{
    dr, dr_field, imm5, imm5_field, imm_mode, imm_mode_bit, long_mode, long_mode_bit, offset6,
    offset6_field, opcode, pc_offset11, pc_offset11_field, pc_offset9, pc_offset9_field, sr1,
    sr1_field, sr2, sr2_field, Opcode,
};
use crate::flags::cond_for;
use crate::memory::Memory;
use crate::registers::{update_flags, RegisterFile, COND, PC};

verus! {

/// Addition modulo 2^16.
pub open spec fn wrap_add(a: u16, b: u16) -> u16 {
    ((a + b) % 0x10000) as u16
}

/// `regs` with `v` in general-purpose register `d` and the condition
/// register set from `v`.
pub open spec fn define(regs: Seq<u16>, d: u16, v: u16) -> Seq<u16> {
    regs.update(d as int, v).update(COND as int, cond_for(v))
}

/// The second operand of ADD and AND: the immediate or register SR2.
pub open spec fn operand2(instr: u16, regs: Seq<u16>) -> u16 {
    if imm_mode(instr) {
        imm5(instr)
    } else {
        regs[sr2(instr) as int]
    }
}

/// The program counter plus the 9-bit offset.
pub open spec fn pc_address(instr: u16, regs: Seq<u16>) -> u16 {
    wrap_add(regs[PC as int], pc_offset9(instr))
}

/// The base register plus the 6-bit offset.
pub open spec fn base_address(instr: u16, regs: Seq<u16>) -> u16 {
    wrap_add(regs[sr1(instr) as int], offset6(instr))
}

/// ADD: SR1 plus the second operand, modulo 2^16, into DR.
pub open spec fn add_effect(instr: u16, regs: Seq<u16>) -> Seq<u16> {
    define(regs, dr(instr), wrap_add(regs[sr1(instr) as int], operand2(instr, regs)))
}

/// AND: SR1 and the second operand, bitwise, into DR.
pub open spec fn and_effect(instr: u16, regs: Seq<u16>) -> Seq<u16> {
    define(regs, dr(instr), regs[sr1(instr) as int] & operand2(instr, regs))
}

/// NOT: the complement of SR1 into DR.
pub open spec fn not_effect(instr: u16, regs: Seq<u16>) -> Seq<u16> {
    define(regs, dr(instr), !regs[sr1(instr) as int])
}

/// JMP: PC takes SR1; nothing else changes.
pub open spec fn jmp_effect(instr: u16, regs: Seq<u16>) -> Seq<u16> {
    regs.update(PC as int, regs[sr1(instr) as int])
}

/// A branch is taken when one of its condition bits is set in COND.
pub open spec fn br_effect(instr: u16, regs: Seq<u16>) -> Seq<u16> {
    if dr(instr) & regs[COND as int] != 0 {
        regs.update(PC as int, pc_address(instr, regs))
    } else {
        regs
    }
}

/// R7 takes the return address; PC takes the target.
pub open spec fn jsr_effect(instr: u16, regs: Seq<u16>) -> Seq<u16> {
    let target = if long_mode(instr) {
        wrap_add(regs[PC as int], pc_offset11(instr))
    } else {
        regs[sr1(instr) as int]
    };
    regs.update(7, regs[PC as int]).update(PC as int, target)
}

/// LD: the word at PC + offset9 into DR.
pub open spec fn ld_effect(instr: u16, regs: Seq<u16>, mem: Seq<u16>) -> Seq<u16> {
    define(regs, dr(instr), mem[pc_address(instr, regs) as int])
}

/// LDI: the word whose address is at PC + offset9 into DR.
pub open spec fn ldi_effect(instr: u16, regs: Seq<u16>, mem: Seq<u16>) -> Seq<u16> {
    define(regs, dr(instr), mem[mem[pc_address(instr, regs) as int] as int])
}

/// LDR: the word at base + offset6 into DR.
pub open spec fn ldr_effect(instr: u16, regs: Seq<u16>, mem: Seq<u16>) -> Seq<u16> {
    define(regs, dr(instr), mem[base_address(instr, regs) as int])
}

/// LEA: the address PC + offset9 itself into DR.
pub open spec fn lea_effect(instr: u16, regs: Seq<u16>) -> Seq<u16> {
    define(regs, dr(instr), pc_address(instr, regs))
}

/// ST: SR into the word at PC + offset9.
pub open spec fn st_effect(instr: u16, regs: Seq<u16>, mem: Seq<u16>) -> Seq<u16> {
    mem.update(pc_address(instr, regs) as int, regs[dr(instr) as int])
}

/// STI: SR into the word whose address is at PC + offset9.
pub open spec fn sti_effect(instr: u16, regs: Seq<u16>, mem: Seq<u16>) -> Seq<u16> {
    mem.update(mem[pc_address(instr, regs) as int] as int, regs[dr(instr) as int])
}

/// STR: SR into the word at base + offset6.
pub open spec fn str_effect(instr: u16, regs: Seq<u16>, mem: Seq<u16>) -> Seq<u16> {
    mem.update(base_address(instr, regs) as int, regs[dr(instr) as int])
}

/// The registers after executing `instr`; TRAP, RTI and RES change none.
pub open spec fn execute_regs(instr: u16, regs: Seq<u16>, mem: Seq<u16>) -> Seq<u16> {
    match opcode(instr) {
        Opcode::Br => br_effect(instr, regs),
        Opcode::Add => add_effect(instr, regs),
        Opcode::Ld => ld_effect(instr, regs, mem),
        Opcode::Jsr => jsr_effect(instr, regs),
        Opcode::And => and_effect(instr, regs),
        Opcode::Ldr => ldr_effect(instr, regs, mem),
        Opcode::Not => not_effect(instr, regs),
        Opcode::Ldi => ldi_effect(instr, regs, mem),
        Opcode::Jmp => jmp_effect(instr, regs),
        Opcode::Lea => lea_effect(instr, regs),
        _ => regs,
    }
}

/// The memory after executing `instr`; only the stores change it.
pub open spec fn execute_mem(instr: u16, regs: Seq<u16>, mem: Seq<u16>) -> Seq<u16> {
    match opcode(instr) {
        Opcode::St => st_effect(instr, regs, mem),
        Opcode::Str => str_effect(instr, regs, mem),
        Opcode::Sti => sti_effect(instr, regs, mem),
        _ => mem,
    }
}

/// Adds two words modulo 2^16.
pub fn add_wrapping(a: u16, b: u16) -> (r: u16)
    ensures
        r == wrap_add(a, b),
{
    a.wrapping_add(b)
}

/// Writes `v` to general-purpose register `d` and sets the flags from it.
fn define_register(d: u16, v: u16, reg: &mut RegisterFile)
    requires
        old(reg).wf(),
        d < 8,
    ensures
        final(reg).wf(),
        final(reg)@ == define(old(reg)@, d, v),
{
    reg.set(d as usize, v);
    update_flags(d, reg);
}

/// The second operand of ADD and AND.
fn second_operand(instr: u16, reg: &RegisterFile) -> (r: u16)
    requires
        reg.wf(),
    ensures
        r == operand2(instr, reg@),
{
    if imm_mode_bit(instr) {
        imm5_field(instr)
    } else {
        reg.get(sr2_field(instr) as usize)
    }
}

/// ADD: DR = SR1 + (imm5 or SR2), modulo 2^16; sets the flags.
pub fn add(instr: u16, reg: &mut RegisterFile)
    requires
        old(reg).wf(),
    ensures
        final(reg).wf(),
        final(reg)@ == add_effect(instr, old(reg)@),
{
    let d = dr_field(instr);
    let a = reg.get(sr1_field(instr) as usize);
    let b = second_operand(instr, reg);
    define_register(d, add_wrapping(a, b), reg);
}

/// AND: DR = SR1 & (imm5 or SR2); sets the flags.
pub fn and(instr: u16, reg: &mut RegisterFile)
    requires
        old(reg).wf(),
    ensures
        final(reg).wf(),
        final(reg)@ == and_effect(instr, old(reg)@),
{
    let d = dr_field(instr);
    let a = reg.get(sr1_field(instr) as usize);
    let b = second_operand(instr, reg);
    define_register(d, a & b, reg);
}

/// NOT: DR = bitwise complement of SR1; sets the flags.
pub fn not(instr: u16, reg: &mut RegisterFile)
    requires
        old(reg).wf(),
    ensures
        final(reg).wf(),
        final(reg)@ == not_effect(instr, old(reg)@),
{
    let d = dr_field(instr);
    let a = reg.get(sr1_field(instr) as usize);
    define_register(d, !a, reg);
}

/// JMP (and RET, with R7): PC = SR1; the flags stay.
pub fn jmp(instr: u16, reg: &mut RegisterFile)
    requires
        old(reg).wf(),
    ensures
        final(reg).wf(),
        final(reg)@ == jmp_effect(instr, old(reg)@),
        final(reg)@[COND as int] == old(reg)@[COND as int],
{
    let target = reg.get(sr1_field(instr) as usize);
    reg.set(PC, target);
}

/// BR: adds the 9-bit offset to PC when a condition bit matches COND.
pub fn br(instr: u16, reg: &mut RegisterFile)
    requires
        old(reg).wf(),
    ensures
        final(reg).wf(),
        final(reg)@ == br_effect(instr, old(reg)@),
{
    let nzp = dr_field(instr);
    if nzp & reg.get(COND) != 0 {
        let target = add_wrapping(reg.get(PC), pc_offset9_field(instr));
        reg.set(PC, target);
    }
}

/// JSR and JSRR: R7 = PC, then PC = PC + offset11 or the base register.
pub fn jsr(instr: u16, reg: &mut RegisterFile)
    requires
        old(reg).wf(),
    ensures
        final(reg).wf(),
        final(reg)@ == jsr_effect(instr, old(reg)@),
{
    let pc = reg.get(PC);
    let target = if long_mode_bit(instr) {
        add_wrapping(pc, pc_offset11_field(instr))
    } else {
        reg.get(sr1_field(instr) as usize)
    };
    reg.set(7, pc);
    reg.set(PC, target);
}

/// The program counter plus the 9-bit offset.
fn pc_relative(instr: u16, reg: &RegisterFile) -> (r: u16)
    requires
        reg.wf(),
    ensures
        r == pc_address(instr, reg@),
{
    add_wrapping(reg.get(PC), pc_offset9_field(instr))
}

/// The base register plus the 6-bit offset.
fn base_relative(instr: u16, reg: &RegisterFile) -> (r: u16)
    requires
        reg.wf(),
    ensures
        r == base_address(instr, reg@),
{
    add_wrapping(reg.get(sr1_field(instr) as usize), offset6_field(instr))
}

/// LD: DR = memory[PC + offset9]; sets the flags.
pub fn ld(instr: u16, reg: &mut RegisterFile, memory: &Memory)
    requires
        old(reg).wf(),
        memory.wf(),
    ensures
        final(reg).wf(),
        final(reg)@ == ld_effect(instr, old(reg)@, memory@),
{
    let v = memory.read(pc_relative(instr, reg));
    define_register(dr_field(instr), v, reg);
}

/// LDI: DR = memory[memory[PC + offset9]]; sets the flags.
pub fn ldi(instr: u16, reg: &mut RegisterFile, memory: &Memory)
    requires
        old(reg).wf(),
        memory.wf(),
    ensures
        final(reg).wf(),
        final(reg)@ == ldi_effect(instr, old(reg)@, memory@),
{
    let pointer = memory.read(pc_relative(instr, reg));
    let v = memory.read(pointer);
    define_register(dr_field(instr), v, reg);
}

/// LDR: DR = memory[base + offset6]; sets the flags.
pub fn ldr(instr: u16, reg: &mut RegisterFile, memory: &Memory)
    requires
        old(reg).wf(),
        memory.wf(),
    ensures
        final(reg).wf(),
        final(reg)@ == ldr_effect(instr, old(reg)@, memory@),
{
    let v = memory.read(base_relative(instr, reg));
    define_register(dr_field(instr), v, reg);
}

/// LEA: DR = PC + offset9, the address itself; sets the flags.
pub fn lea(instr: u16, reg: &mut RegisterFile)
    requires
        old(reg).wf(),
    ensures
        final(reg).wf(),
        final(reg)@ == lea_effect(instr, old(reg)@),
{
    let v = pc_relative(instr, reg);
    define_register(dr_field(instr), v, reg);
}

/// ST: memory[PC + offset9] = SR.
pub fn st(instr: u16, reg: &RegisterFile, memory: &mut Memory)
    requires
        reg.wf(),
        old(memory).wf(),
    ensures
        final(memory).wf(),
        final(memory)@ == st_effect(instr, reg@, old(memory)@),
{
    let v = reg.get(dr_field(instr) as usize);
    memory.write(pc_relative(instr, reg), v);
}

/// STI: memory[memory[PC + offset9]] = SR.
pub fn sti(instr: u16, reg: &RegisterFile, memory: &mut Memory)
    requires
        reg.wf(),
        old(memory).wf(),
    ensures
        final(memory).wf(),
        final(memory)@ == sti_effect(instr, reg@, old(memory)@),
{
    let v = reg.get(dr_field(instr) as usize);
    let pointer = memory.read(pc_relative(instr, reg));
    memory.write(pointer, v);
}

/// STR: memory[base + offset6] = SR.
pub fn str(instr: u16, reg: &RegisterFile, memory: &mut Memory)
    requires
        reg.wf(),
        old(memory).wf(),
    ensures
        final(memory).wf(),
        final(memory)@ == str_effect(instr, reg@, old(memory)@),
{
    let v = reg.get(dr_field(instr) as usize);
    memory.write(base_relative(instr, reg), v);
}

} // verus!
