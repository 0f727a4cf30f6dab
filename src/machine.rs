use vstd::prelude::*;
use crate::decode::{
    decode_opcode, dr, opcode, trap_vector, trap_vector_field, Opcode,
};
use crate::instructions::{
    add_wrapping, and, base_address, br, execute_mem, execute_regs, jmp, jsr, ld, ldi, ldr,
    lea, not, pc_address, st, sti, str, wrap_add,
};
use crate::memory::Memory;
use crate::registers::{RegisterFile, PC, PC_START};

verus! {

/// What one step of the machine came to.
#[derive(Clone, Copy, Debug, PartialEq, Eq, Structural)]
pub enum Outcome {
    /// The instruction was executed; the machine goes on.
    Continue,
    /// A TRAP with this vector: the trap service is to run it.
    Trap(u8),
    /// The opcode has no handler; the machine has halted.
    Unsupported(Opcode),
    /// The machine had already halted; nothing was done.
    Halted,
}

/// RTI and RES have no handler in user mode.
pub open spec fn unsupported(op: Opcode) -> bool {
    op == Opcode::Rti || op == Opcode::Res
}

/// The registers once the program counter has moved past the fetched word.
pub open spec fn advance(regs: Seq<u16>) -> Seq<u16> {
    regs.update(PC as int, wrap_add(regs[PC as int], 1))
}

/// The word that the program counter points at.
pub open spec fn fetched(regs: Seq<u16>, mem: Seq<u16>) -> u16 {
    mem[regs[PC as int] as int]
}

/// The outcome of executing `instr` on a running machine.
pub open spec fn outcome_of(instr: u16) -> Outcome {
    if unsupported(opcode(instr)) {
        Outcome::Unsupported(opcode(instr))
    } else if opcode(instr) == Opcode::Trap {
        Outcome::Trap(trap_vector(instr))
    } else {
        Outcome::Continue
    }
}

/// The registers after one step of a running machine.
pub open spec fn next_regs(regs: Seq<u16>, mem: Seq<u16>) -> Seq<u16> {
    execute_regs(fetched(regs, mem), advance(regs), mem)
}

/// The memory after one step of a running machine.
pub open spec fn next_mem(regs: Seq<u16>, mem: Seq<u16>) -> Seq<u16> {
    execute_mem(fetched(regs, mem), advance(regs), mem)
}

/// The address that LD or LDR reads.
pub open spec fn load_address(instr: u16, regs: Seq<u16>) -> u16 {
    if opcode(instr) == Opcode::Ld {
        pc_address(instr, regs)
    } else {
        base_address(instr, regs)
    }
}

/// The address that ST or STR writes.
pub open spec fn store_address(instr: u16, regs: Seq<u16>) -> u16 {
    if opcode(instr) == Opcode::St {
        pc_address(instr, regs)
    } else {
        base_address(instr, regs)
    }
}

/// Executes `instr` with the program counter already past it. TRAP, RTI and
/// RES change nothing here.
pub fn execute(instr: u16, reg: &mut RegisterFile, memory: &mut Memory)
    requires
        old(reg).wf(),
        old(memory).wf(),
    ensures
        final(reg).wf(),
        final(memory).wf(),
        final(reg)@ == execute_regs(instr, old(reg)@, old(memory)@),
        final(memory)@ == execute_mem(instr, old(reg)@, old(memory)@),
{
    match decode_opcode(instr) {
        Opcode::Br => br(instr, reg),
        Opcode::Add => crate::instructions::add(instr, reg),
        Opcode::Ld => ld(instr, reg, memory),
        Opcode::St => st(instr, reg, memory),
        Opcode::Jsr => jsr(instr, reg),
        Opcode::And => and(instr, reg),
        Opcode::Ldr => ldr(instr, reg, memory),
        Opcode::Str => str(instr, reg, memory),
        Opcode::Not => not(instr, reg),
        Opcode::Ldi => ldi(instr, reg, memory),
        Opcode::Sti => sti(instr, reg, memory),
        Opcode::Jmp => jmp(instr, reg),
        Opcode::Lea => lea(instr, reg),
        Opcode::Rti | Opcode::Res | Opcode::Trap => {},
    }
}

/// A machine: memory, registers, and whether it is still running.
pub struct Machine {
    pub memory: Memory,
    pub registers: RegisterFile,
    pub running: bool,
}

impl Machine {
    pub open spec fn wf(&self) -> bool {
        self.memory.wf() && self.registers.wf()
    }

    /// A running machine with zeroed memory and registers and the program
    /// counter at `PC_START`.
    pub fn new() -> (m: Machine)
        ensures
            m.wf(),
            m.running,
            m.memory@ == Seq::new(0x10000, |i: int| 0u16),
            m.registers@ == Seq::new(10, |i: int| 0u16).update(PC as int, PC_START),
    {
        Machine { memory: Memory::new(), registers: RegisterFile::new(PC_START), running: true }
    }

    /// Stops the machine, as a halting trap does.
    pub fn halt(&mut self)
        ensures
            !final(self).running,
            final(self).memory == old(self).memory,
            final(self).registers == old(self).registers,
    {
        self.running = false;
    }

    /// Fetches the word at PC, moves PC past it, and executes it. An
    /// unsupported opcode halts the machine; a TRAP is handed back to the
    /// caller with its vector.
    pub fn step(&mut self) -> (r: Outcome)
        requires
            old(self).wf(),
        ensures
            final(self).wf(),
            !old(self).running ==> r == Outcome::Halted && *final(self) == *old(self),
            old(self).running ==> {
                let instr = fetched(old(self).registers@, old(self).memory@);
                &&& r == outcome_of(instr)
                &&& final(self).registers@ == next_regs(old(self).registers@, old(self).memory@)
                &&& final(self).memory@ == next_mem(old(self).registers@, old(self).memory@)
                &&& final(self).running == !unsupported(opcode(instr))
            },
    {
        if !self.running {
            return Outcome::Halted;
        }
        let pc = self.registers.get(PC);
        let instr = self.memory.read(pc);
        self.registers.set(PC, add_wrapping(pc, 1));
        let op = decode_opcode(instr);
        match op {
            Opcode::Rti | Opcode::Res => {
                self.running = false;
                Outcome::Unsupported(op)
            },
            Opcode::Trap => Outcome::Trap(trap_vector_field(instr)),
            _ => {
                execute(instr, &mut self.registers, &mut self.memory);
                Outcome::Continue
            },
        }
    }
}

/// An unsupported opcode halts the machine and changes nothing but the
/// program counter's advance past the fetched word.
pub proof fn lemma_unsupported_halts(regs: Seq<u16>, mem: Seq<u16>)
    requires
        regs.len() == 10,
        mem.len() == 0x10000,
        unsupported(opcode(fetched(regs, mem))),
    ensures
        next_regs(regs, mem) == advance(regs),
        next_mem(regs, mem) == mem,
        outcome_of(fetched(regs, mem)) == Outcome::Unsupported(opcode(fetched(regs, mem))),
{
}

/// Loading a word with LD or LDR and then storing the same register with ST
/// or STR to the same computed address leaves memory as it was.
pub proof fn lemma_load_store_round_trip(regs: Seq<u16>, mem: Seq<u16>)
    requires
        regs.len() == 10,
        mem.len() == 0x10000,
        ({
            let load = fetched(regs, mem);
            let regs1 = next_regs(regs, mem);
            let store = fetched(regs1, next_mem(regs, mem));
            &&& (opcode(load) == Opcode::Ld || opcode(load) == Opcode::Ldr)
            &&& (opcode(store) == Opcode::St || opcode(store) == Opcode::Str)
            &&& dr(store) == dr(load)
            &&& store_address(store, advance(regs1)) == load_address(load, advance(regs))
        }),
    ensures
        next_mem(next_regs(regs, mem), next_mem(regs, mem)) == mem,
{
    let load = fetched(regs, mem);
    let regs1 = next_regs(regs, mem);
    let a = load_address(load, advance(regs));
    let d = dr(load);
    assert(d < 8) by (bit_vector)
        requires
            d == (load >> 9u16) & 7u16,
    ;
    assert(advance(regs1)[d as int] == mem[a as int]);
    assert(next_mem(regs1, mem) =~= mem);
}

} // verus!
