use vstd::prelude::*;
use crate::flags::{cond_for, flag_of};

verus! {

/// Slot of the program counter.
pub const PC: usize = 8;

/// Slot of the condition register.
pub const COND: usize = 9;

/// Number of slots: eight general-purpose registers, PC and COND.
pub const REG_COUNT: usize = 10;

/// Program counter at start-up, where programs are conventionally loaded.
pub const PC_START: u16 = 0x3000;

/// Names of the register file's slots.
#[derive(Clone, Copy, Debug, PartialEq, Eq, Structural)]
pub enum Register {
    R0,
    R1,
    R2,
    R3,
    R4,
    R5,
    R6,
    R7,
    Pc,
    Cond,
}

/// The slot that a register name stands for.
pub open spec fn slot(r: Register) -> int {
    match r {
        Register::R0 => 0,
        Register::R1 => 1,
        Register::R2 => 2,
        Register::R3 => 3,
        Register::R4 => 4,
        Register::R5 => 5,
        Register::R6 => 6,
        Register::R7 => 7,
        Register::Pc => 8,
        Register::Cond => 9,
    }
}

impl Register {
    /// The slot of this register.
    pub fn index(&self) -> (r: usize)
        ensures
            r as int == slot(*self),
    {
        match self {
            Register::R0 => 0,
            Register::R1 => 1,
            Register::R2 => 2,
            Register::R3 => 3,
            Register::R4 => 4,
            Register::R5 => 5,
            Register::R6 => 6,
            Register::R7 => 7,
            Register::Pc => 8,
            Register::Cond => 9,
        }
    }
}

/// Eight general-purpose registers, the program counter and the condition
/// register, each an unsigned 16-bit word.
pub struct RegisterFile {
    slots: Vec<u16>,
}

impl View for RegisterFile {
    type V = Seq<u16>;

    closed spec fn view(&self) -> Seq<u16> {
        self.slots@
    }
}

impl RegisterFile {
    /// There is one word per slot.
    pub open spec fn wf(&self) -> bool {
        self@.len() == REG_COUNT
    }

    /// All registers zero but the program counter, which holds `pc`.
    pub fn new(pc: u16) -> (r: RegisterFile)
        ensures
            r.wf(),
            r@ == Seq::new(REG_COUNT as nat, |i: int| 0u16).update(PC as int, pc),
    {
        let mut slots: Vec<u16> = Vec::new();
        let mut i: usize = 0;
        while i < REG_COUNT
            invariant
                i <= REG_COUNT,
                slots@ == Seq::new(i as nat, |k: int| 0u16),
            decreases REG_COUNT - i,
        {
            slots.push(0);
            i = i + 1;
            assert(slots@ =~= Seq::new(i as nat, |k: int| 0u16));
        }
        slots.set(PC, pc);
        RegisterFile { slots }
    }

    /// The word in slot `index`.
    pub fn get(&self, index: usize) -> (v: u16)
        requires
            self.wf(),
            index < REG_COUNT,
        ensures
            v == self@[index as int],
    {
        self.slots[index]
    }

    /// Puts `value` in slot `index`, leaving the other slots as they were.
    pub fn set(&mut self, index: usize, value: u16)
        requires
            old(self).wf(),
            index < REG_COUNT,
        ensures
            final(self).wf(),
            final(self)@ == old(self)@.update(index as int, value),
    {
        self.slots.set(index, value);
    }

    /// The word in register `r`.
    pub fn read(&self, r: Register) -> (v: u16)
        requires
            self.wf(),
        ensures
            v == self@[slot(r)],
    {
        self.get(r.index())
    }

    /// Puts `value` in register `r`, leaving the others as they were.
    pub fn write(&mut self, r: Register, value: u16)
        requires
            old(self).wf(),
        ensures
            final(self).wf(),
            final(self)@ == old(self)@.update(slot(r), value),
    {
        let i = r.index();
        self.set(i, value);
    }
}

/// Sets the condition register from the value of general-purpose register `r`.
pub fn update_flags(r: u16, reg: &mut RegisterFile)
    requires
        old(reg).wf(),
        r < 8,
    ensures
        final(reg).wf(),
        final(reg)@ == old(reg)@.update(COND as int, cond_for(old(reg)@[r as int])),
{
    let v = reg.get(r as usize);
    let bits = flag_of(v).bits();
    reg.set(COND, bits);
}

} // verus!
