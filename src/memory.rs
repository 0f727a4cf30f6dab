use vstd::prelude::*;

verus! {

/// Number of words in the address space.
pub const MEMORY_SIZE: usize = 65536;

/// A flat, word-addressed memory of `MEMORY_SIZE` 16-bit words.
pub struct Memory {
    cells: Vec<u16>,
}

impl View for Memory {
    type V = Seq<u16>;

    closed spec fn view(&self) -> Seq<u16> {
        self.cells@
    }
}

impl Memory {
    /// Every 16-bit address names a word.
    pub open spec fn wf(&self) -> bool {
        self@.len() == MEMORY_SIZE
    }

    /// A memory whose words are all zero.
    pub fn new() -> (m: Memory)
        ensures
            m.wf(),
            m@ == Seq::new(MEMORY_SIZE as nat, |i: int| 0u16),
    {
        let mut cells: Vec<u16> = Vec::new();
        let mut i: usize = 0;
        while i < MEMORY_SIZE
            invariant
                i <= MEMORY_SIZE,
                cells@ == Seq::new(i as nat, |k: int| 0u16),
            decreases MEMORY_SIZE - i,
        {
            cells.push(0);
            i = i + 1;
            assert(cells@ =~= Seq::new(i as nat, |k: int| 0u16));
        }
        Memory { cells }
    }

    /// The word at `address`.
    pub fn read(&self, address: u16) -> (r: u16)
        requires
            self.wf(),
        ensures
            r == self@[address as int],
    {
        self.cells[address as usize]
    }

    /// Stores `value` at `address`, leaving every other word as it was.
    pub fn write(&mut self, address: u16, value: u16)
        requires
            old(self).wf(),
        ensures
            final(self).wf(),
            final(self)@ == old(self)@.update(address as int, value),
    {
        self.cells.set(address as usize, value);
    }

    /// The words from `address` up to, not including, the first zero word,
    /// going on past the last address to the first; all of memory when no
    /// word is zero.
    pub fn string_at(&self, address: u16) -> (r: Vec<u16>)
        requires
            self.wf(),
        ensures
            r@.len() <= MEMORY_SIZE,
            forall|i: int|
                0 <= i < r@.len() ==> #[trigger] r@[i] == self@[(address + i) % 0x10000] && r@[i]
                    != 0,
            r@.len() < MEMORY_SIZE ==> self@[(address + r@.len()) % 0x10000] == 0,
    {
        let mut out: Vec<u16> = Vec::new();
        let mut i: usize = 0;
        while i < MEMORY_SIZE
            invariant
                i <= MEMORY_SIZE,
                self.wf(),
                out@.len() == i,
                forall|k: int|
                    0 <= k < i ==> #[trigger] out@[k] == self@[(address + k) % 0x10000] && out@[k]
                        != 0,
            decreases MEMORY_SIZE - i,
        {
            let a = ((address as usize + i) % MEMORY_SIZE) as u16;
            let w = self.read(a);
            if w == 0 {
                return out;
            }
            out.push(w);
            i = i + 1;
        }
        out
    }
}

/// The word of `memory` at `index`.
pub fn mem_read(index: u16, memory: &Memory) -> (r: u16)
    requires
        memory.wf(),
    ensures
        r == memory@[index as int],
{
    memory.read(index)
}

} // verus!
