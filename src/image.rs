use vstd::prelude::*;
use crate::memory::{Memory, MEMORY_SIZE};

verus! {

/// The big-endian word made of bytes `2 * i` and `2 * i + 1`.
pub open spec fn be_word(bytes: Seq<u8>, i: int) -> u16 {
    (bytes[2 * i] as int * 256 + bytes[2 * i + 1] as int) as u16
}

/// A program image is a whole number of big-endian words: the load address
/// first, then the words to place there, which must fit below the end of
/// memory.
pub open spec fn image_fits(bytes: Seq<u8>) -> bool {
    &&& bytes.len() >= 2
    &&& bytes.len() % 2 == 0
    &&& be_word(bytes, 0) + (bytes.len() / 2 - 1) <= MEMORY_SIZE
}

/// Splits a program image into its load address and its words; `None` when
/// the image is not a whole number of words, is empty, or runs past the end
/// of memory.
pub fn decode_image(bytes: &Vec<u8>) -> (r: Option<(u16, Vec<u16>)>)
    ensures
        r is Some <==> image_fits(bytes@),
        r matches Some((origin, words)) ==> {
            &&& origin == be_word(bytes@, 0)
            &&& words@.len() == bytes@.len() / 2 - 1
            &&& forall|i: int| 0 <= i < words@.len() ==> #[trigger] words@[i] == be_word(bytes@, i + 1)
        },
{
    let n = bytes.len();
    if n < 2 || n % 2 != 0 {
        return None;
    }
    let origin: u16 = bytes[0] as u16 * 256 + bytes[1] as u16;
    let count: usize = n / 2 - 1;
    if origin as usize + count > MEMORY_SIZE {
        return None;
    }
    let mut words: Vec<u16> = Vec::new();
    let mut i: usize = 0;
    while i < count
        invariant
            i <= count,
            count == bytes@.len() / 2 - 1,
            n == bytes@.len(),
            words@.len() == i,
            forall|k: int| 0 <= k < i ==> #[trigger] words@[k] == be_word(bytes@, k + 1),
        decreases count - i,
    {
        let w: u16 = bytes[2 * i + 2] as u16 * 256 + bytes[2 * i + 3] as u16;
        words.push(w);
        i = i + 1;
    }
    Some((origin, words))
}

impl Memory {
    /// Places `words` at consecutive addresses from `origin`; every other
    /// word stays as it was.
    pub fn load(&mut self, origin: u16, words: &Vec<u16>)
        requires
            old(self).wf(),
            origin + words@.len() <= MEMORY_SIZE,
        ensures
            final(self).wf(),
            forall|a: int|
                0 <= a < MEMORY_SIZE ==> #[trigger] final(self)@[a] == if origin <= a < origin
                    + words@.len() {
                    words@[a - origin]
                } else {
                    old(self)@[a]
                },
    {
        let mut i: usize = 0;
        while i < words.len()
            invariant
                self.wf(),
                i <= words@.len(),
                origin + words@.len() <= MEMORY_SIZE,
                forall|a: int|
                    0 <= a < MEMORY_SIZE ==> #[trigger] self@[a] == if origin <= a < origin + i {
                        words@[a - origin]
                    } else {
                        old(self)@[a]
                    },
            decreases words@.len() - i,
        {
            self.write((origin as usize + i) as u16, words[i]);
            i = i + 1;
        }
    }
}

} // verus!
