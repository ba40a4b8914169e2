//! The heap arena: a contiguous run of 32-bit words at a word-aligned base
//! address, read through bounds-checked accessors.

use vstd::prelude::*;
use crate::error::HeapError;

verus! {

/// A flat heap of words. `base` is the address of `words[0]`; the heap
/// covers addresses `base ..= base + 4 * words.len() - 1`.
pub struct Heap {
    pub base: u32,
    pub words: Vec<u32>,
}

impl Heap {
    /// The base is aligned and nonzero, and every contained address stays
    /// representable (the top three bytes of the address space are unused).
    pub open spec fn wf(self) -> bool {
        &&& self.base % 4 == 0
        &&& self.base >= 4
        &&& self.base + 4 * self.words@.len() <= 0xffff_fffcu32
    }

    /// One past the last heap address.
    pub open spec fn spec_end(self) -> int {
        self.base + 4 * self.words@.len()
    }

    /// Whether a whole word at address `a` lies inside the heap.
    pub open spec fn contains(self, a: int) -> bool {
        &&& self.base <= a
        &&& a + 4 <= self.spec_end()
        &&& (a - self.base) % 4 == 0
    }

    /// The word stored at address `a`.
    pub open spec fn word(self, a: int) -> u32 {
        self.words@[(a - self.base) / 4]
    }

    /// Build a heap from a base address and its words, rejecting a layout
    /// that is unaligned or would run past the representable address range.
    pub fn new(base: u32, words: Vec<u32>) -> (r: Result<Heap, HeapError>)
        ensures
            match r {
                Ok(h) => h.wf() && h.base == base && h.words@ == words@,
                Err(e) => {
                    &&& e == HeapError::OutOfHeap
                    &&& !(Heap { base, words }.wf())
                },
            },
    {
        if base % 4 != 0 || base < 4 {
            return Err(HeapError::OutOfHeap);
        }
        if words.len() as u64 > (0xffff_fffcu64 - base as u64) / 4 {
            return Err(HeapError::OutOfHeap);
        }
        let h = Heap { base, words };
        assert(h.base + 4 * h.words@.len() <= 0xffff_fffcu32);
        Ok(h)
    }

    /// One past the last heap address.
    pub fn end(&self) -> (e: u32)
        requires
            self.wf(),
        ensures
            e == self.spec_end(),
    {
        self.base + 4 * (self.words.len() as u32)
    }

    /// Whether a whole word at address `a` lies inside the heap.
    pub fn contains_addr(&self, a: u32) -> (b: bool)
        requires
            self.wf(),
        ensures
            b == self.contains(a as int),
    {
        let e = self.end();
        self.base <= a && a as u64 + 4 <= e as u64 && (a - self.base) % 4 == 0
    }

    /// Read the word at address `a`.
    pub fn load(&self, a: u32) -> (w: u32)
        requires
            self.wf(),
            self.contains(a as int),
        ensures
            w == self.word(a as int),
    {
        let idx = ((a - self.base) / 4) as usize;
        self.words[idx]
    }
}

} // verus!
