//! The bump allocator that thread stacks come from.
use vstd::prelude::*;

verus! {

/// Address at which the heap starts.
pub const HEAP_START: usize = 0x20_0000;

/// A bump allocator: every allocation takes the next suitably aligned
/// block after the previous one, and nothing is ever given back.
pub struct Heap {
    pub heap_base: usize,
}

/// `base` rounded up to the next multiple of `align`, when its low bits
/// below `align` are not all clear.
pub open spec fn align_up(base: usize, align: usize) -> int {
    if base & ((align - 1) as usize) != 0 {
        base + align - base % align
    } else {
        base as int
    }
}

impl Heap {
    /// An empty heap at `HEAP_START`.
    pub fn new() -> (r: Heap)
        ensures
            r.heap_base == HEAP_START,
    {
        Heap { heap_base: HEAP_START }
    }

    /// A heap whose next free byte is at `base`.
    pub fn at(base: usize) -> (r: Heap)
        ensures
            r.heap_base == base,
    {
        Heap { heap_base: base }
    }

    /// Takes `sz` bytes aligned to `align`: returns the block's address and
    /// moves the heap past its end.
    pub fn direct_alloc(&mut self, sz: usize, align: usize) -> (r: usize)
        requires
            align > 0,
            align_up(old(self).heap_base, align) + sz <= usize::MAX,
        ensures
            r as int == align_up(old(self).heap_base, align),
            final(self).heap_base as int == r + sz,
    {
        let alloc_base = self.heap_base;
        let mut actual = alloc_base;
        if actual & (align - 1) != 0 {
            actual = actual + (align - actual % align);
        }
        let end = actual + sz;
        let final_size = end - alloc_base;
        self.heap_base = self.heap_base + final_size;
        actual
    }

    /// Gives a block back; a bump allocator keeps it.
    pub fn direct_dealloc(&mut self, _ptr: usize)
        ensures
            final(self).heap_base == old(self).heap_base,
    {
    }
}

} // verus!
