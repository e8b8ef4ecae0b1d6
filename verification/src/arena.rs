//! The bump arena: a monotonic allocator over a fixed byte region.
//!
//! Task records live for the whole process, so the arena only ever moves a
//! cursor forward; nothing is freed.  The model tracks the cursor over the
//! region's byte offsets and proves that every allocation is aligned, lies
//! inside the region and is disjoint from every earlier one (offsets are
//! handed out in strictly non-overlapping ranges).  The surrounding program
//! owns the actual bytes and places values at the offsets the arena grants.

use vstd::prelude::*;

use vstd::arithmetic::div_mod::lemma_fundamental_div_mod;
use vstd::arithmetic::div_mod::lemma_mod_multiples_basic;

use crate::Fatal;

verus! {

/// The smallest offset at or after `c` that is a multiple of `a`.
pub open spec fn align_up(c: int, a: int) -> int {
    if c % a == 0 {
        c
    } else {
        c + a - c % a
    }
}

/// A bump allocator over a region of `capacity` bytes.
pub struct Arena {
    /// Size of the backing region in bytes.
    pub capacity: usize,
    /// Offset of the first byte not yet allocated.
    pub cursor: usize,
}

impl Arena {
    /// The cursor never leaves the region.
    pub open spec fn wf(&self) -> bool {
        self.cursor <= self.capacity
    }

    /// Creates an arena over a fresh region of `capacity` bytes.
    pub fn new(capacity: usize) -> (r: Arena)
        ensures
            r.wf(),
            r.capacity == capacity,
            r.cursor == 0,
    {
        Arena { capacity, cursor: 0 }
    }

    /// Claims `size` bytes aligned to `align`, the arena's part of placing
    /// one value into arena-owned memory.  Returns the offset of the
    /// claimed range; the range is aligned, starts at or after everything
    /// allocated before, and ends at the new cursor, so ranges of distinct
    /// allocations never overlap.  Fails with [`Fatal::ArenaExhausted`]
    /// exactly when the aligned range would leave the region.
    pub fn alloc_init(&mut self, size: usize, align: usize) -> (r: Result<usize, Fatal>)
        requires
            old(self).wf(),
            align >= 1,
        ensures
            final(self).wf(),
            final(self).capacity == old(self).capacity,
            match r {
                Ok(off) => {
                    &&& off == align_up(old(self).cursor as int, align as int)
                    &&& off as int % align as int == 0
                    &&& off >= old(self).cursor
                    &&& off + size <= old(self).capacity
                    &&& final(self).cursor == off + size
                },
                Err(e) => {
                    &&& e == Fatal::ArenaExhausted
                    &&& align_up(old(self).cursor as int, align as int) + size > old(
                        self,
                    ).capacity
                    &&& *final(self) == *old(self)
                },
            },
    {
        let rem = self.cursor % align;
        let pad = if rem == 0 {
            0
        } else {
            align - rem
        };
        if pad > self.capacity - self.cursor {
            return Err(Fatal::ArenaExhausted);
        }
        let off = self.cursor + pad;
        if size > self.capacity - off {
            return Err(Fatal::ArenaExhausted);
        }
        proof {
            if rem != 0 {
                lemma_fundamental_div_mod(self.cursor as int, align as int);
                lemma_mod_multiples_basic(self.cursor as int / align as int + 1, align as int);
                assert((self.cursor as int / align as int + 1) * align as int == self.cursor as int
                    + align as int - rem as int) by (nonlinear_arith)
                    requires
                        align as int != 0,
                        self.cursor as int == align as int * (self.cursor as int / align as int)
                            + rem as int,
                ;
            }
        }
        self.cursor = off + size;
        Ok(off)
    }
}

} // verus!
