//! Bookkeeping of nested allocation scopes.
//!
//! A scope lends a memory range to an allocator and counts what is allocated
//! from it and not yet given back. Scopes nest, and a scope can only end with
//! nothing outstanding.

use vstd::prelude::*;
use crate::boot::{Region, STACK_SIZE};

verus! {

/// One scope: its memory range and the number of outstanding allocations.
#[derive(Clone, Copy, Debug, PartialEq, Eq, Structural)]
pub struct MemoryBlock {
    pub start: u64,
    pub end: u64,
    pub num: u64,
}

impl MemoryBlock {
    pub open spec fn holds(self, ptr: u64) -> bool {
        self.start <= ptr < self.end
    }
}

/// The scopes that are open, innermost last.
pub struct ScopedAllocator {
    pub blocks: Vec<MemoryBlock>,
}

/// Index of the innermost of the first `n` scopes whose range holds `ptr`.
pub open spec fn spec_owner(blocks: Seq<MemoryBlock>, n: int, ptr: u64) -> Option<int>
    decreases n,
{
    if n <= 0 {
        None
    } else if blocks[n - 1].holds(ptr) {
        Some(n - 1)
    } else {
        spec_owner(blocks, n - 1, ptr)
    }
}

impl ScopedAllocator {
    pub fn new() -> (r: Self)
        ensures
            r.blocks@.len() == 0,
    {
        ScopedAllocator { blocks: Vec::new() }
    }

    /// Number of open scopes.
    pub fn depth(&self) -> (r: usize)
        ensures
            r == self.blocks@.len(),
    {
        self.blocks.len()
    }

    /// Opens a scope over a memory range of its own.
    pub fn scoped_with_memory(&mut self, start: u64, len: u64)
        requires
            start + len <= u64::MAX,
        ensures
            final(self).blocks@ == old(self).blocks@.push(
                MemoryBlock { start, end: (start + len) as u64, num: 0 },
            ),
    {
        self.blocks.push(MemoryBlock { start, end: start + len, num: 0 });
    }

    /// Opens a scope over the memory of the scope around it.
    pub fn scoped(&mut self)
        requires
            old(self).blocks@.len() > 0,
        ensures
            final(self).blocks@ == old(self).blocks@.push(
                MemoryBlock { num: 0, ..old(self).blocks@.last() },
            ),
    {
        let parent: MemoryBlock = self.blocks[self.blocks.len() - 1];
        self.blocks.push(MemoryBlock { start: parent.start, end: parent.end, num: 0 });
    }

    /// Outstanding allocations of the innermost scope.
    pub fn outstanding(&self) -> (r: u64)
        requires
            self.blocks@.len() > 0,
        ensures
            r == self.blocks@.last().num,
    {
        self.blocks[self.blocks.len() - 1].num
    }

    /// Closes the innermost scope, which has nothing outstanding.
    pub fn leave(&mut self)
        requires
            old(self).blocks@.len() > 0,
            old(self).blocks@.last().num == 0,
        ensures
            final(self).blocks@ == old(self).blocks@.drop_last(),
    {
        self.blocks.pop();
    }

    /// Counts an allocation from the innermost scope. With no scope open the
    /// firmware's own heap serves the allocation and nothing is counted; a
    /// failed allocation is not counted either.
    pub fn count_alloc(&mut self, succeeded: bool)
        requires
            old(self).blocks@.len() > 0 && succeeded ==> old(self).blocks@.last().num < u64::MAX,
        ensures
            final(self).blocks@ == if old(self).blocks@.len() > 0 && succeeded {
                old(self).blocks@.update(
                    old(self).blocks@.len() - 1,
                    MemoryBlock {
                        num: (old(self).blocks@.last().num + 1) as u64,
                        ..old(self).blocks@.last()
                    },
                )
            } else {
                old(self).blocks@
            },
    {
        let n: usize = self.blocks.len();
        if n > 0 && succeeded {
            let top: MemoryBlock = self.blocks[n - 1];
            self.blocks[n - 1] = MemoryBlock { start: top.start, end: top.end, num: top.num + 1 };
        }
    }

    /// The scope that memory at `ptr` was allocated from: the innermost one
    /// whose range holds it. `None` means the firmware's own heap.
    pub fn owner(&self, ptr: u64) -> (r: Option<usize>)
        ensures
            match r {
                Some(i) => i < self.blocks@.len() && spec_owner(
                    self.blocks@,
                    self.blocks@.len() as int,
                    ptr,
                ) == Some(i as int) && self.blocks@[i as int].holds(ptr),
                None => spec_owner(self.blocks@, self.blocks@.len() as int, ptr).is_none(),
            },
    {
        let mut n: usize = self.blocks.len();
        while n > 0
            invariant
                n <= self.blocks@.len(),
                spec_owner(self.blocks@, self.blocks@.len() as int, ptr) == spec_owner(
                    self.blocks@,
                    n as int,
                    ptr,
                ),
            decreases n,
        {
            let block: MemoryBlock = self.blocks[n - 1];
            if block.start <= ptr && ptr < block.end {
                return Some(n - 1);
            }
            n = n - 1;
        }
        None
    }

    /// Counts the release of the memory at `ptr` in the scope it came from,
    /// and returns that scope; nothing is counted for the firmware's own heap.
    pub fn count_dealloc(&mut self, ptr: u64) -> (r: Option<usize>)
        requires
            match spec_owner(old(self).blocks@, old(self).blocks@.len() as int, ptr) {
                Some(i) => old(self).blocks@[i].num > 0,
                None => true,
            },
        ensures
            r.is_some() == spec_owner(old(self).blocks@, old(self).blocks@.len() as int, ptr)
                .is_some(),
            match r {
                Some(i) => spec_owner(old(self).blocks@, old(self).blocks@.len() as int, ptr)
                    == Some(i as int) && final(self).blocks@ == old(self).blocks@.update(
                    i as int,
                    MemoryBlock {
                        num: (old(self).blocks@[i as int].num - 1) as u64,
                        ..old(self).blocks@[i as int]
                    },
                ),
                None => final(self).blocks@ == old(self).blocks@,
            },
    {
        match self.owner(ptr) {
            Some(i) => {
                let block: MemoryBlock = self.blocks[i];
                self.blocks[i] = MemoryBlock {
                    start: block.start,
                    end: block.end,
                    num: block.num - 1,
                };
                Some(i)
            },
            None => None,
        }
    }
}

/// The firmware's own heap: from the end of its image to the begin of the
/// stacks, which take the top of memory, one for each hart. `None` if that
/// leaves nothing.
pub fn init(memory_base: u64, memory_size: u64, image_end: u64, hart_count: u64) -> (r: Option<
    Region,
>)
    requires
        hart_count <= 0xffff,
    ensures
        r == if memory_base + memory_size - STACK_SIZE * hart_count <= u64::MAX && image_end
            <= memory_base + memory_size - STACK_SIZE * hart_count {
            Some(
                Region {
                    start: image_end,
                    len: (memory_base + memory_size - STACK_SIZE * hart_count - image_end) as u64,
                },
            )
        } else {
            None
        },
{
    assert(STACK_SIZE * hart_count <= 0x4000 * 0xffff) by (nonlinear_arith)
        requires
            hart_count <= 0xffff,
    ;
    let stacks: u64 = STACK_SIZE * hart_count;
    match memory_base.checked_add(memory_size) {
        Some(top) => {
            if top >= stacks && image_end <= top - stacks {
                Some(Region { start: image_end, len: top - stacks - image_end })
            } else {
                None
            }
        },
        None => {
            // The stacks may bring the end back into range.
            let top: u128 = memory_base as u128 + memory_size as u128;
            let end: u128 = top - stacks as u128;
            if end <= u64::MAX as u128 && image_end as u128 <= end {
                Some(Region { start: image_end, len: (end - image_end as u128) as u64 })
            } else {
                None
            }
        },
    }
}

} // verus!
