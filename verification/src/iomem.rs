//! A window of device registers: every access is checked against the size
//! of the window and the alignment of its width before the caller makes it.

use vstd::prelude::*;

verus! {

/// A window of `SIZE` bytes of device registers that begins at `ptr`.
#[derive(Clone, Copy, Debug, PartialEq, Eq)]
pub struct IoMem<const SIZE: usize> {
    pub ptr: usize,
}

/// A volatile load of `width` bytes from `address`.
#[derive(Clone, Copy, Debug, PartialEq, Eq, Structural)]
pub struct Load {
    pub address: usize,
    pub width: usize,
}

/// A volatile store of the low `width` bytes of `value` to `address`.
#[derive(Clone, Copy, Debug, PartialEq, Eq, Structural)]
pub struct Store {
    pub address: usize,
    pub width: usize,
    pub value: u64,
}

impl<const SIZE: usize> IoMem<SIZE> {
    /// Whether an access of `width` bytes at `offset` is allowed: it lies in
    /// the window, the offset is a multiple of the width, and the address
    /// does not leave the address space.
    pub open spec fn accepts(&self, offset: usize, width: usize) -> bool {
        width > 0 && offset + width <= SIZE && offset % width == 0 && self.ptr + offset
            <= usize::MAX
    }

    pub fn is_accepted(&self, offset: usize, width: usize) -> (r: bool)
        ensures
            r == self.accepts(offset, width),
    {
        width > 0 && offset <= SIZE && width <= SIZE - offset && offset % width == 0 && offset
            <= usize::MAX - self.ptr
    }

    pub fn new(ptr: usize) -> (r: Self)
        ensures
            r.ptr == ptr,
    {
        IoMem { ptr }
    }

    /// The load for a read of `width` bytes at `offset`.
    pub fn read(&self, offset: usize, width: usize) -> (r: Load)
        requires
            self.accepts(offset, width),
        ensures
            r == (Load { address: (self.ptr + offset) as usize, width }),
    {
        Load { address: self.ptr + offset, width }
    }

    /// The store for a write of `width` bytes at `offset`.
    pub fn write(&self, offset: usize, width: usize, value: u64) -> (r: Store)
        requires
            self.accepts(offset, width),
        ensures
            r == (Store { address: (self.ptr + offset) as usize, width, value }),
    {
        Store { address: self.ptr + offset, width, value }
    }

    pub fn read_u8(&self, offset: usize) -> (r: Load)
        requires
            self.accepts(offset, 1),
        ensures
            r == (Load { address: (self.ptr + offset) as usize, width: 1 }),
    {
        self.read(offset, 1)
    }

    pub fn read_u16(&self, offset: usize) -> (r: Load)
        requires
            self.accepts(offset, 2),
        ensures
            r == (Load { address: (self.ptr + offset) as usize, width: 2 }),
    {
        self.read(offset, 2)
    }

    pub fn read_u32(&self, offset: usize) -> (r: Load)
        requires
            self.accepts(offset, 4),
        ensures
            r == (Load { address: (self.ptr + offset) as usize, width: 4 }),
    {
        self.read(offset, 4)
    }

    pub fn read_u64(&self, offset: usize) -> (r: Load)
        requires
            self.accepts(offset, 8),
        ensures
            r == (Load { address: (self.ptr + offset) as usize, width: 8 }),
    {
        self.read(offset, 8)
    }

    pub fn write_u8(&self, offset: usize, value: u8) -> (r: Store)
        requires
            self.accepts(offset, 1),
        ensures
            r == (Store { address: (self.ptr + offset) as usize, width: 1, value: value as u64 }),
    {
        self.write(offset, 1, value as u64)
    }

    pub fn write_u16(&self, offset: usize, value: u16) -> (r: Store)
        requires
            self.accepts(offset, 2),
        ensures
            r == (Store { address: (self.ptr + offset) as usize, width: 2, value: value as u64 }),
    {
        self.write(offset, 2, value as u64)
    }

    pub fn write_u32(&self, offset: usize, value: u32) -> (r: Store)
        requires
            self.accepts(offset, 4),
        ensures
            r == (Store { address: (self.ptr + offset) as usize, width: 4, value: value as u64 }),
    {
        self.write(offset, 4, value as u64)
    }

    pub fn write_u64(&self, offset: usize, value: u64) -> (r: Store)
        requires
            self.accepts(offset, 8),
        ensures
            r == (Store { address: (self.ptr + offset) as usize, width: 8, value }),
    {
        self.write(offset, 8, value)
    }
}

} // verus!
