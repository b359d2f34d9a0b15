//! What the boot hart computes on the way to the kernel: where memory is
//! split, what the loaded file unpacks to, where the device tree goes and
//! which harts are woken.

use vstd::prelude::*;
use crate::elf::{load_elf, spec_high, spec_phnum, spec_planned, spec_refusal, LoadPlan};
use crate::inflate::{inflate, is_gzip, spec_inflate, spec_is_gzip, InflateError};

verus! {

/// Memory at the top of the region that the firmware keeps for itself.
pub const FIRMWARE_RESERVED: u64 = 0x20_0000;

/// Size of the stack of each hart.
pub const STACK_SIZE: u64 = 0x4000;

/// A memory range: first address and length in bytes.
#[derive(Clone, Copy, Debug, PartialEq, Eq, Structural)]
pub struct Region {
    pub start: u64,
    pub len: u64,
}

/// The memory below the firmware's own: from the base of memory up to the
/// reserved top.
pub fn kernel_region(memory_base: u64, memory_size: u64) -> (r: Region)
    requires
        memory_size >= FIRMWARE_RESERVED,
    ensures
        r == (Region { start: memory_base, len: (memory_size - FIRMWARE_RESERVED) as u64 }),
{
    Region { start: memory_base, len: memory_size - FIRMWARE_RESERVED }
}

/// The upper half of the kernel's memory, lent to the loader as scratch space
/// while the image is fetched and unpacked; `None` if it does not fit the
/// address space.
pub fn scratch_region(kernel: Region) -> (r: Option<Region>)
    ensures
        r == if kernel.start + kernel.len / 2 <= u64::MAX {
            Some(Region { start: (kernel.start + kernel.len / 2) as u64, len: kernel.len / 2 })
        } else {
            None
        },
{
    match kernel.start.checked_add(kernel.len / 2) {
        Some(start) => Some(Region { start, len: kernel.len / 2 }),
        None => None,
    }
}

/// The kernel image in a loaded file: the file unpacked if it is a gzip
/// member, the file itself otherwise.
pub fn unpack_kernel(file: Vec<u8>) -> (r: Result<Vec<u8>, InflateError>)
    ensures
        !spec_is_gzip(file@) ==> r.is_ok() && r.unwrap()@ == file@,
        spec_is_gzip(file@) ==> match r {
            Ok(v) => spec_inflate(file@) == Ok::<Seq<u8>, InflateError>(v@),
            Err(e) => spec_inflate(file@) == Err::<Seq<u8>, InflateError>(e),
        },
{
    if is_gzip(file.as_slice()) {
        inflate(file.as_slice())
    } else {
        Ok(file)
    }
}

/// Where the device tree goes: right behind the memory that the kernel image
/// takes.
pub fn dtb_address(memory_base: u64, kernel_size: u64) -> (r: Option<u64>)
    ensures
        r == if memory_base + kernel_size <= u64::MAX {
            Some((memory_base + kernel_size) as u64)
        } else {
            None
        },
{
    memory_base.checked_add(kernel_size)
}

/// Lays out a kernel image that [`crate::elf::check_elf`] does not refuse
/// for the kernel's memory, and places the device tree right behind the
/// highest end of a loaded segment.
pub fn place_kernel(image: &[u8], kernel: Region) -> (r: (LoadPlan, u64))
    requires
        kernel.start + kernel.len <= u64::MAX,
        spec_refusal(image@, kernel.start, kernel.len).is_none(),
    ensures
        spec_planned(image@, kernel.start, r.0),
        r.1 == spec_high(image@, spec_phnum(image@)),
        r.1 == kernel.start + r.0.size,
        kernel.start <= r.0.entry < r.1,
        r.1 <= kernel.start + kernel.len,
{
    let plan: LoadPlan = load_elf(image, kernel.start, kernel.len);
    let dtb: u64 = kernel.start + plan.size;
    (plan, dtb)
}

/// The harts that the boot hart wakes: all but hart zero, in rising order.
pub fn secondary_harts(hart_count: usize) -> (r: Vec<usize>)
    ensures
        r@.len() == if hart_count == 0 {
            0
        } else {
            hart_count - 1
        },
        forall|i: int| 0 <= i < r@.len() ==> r@[i] == i + 1,
{
    let mut out: Vec<usize> = Vec::new();
    let mut hart: usize = 1;
    while hart < hart_count
        invariant
            1 <= hart,
            hart <= hart_count || (hart_count == 0 && hart == 1),
            out@.len() == hart - 1,
            forall|i: int| 0 <= i < out@.len() ==> out@[i] == i + 1,
        decreases hart_count - hart,
    {
        out.push(hart);
        hart = hart + 1;
    }
    out
}

} // verus!
