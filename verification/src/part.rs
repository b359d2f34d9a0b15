//! The first partition of a disk with a master boot record.

use vstd::prelude::*;
use crate::bytes::{spec_u32_at, u32_at};

verus! {

/// Size of a sector, and of the boot record.
pub const SECTOR_SIZE: usize = 512;

/// Offset of the first partition entry in the boot record.
pub const FIRST_ENTRY: usize = 0x1BE;

/// Partition type of FAT32 with LBA addressing.
pub const TYPE_FAT32_LBA: u8 = 0x0C;

/// Why a boot record was refused.
#[derive(Clone, Copy, Debug, PartialEq, Eq, Structural)]
pub enum PartError {
    /// The record does not end in the signature 55 AA.
    NotValid,
    /// The first partition is not FAT32.
    Unsupported,
}

/// A partition: the byte offset on the disk at which it begins.
#[derive(Clone, Copy, Debug, PartialEq, Eq, Structural)]
pub struct Part {
    pub offset: u64,
}

/// What the boot record says of the first partition: its byte offset, which
/// is its first sector times the sector size.
pub open spec fn spec_first_partition(mbr: Seq<u8>) -> Result<Part, PartError> {
    if mbr[510] != 0x55 || mbr[511] != 0xAA {
        Err(PartError::NotValid)
    } else if mbr[450] != TYPE_FAT32_LBA {
        Err(PartError::Unsupported)
    } else {
        Ok(Part { offset: (spec_u32_at(mbr, 454) * 512) as u64 })
    }
}

impl Part {
    pub fn new(offset: u64) -> (r: Self)
        ensures
            r.offset == offset,
    {
        Part { offset }
    }

    /// Reads the first partition entry of a boot record.
    pub fn first_partition(mbr: &[u8]) -> (r: Result<Part, PartError>)
        requires
            mbr@.len() == SECTOR_SIZE,
        ensures
            r == spec_first_partition(mbr@),
    {
        if mbr[510] != 0x55 || mbr[511] != 0xAA {
            return Err(PartError::NotValid);
        }
        if mbr[FIRST_ENTRY + 4] != TYPE_FAT32_LBA {
            return Err(PartError::Unsupported);
        }
        let lba: u32 = u32_at(mbr, FIRST_ENTRY + 8);
        Ok(Part { offset: lba as u64 * 512 })
    }

    /// The position on the disk of byte `offset` of the partition; `None` if
    /// it lies beyond what a disk offset can say.
    pub fn translate(&self, offset: u64) -> (r: Option<u64>)
        ensures
            r == if offset + self.offset <= u64::MAX {
                Some((offset + self.offset) as u64)
            } else {
                None
            },
    {
        offset.checked_add(self.offset)
    }
}

} // verus!
