//! The on-disk structures of a FAT32 volume: the boot sector, the
//! allocation table and directory entries.

use vstd::prelude::*;
use vstd::slice::slice_subrange;
use crate::le::{read_u16_le, read_u32_le, spec_u16_le, spec_u32_le};

verus! {

/// Size of a sector, the only one supported.
pub const SECTOR_SIZE: u32 = 512;

/// Size of a directory entry.
pub const DIR_ENTRY_LEN: usize = 32;

/// Attribute byte of an entry that holds a part of a long name.
pub const ATTR_LONG_NAME: u8 = 0x0F;

pub const ATTR_VOLUME_ID: u8 = 0x08;

pub const ATTR_DIRECTORY: u8 = 0x10;

/// Why a volume cannot be read.
#[derive(Clone, Copy, Debug, PartialEq, Eq, Structural)]
pub enum FatError {
    /// The volume is FAT12 or FAT16.
    NotFat32,
    /// The sectors are not 512 bytes long.
    SectorSize,
    /// The data area begins beyond what a sector number can say.
    Malformed,
}

/// What the allocation table says of a cluster.
#[derive(Clone, Copy, Debug, PartialEq, Eq, Structural)]
pub enum FatEntry {
    Free,
    Next(u32),
    Bad,
    End,
}

/// The geometry of a volume.
#[derive(Clone, Copy, Debug, PartialEq, Eq, Structural)]
pub struct FileSystem {
    pub sectors_per_cluster: u32,
    pub reserved_sector_count: u32,
    pub first_data_sector: u32,
    pub root_cluster: u32,
}

/// The two bytes at `off` as a little-endian number.
pub open spec fn spec_u16_in(s: Seq<u8>, off: int) -> u16 {
    spec_u16_le(s[off], s[off + 1])
}

/// The four bytes at `off` as a little-endian number.
pub open spec fn spec_u32_in(s: Seq<u8>, off: int) -> u32 {
    spec_u32_le(s[off], s[off + 1], s[off + 2], s[off + 3])
}

fn u16_in(data: &[u8], off: usize) -> (r: u16)
    requires
        off + 2 <= data@.len(),
    ensures
        r == spec_u16_in(data@, off as int),
{
    let len: usize = data.len();
    assert(off + 2 <= len);
    read_u16_le(slice_subrange(data, off, off + 2))
}

fn u32_in(data: &[u8], off: usize) -> (r: u32)
    requires
        off + 4 <= data@.len(),
    ensures
        r == spec_u32_in(data@, off as int),
{
    let len: usize = data.len();
    assert(off + 4 <= len);
    read_u32_le(slice_subrange(data, off, off + 4))
}

/// The meaning of an entry of the allocation table.
pub open spec fn spec_fat_entry(value: u32) -> FatEntry {
    if value == 0 {
        FatEntry::Free
    } else if value == 0x0FFF_FFF7 {
        FatEntry::Bad
    } else if 0x0FFF_FFF8 <= value <= 0x0FFF_FFFF {
        FatEntry::End
    } else {
        FatEntry::Next(value)
    }
}

pub fn fat_entry(value: u32) -> (r: FatEntry)
    ensures
        r == spec_fat_entry(value),
{
    if value == 0 {
        FatEntry::Free
    } else if value == 0x0FFF_FFF7 {
        FatEntry::Bad
    } else if 0x0FFF_FFF8 <= value && value <= 0x0FFF_FFFF {
        FatEntry::End
    } else {
        FatEntry::Next(value)
    }
}

impl FileSystem {
    /// What the boot sector says of the volume. The data area begins behind
    /// the reserved sectors and the allocation tables.
    pub open spec fn spec_parse(s: Seq<u8>) -> Result<FileSystem, FatError> {
        let reserved = spec_u16_in(s, 0x0E) as int;
        let first_data = reserved + s[0x10] * spec_u32_in(s, 0x24);
        if spec_u16_in(s, 0x16) != 0 {
            Err(FatError::NotFat32)
        } else if spec_u16_in(s, 0x0B) != 512 {
            Err(FatError::SectorSize)
        } else if first_data > u32::MAX {
            Err(FatError::Malformed)
        } else {
            Ok(
                FileSystem {
                    sectors_per_cluster: s[0x0D] as u32,
                    reserved_sector_count: reserved as u32,
                    first_data_sector: first_data as u32,
                    root_cluster: spec_u32_in(s, 0x2C),
                },
            )
        }
    }

    pub fn new(boot: &[u8]) -> (r: Result<FileSystem, FatError>)
        requires
            boot@.len() == 512,
        ensures
            r == Self::spec_parse(boot@),
    {
        if u16_in(boot, 0x16) != 0 {
            return Err(FatError::NotFat32);
        }
        if u16_in(boot, 0x0B) != 512 {
            return Err(FatError::SectorSize);
        }
        let reserved: u32 = u16_in(boot, 0x0E) as u32;
        let fat_count: u32 = boot[0x10] as u32;
        let fat_size: u32 = u32_in(boot, 0x24);
        assert(fat_count * fat_size <= 0xff * 0xffff_ffff) by (nonlinear_arith)
            requires
                fat_count <= 0xff,
                fat_size <= 0xffff_ffff,
        ;
        let first_data: u64 = reserved as u64 + fat_count as u64 * fat_size as u64;
        if first_data > u32::MAX as u64 {
            return Err(FatError::Malformed);
        }
        Ok(
            FileSystem {
                sectors_per_cluster: boot[0x0D] as u32,
                reserved_sector_count: reserved,
                first_data_sector: first_data as u32,
                root_cluster: u32_in(boot, 0x2C),
            },
        )
    }

    /// Where the table entry of `cluster` lies: the sector, and the offset in
    /// it. Entries are four bytes long and begin behind the reserved sectors.
    pub fn fat_position(&self, cluster: u32) -> (r: (u64, usize))
        ensures
            r.0 == self.reserved_sector_count + (cluster * 4) / 512,
            r.1 == (cluster * 4) % 512,
    {
        let fat_offset: u64 = cluster as u64 * 4;
        (self.reserved_sector_count as u64 + fat_offset / 512, (fat_offset % 512) as usize)
    }

    /// The entry of the allocation table at `offset` of a table sector.
    pub fn read_fat_entry(sector: &[u8], offset: usize) -> (r: FatEntry)
        requires
            offset + 4 <= sector@.len(),
        ensures
            r == spec_fat_entry(spec_u32_in(sector@, offset as int)),
    {
        fat_entry(u32_in(sector, offset))
    }

    /// The sector that holds sector `index` of a data cluster. Data clusters
    /// are numbered from two.
    pub fn data_sector(&self, cluster: u32, index: u32) -> (r: u64)
        requires
            cluster >= 2,
        ensures
            r == self.first_data_sector + (cluster - 2) * self.sectors_per_cluster + index,
    {
        assert((cluster - 2) * self.sectors_per_cluster <= 0xffff_ffff * 0xffff_ffff)
            by (nonlinear_arith)
            requires
                cluster - 2 <= 0xffff_ffff,
                self.sectors_per_cluster <= 0xffff_ffff,
        ;
        self.first_data_sector as u64 + (cluster - 2) as u64 * self.sectors_per_cluster as u64
            + index as u64
    }

    /// The number of sectors to read at once from sector `index` of a
    /// cluster into a buffer of `len` bytes: as many whole sectors as the
    /// buffer holds and the cluster has left, but at least one.
    pub fn sectors_to_read(&self, index: u32, len: usize) -> (r: u32)
        requires
            index < self.sectors_per_cluster,
        ensures
            r >= 1,
            r <= self.sectors_per_cluster - index,
            r == if len / 512 == 0 {
                1int
            } else if len / 512 < self.sectors_per_cluster - index {
                (len / 512) as int
            } else {
                self.sectors_per_cluster - index
            },
    {
        let left: u32 = self.sectors_per_cluster - index;
        let fit: usize = len / 512;
        if fit == 0 {
            1
        } else if fit < left as usize {
            fit as u32
        } else {
            left
        }
    }
}

/// What the thirty-two bytes of a directory slot are.
#[derive(Clone, Copy, Debug, PartialEq, Eq, Structural)]
pub enum Slot {
    /// The end of the directory.
    End,
    /// A deleted entry.
    Deleted,
    /// A part of a long name; `index` counts the parts from zero.
    LongName { index: u8 },
    /// The label of the volume.
    VolumeLabel,
    /// A file or a directory.
    Entry { cluster: u32, size: u32, dir: bool },
}

/// What a directory slot is.
pub open spec fn spec_slot(e: Seq<u8>) -> Slot {
    if e[0] == 0 {
        Slot::End
    } else if e[0] == 0xE5 {
        Slot::Deleted
    } else if e[11] == ATTR_LONG_NAME {
        Slot::LongName { index: (((e[0] & 0x3f) as int - 1) % 256) as u8 }
    } else if e[11] & ATTR_VOLUME_ID != 0 {
        Slot::VolumeLabel
    } else {
        Slot::Entry {
            cluster: ((spec_u16_in(e, 20) as u32) << 16) | (spec_u16_in(e, 26) as u32),
            size: spec_u32_in(e, 28),
            dir: e[11] & ATTR_DIRECTORY != 0,
        }
    }
}

pub fn slot(entry: &[u8]) -> (r: Slot)
    requires
        entry@.len() == DIR_ENTRY_LEN,
    ensures
        r == spec_slot(entry@),
{
    if entry[0] == 0 {
        Slot::End
    } else if entry[0] == 0xE5 {
        Slot::Deleted
    } else if entry[11] == ATTR_LONG_NAME {
        Slot::LongName { index: (entry[0] & 0x3f).wrapping_sub(1) }
    } else if entry[11] & ATTR_VOLUME_ID != 0 {
        Slot::VolumeLabel
    } else {
        Slot::Entry {
            cluster: ((u16_in(entry, 20) as u32) << 16) | (u16_in(entry, 26) as u32),
            size: u32_in(entry, 28),
            dir: entry[11] & ATTR_DIRECTORY != 0,
        }
    }
}

/// Unit `k` of the thirteen UTF-16 units that a long-name slot holds: five
/// from offset 1, six from offset 14, two from offset 28.
pub open spec fn spec_long_name_unit(e: Seq<u8>, k: int) -> u16 {
    if k < 5 {
        spec_u16_in(e, 1 + 2 * k)
    } else if k < 11 {
        spec_u16_in(e, 14 + 2 * (k - 5))
    } else {
        spec_u16_in(e, 28 + 2 * (k - 11))
    }
}

/// The thirteen UTF-16 units of a long-name slot.
pub fn long_name_units(entry: &[u8]) -> (r: Vec<u16>)
    requires
        entry@.len() == DIR_ENTRY_LEN,
    ensures
        r@.len() == 13,
        forall|k: int| 0 <= k < 13 ==> r@[k] == spec_long_name_unit(entry@, k),
{
    let mut out: Vec<u16> = Vec::new();
    let mut k: usize = 0;
    while k < 13
        invariant
            k <= 13,
            entry@.len() == 32,
            out@.len() == k,
            forall|j: int| 0 <= j < k ==> out@[j] == spec_long_name_unit(entry@, j),
        decreases 13 - k,
    {
        let off: usize = if k < 5 {
            1 + 2 * k
        } else if k < 11 {
            14 + 2 * (k - 5)
        } else {
            28 + 2 * (k - 11)
        };
        out.push(u16_in(entry, off));
        k = k + 1;
    }
    out
}

/// A byte of a short name as it appears in the file name: nothing for a
/// blank, else the character with that code, in lower case if asked, in
/// UTF-8.
pub open spec fn spec_name_char(b: u8, lowercase: bool) -> Seq<u8> {
    let c: u8 = if lowercase && 0x41 <= b <= 0x5a {
        (b + 0x20) as u8
    } else {
        b
    };
    if b == 0x20 {
        Seq::empty()
    } else if c < 0x80 {
        seq![c]
    } else {
        seq![0xC0u8 | (c >> 6), 0x80u8 | (c & 0x3f)]
    }
}

/// The characters of the bytes `from..to` of a slot.
pub open spec fn spec_name_part(e: Seq<u8>, from: int, to: int, lowercase: bool) -> Seq<u8>
    decreases to - from,
{
    if to <= from {
        Seq::empty()
    } else {
        spec_name_part(e, from, to - 1, lowercase) + spec_name_char(e[to - 1], lowercase)
    }
}

/// The file name that a short-name slot spells: base name, a dot if there is
/// an extension, extension; each in lower case if its flag says so.
pub open spec fn spec_short_name(e: Seq<u8>) -> Seq<u8> {
    spec_name_part(e, 0, 8, e[12] & 0x08 != 0) + (if e[8] != 0x20 {
        seq![0x2eu8]
    } else {
        Seq::empty()
    }) + spec_name_part(e, 8, 11, e[12] & 0x10 != 0)
}

fn push_part(out: &mut Vec<u8>, entry: &[u8], from: usize, to: usize, lowercase: bool)
    requires
        from <= to <= entry@.len(),
    ensures
        final(out)@ == old(out)@ + spec_name_part(entry@, from as int, to as int, lowercase),
{
    let mut i: usize = from;
    assert(out@ =~= old(out)@ + spec_name_part(entry@, from as int, from as int, lowercase));
    while i < to
        invariant
            from <= i <= to <= entry@.len(),
            out@ == old(out)@ + spec_name_part(entry@, from as int, i as int, lowercase),
        decreases to - i,
    {
        let b: u8 = entry[i];
        let c: u8 = if lowercase && 0x41 <= b && b <= 0x5a {
            b + 0x20
        } else {
            b
        };
        if b != 0x20 {
            if c < 0x80 {
                out.push(c);
            } else {
                out.push(0xC0u8 | (c >> 6));
                out.push(0x80u8 | (c & 0x3f));
            }
        }
        i = i + 1;
        assert(out@ =~= old(out)@ + spec_name_part(entry@, from as int, i as int, lowercase));
    }
}

/// The file name of a slot that has no long name.
pub fn short_name(entry: &[u8]) -> (r: Vec<u8>)
    requires
        entry@.len() == DIR_ENTRY_LEN,
    ensures
        r@ == spec_short_name(entry@),
{
    let mut out: Vec<u8> = Vec::new();
    push_part(&mut out, entry, 0, 8, entry[12] & 0x08 != 0);
    if entry[8] != 0x20 {
        out.push(0x2e);
    }
    push_part(&mut out, entry, 8, 11, entry[12] & 0x10 != 0);
    assert(out@ =~= spec_short_name(entry@));
    out
}

} // verus!
