//! The on-disk structures of an ext filesystem that reading a file needs, and
//! the arithmetic that finds an inode and the extent of a block.

use vstd::prelude::*;
use crate::bytes::{join, spec_join, spec_u16_at, spec_u32_at, u16_at, u32_at};

verus! {

pub const EXT_MAGIC: u16 = 0xEF53;

pub const EXTENT_MAGIC: u16 = 0xF30A;

pub const INCOMPAT_64BIT: u32 = 0x80;

/// The incompatible features that reading copes with.
pub const INCOMPAT_SUPPORTED: u32 = 0x2C6;

/// Inode flag: the block map is an extent tree.
pub const EXT4_EXTENTS_FL: u32 = 0x80000;

/// Length of the superblock as it is read.
pub const SUPERBLOCK_LEN: usize = 1024;

/// Length of an extent header and of each entry behind it.
pub const EXTENT_ENTRY_LEN: usize = 12;

/// Length of the record that a group descriptor is parsed from.
pub const GROUP_DESC_LEN: usize = 64;

/// Length of the record that an inode is parsed from.
pub const INODE_LEN: usize = 160;

/// Largest block size exponent that is accepted.
pub const MAX_LOG_BLOCK_SIZE: u32 = 20;

/// Why a filesystem cannot be read.
#[derive(Clone, Copy, Debug, PartialEq, Eq, Structural)]
pub enum ExtError {
    /// The superblock does not carry the ext magic.
    NotExt,
    /// The filesystem uses an incompatible feature that is not supported.
    Unsupported,
}

/// The superblock fields that reading uses.
#[derive(Clone, Copy, Debug, PartialEq, Eq, Structural)]
pub struct SuperBlock {
    pub log_block_size: u32,
    pub inodes_per_group: u32,
    pub magic: u16,
    pub rev_level: u32,
    pub inode_size: u16,
    pub feature_incompat: u32,
    pub desc_size: u8,
}

/// The group descriptor fields that reading uses.
#[derive(Clone, Copy, Debug, PartialEq, Eq, Structural)]
pub struct GroupDesc {
    pub inode_table_lo: u32,
    pub inode_table_hi: u32,
}

/// The inode fields that reading uses. `blocks` is the sixty-byte block map,
/// which holds the root of the extent tree.
#[derive(Debug)]
pub struct Inode {
    pub size_lo: u32,
    pub flags: u32,
    pub blocks: Vec<u8>,
    pub size_high: u32,
}

#[derive(Clone, Copy, Debug, PartialEq, Eq, Structural)]
pub struct ExtentHeader {
    pub magic: u16,
    pub entries: u16,
    pub max: u16,
    pub depth: u16,
}

/// An entry of an inner node of the extent tree: file blocks from `block` on
/// are found under the node in disk block `leaf_hi:leaf_lo`.
#[derive(Clone, Copy, Debug, PartialEq, Eq, Structural)]
pub struct ExtentIdx {
    pub block: u32,
    pub leaf_lo: u32,
    pub leaf_hi: u16,
}

/// An entry of a leaf of the extent tree: the `len` file blocks from `block`
/// on lie in the disk blocks from `start_hi:start_lo` on.
#[derive(Clone, Copy, Debug, PartialEq, Eq, Structural)]
pub struct Extent {
    pub block: u32,
    pub len: u16,
    pub start_hi: u16,
    pub start_lo: u32,
}

/// A directory entry as it lies on disk; `name` has `name_len` bytes.
#[derive(Debug)]
pub struct DirEntryRaw {
    pub inode: u32,
    pub rec_len: u16,
    pub name_len: u8,
    pub file_type: u8,
    pub name: Vec<u8>,
}

/// What a node of the extent tree is.
#[derive(Clone, Copy, Debug, PartialEq, Eq, Structural)]
pub enum ExtentType {
    Invalid,
    /// An inner node with this many entries.
    Branch(u16),
    /// A leaf with this many entries.
    Leaf(u16),
}

/// A four-byte field of a record that may be shorter than the field's end:
/// what is missing reads as zero.
pub open spec fn spec_field_u32(s: Seq<u8>, off: int) -> u32 {
    if off + 4 <= s.len() {
        spec_u32_at(s, off)
    } else {
        0
    }
}

pub fn field_u32(data: &[u8], off: usize) -> (r: u32)
    requires
        off <= 1024,
    ensures
        r == spec_field_u32(data@, off as int),
{
    if off + 4 <= data.len() {
        u32_at(data, off)
    } else {
        0
    }
}

impl SuperBlock {
    /// The fields as they lie in the superblock.
    pub open spec fn spec_raw(s: Seq<u8>) -> SuperBlock {
        SuperBlock {
            log_block_size: spec_u32_at(s, 24),
            inodes_per_group: spec_u32_at(s, 40),
            magic: spec_u16_at(s, 56),
            rev_level: spec_u32_at(s, 76),
            inode_size: spec_u16_at(s, 88),
            feature_incompat: spec_u32_at(s, 96),
            desc_size: s[254],
        }
    }

    /// The superblock as reading uses it. A filesystem of revision zero has no
    /// incompatible features, and without the 64-bit feature the group
    /// descriptors are 32 bytes long whatever the superblock says.
    pub open spec fn spec_parse(s: Seq<u8>) -> Result<SuperBlock, ExtError> {
        let raw = Self::spec_raw(s);
        let features = if raw.rev_level == 0 {
            0u32
        } else {
            raw.feature_incompat
        };
        if raw.magic != EXT_MAGIC {
            Err(ExtError::NotExt)
        } else if features & !INCOMPAT_SUPPORTED != 0 {
            Err(ExtError::Unsupported)
        } else {
            Ok(
                SuperBlock {
                    feature_incompat: features,
                    desc_size: if features & INCOMPAT_64BIT == 0 {
                        32u8
                    } else {
                        raw.desc_size
                    },
                    ..raw
                },
            )
        }
    }

    pub fn parse(data: &[u8]) -> (r: Result<SuperBlock, ExtError>)
        requires
            data@.len() == SUPERBLOCK_LEN,
        ensures
            r == Self::spec_parse(data@),
    {
        let magic: u16 = u16_at(data, 56);
        let rev_level: u32 = u32_at(data, 76);
        let mut features: u32 = u32_at(data, 96);
        let mut desc_size: u8 = data[254];
        if magic != EXT_MAGIC {
            return Err(ExtError::NotExt);
        }
        if rev_level == 0 {
            features = 0;
        }
        if features & !INCOMPAT_SUPPORTED != 0 {
            return Err(ExtError::Unsupported);
        }
        if features & INCOMPAT_64BIT == 0 {
            desc_size = 32;
        }
        Ok(
            SuperBlock {
                log_block_size: u32_at(data, 24),
                inodes_per_group: u32_at(data, 40),
                magic,
                rev_level,
                inode_size: u16_at(data, 88),
                feature_incompat: features,
                desc_size,
            },
        )
    }

    /// The block size is a power of two that a disk offset can hold, and a
    /// group has inodes.
    pub open spec fn wf(&self) -> bool {
        self.log_block_size <= MAX_LOG_BLOCK_SIZE && self.inodes_per_group > 0
    }

    pub fn is_wf(&self) -> (r: bool)
        ensures
            r == self.wf(),
    {
        self.log_block_size <= MAX_LOG_BLOCK_SIZE && self.inodes_per_group > 0
    }

    /// The number of bits by which a block number is shifted to give a byte
    /// offset: ten for the smallest block size of 1024 bytes.
    pub fn block_shift(&self) -> (r: u32)
        requires
            self.wf(),
        ensures
            r == self.log_block_size + 10,
    {
        self.log_block_size + 10
    }

    /// Byte offset of the descriptor of `group`. The descriptors begin in the
    /// block after the superblock: block two for blocks of 1024 bytes, block
    /// one otherwise.
    pub open spec fn spec_group_desc_offset(&self, group: u32) -> int {
        ((if self.log_block_size == 0 {
            2u64
        } else {
            1u64
        }) << ((self.log_block_size + 10) as u64)) + group * self.desc_size
    }

    pub fn group_desc_offset(&self, group: u32) -> (r: u64)
        requires
            self.wf(),
        ensures
            r == self.spec_group_desc_offset(group),
    {
        let first: u64 = if self.log_block_size == 0 {
            2
        } else {
            1
        };
        let shift: u64 = (self.log_block_size + 10) as u64;
        assert(first << shift <= 0x8000_0000) by (bit_vector)
            requires
                first <= 2,
                shift <= 30,
        ;
        assert(group * self.desc_size <= 0xffff_ffff * 0xff) by (nonlinear_arith)
            requires
                group <= 0xffff_ffff,
                self.desc_size <= 0xff,
        ;
        (first << shift) + group as u64 * self.desc_size as u64
    }

    /// The number of bytes of a group descriptor to read into a cleared
    /// record of `GROUP_DESC_LEN` bytes: the descriptor's size, at most the
    /// record's.
    pub fn desc_read_len(&self) -> (r: usize)
        ensures
            r == if self.desc_size as usize <= GROUP_DESC_LEN {
                self.desc_size as usize
            } else {
                GROUP_DESC_LEN
            },
    {
        if self.desc_size as usize <= GROUP_DESC_LEN {
            self.desc_size as usize
        } else {
            GROUP_DESC_LEN
        }
    }

    /// The number of bytes of an inode to read into a cleared record of
    /// `INODE_LEN` bytes: the inode's size, at most the record's.
    pub fn inode_read_len(&self) -> (r: usize)
        ensures
            r == if self.inode_size as usize <= INODE_LEN {
                self.inode_size as usize
            } else {
                INODE_LEN
            },
    {
        if self.inode_size as usize <= INODE_LEN {
            self.inode_size as usize
        } else {
            INODE_LEN
        }
    }

    /// Byte offset of inode `index` of a group whose inode table begins at
    /// block `table`; `None` if it does not fit.
    pub fn inode_offset(&self, table: u64, index: u32) -> (r: Option<u64>)
        requires
            self.wf(),
        ensures
            r == if table * (1u64 << ((self.log_block_size + 10) as u64)) + index
                * self.inode_size <= u64::MAX {
                Some(
                    (table * (1u64 << ((self.log_block_size + 10) as u64)) + index
                        * self.inode_size) as u64,
                )
            } else {
                None
            },
    {
        let shift: u64 = (self.log_block_size + 10) as u64;
        let unit: u64 = 1u64 << shift;
        assert(unit <= 0x4000_0000) by (bit_vector)
            requires
                unit == 1u64 << shift,
                shift <= 30,
        ;
        assert(table * unit <= 0xffff_ffff_ffff_ffff * 0x4000_0000 && index * self.inode_size
            <= 0xffff_ffff * 0xffff) by (nonlinear_arith)
            requires
                table <= 0xffff_ffff_ffff_ffff,
                unit <= 0x4000_0000,
                index <= 0xffff_ffff,
                self.inode_size <= 0xffff,
        ;
        let at: u128 = table as u128 * unit as u128 + index as u128 * self.inode_size as u128;
        if at <= u64::MAX as u128 {
            Some(at as u64)
        } else {
            None
        }
    }

    /// Size of a block in bytes.
    pub fn block_size(&self) -> (r: usize)
        requires
            self.wf(),
        ensures
            r == (1u64 << ((self.log_block_size + 10) as u64)),
            1024 <= r <= 0x4000_0000,
    {
        let shift: u64 = (self.log_block_size + 10) as u64;
        let unit: u64 = 1u64 << shift;
        assert(1024 <= unit <= 0x4000_0000) by (bit_vector)
            requires
                unit == 1u64 << shift,
                10 <= shift <= 30,
        ;
        unit as usize
    }

    /// Byte offset of disk block `block`; `None` if it does not fit.
    pub fn block_offset(&self, block: u64) -> (r: Option<u64>)
        requires
            self.wf(),
        ensures
            r == if block * (1u64 << ((self.log_block_size + 10) as u64)) <= u64::MAX {
                Some((block * (1u64 << ((self.log_block_size + 10) as u64))) as u64)
            } else {
                None
            },
    {
        self.inode_offset(block, 0)
    }

    /// The file block that byte `at` of a file lies in and its place in that
    /// block; `None` if the block's number does not fit.
    pub fn block_of(&self, at: u64) -> (r: Option<(u32, u64)>)
        requires
            self.wf(),
        ensures
            r == if at >> ((self.log_block_size + 10) as u64) <= u32::MAX {
                Some(
                    (
                        (at >> ((self.log_block_size + 10) as u64)) as u32,
                        at & (((1u64 << ((self.log_block_size + 10) as u64)) - 1) as u64),
                    ),
                )
            } else {
                None
            },
            match r {
                Some((_, within)) => within < (1u64 << ((self.log_block_size + 10) as u64)),
                None => true,
            },
    {
        let shift: u64 = (self.log_block_size + 10) as u64;
        let unit: u64 = 1u64 << shift;
        assert(unit >= 1 && at & ((unit - 1) as u64) < unit) by (bit_vector)
            requires
                unit == 1u64 << shift,
                shift <= 30,
        ;
        let block: u64 = at >> shift;
        if block <= u32::MAX as u64 {
            Some((block as u32, at & (unit - 1)))
        } else {
            None
        }
    }

    /// The group an inode belongs to and its index in the group's table.
    pub fn inode_location(&self, inode: u32) -> (r: (u32, u32))
        requires
            self.wf(),
            inode >= 1,
        ensures
            r.0 == (inode - 1) / (self.inodes_per_group as int),
            r.1 == (inode - 1) % (self.inodes_per_group as int),
    {
        ((inode - 1) / self.inodes_per_group, (inode - 1) % self.inodes_per_group)
    }
}

impl GroupDesc {
    /// The descriptor in a record of 32 or 64 bytes; the upper halves are zero
    /// in the short form.
    pub fn parse(data: &[u8]) -> (r: GroupDesc)
        requires
            data@.len() >= 12,
        ensures
            r == (GroupDesc {
                inode_table_lo: spec_u32_at(data@, 8),
                inode_table_hi: spec_field_u32(data@, 40),
            }),
    {
        GroupDesc { inode_table_lo: u32_at(data, 8), inode_table_hi: field_u32(data, 40) }
    }

    /// First block of the group's inode table.
    pub fn inode_table(&self) -> (r: u64)
        ensures
            r == spec_join(self.inode_table_hi, self.inode_table_lo),
    {
        join(self.inode_table_hi, self.inode_table_lo)
    }
}

impl Inode {
    /// The inode in a record of at least 100 bytes; a field that the record
    /// is too short for is zero.
    pub fn parse(data: &[u8]) -> (r: Inode)
        requires
            data@.len() >= 100,
        ensures
            r.size_lo == spec_u32_at(data@, 4),
            r.flags == spec_u32_at(data@, 32),
            r.blocks@ == data@.subrange(40, 100),
            r.size_high == spec_field_u32(data@, 108),
    {
        Inode {
            size_lo: u32_at(data, 4),
            flags: u32_at(data, 32),
            blocks: vstd::slice::slice_to_vec(vstd::slice::slice_subrange(data, 40, 100)),
            size_high: field_u32(data, 108),
        }
    }

    /// Length of the file in bytes.
    pub fn size(&self) -> (r: u64)
        ensures
            r == spec_join(self.size_high, self.size_lo),
    {
        join(self.size_high, self.size_lo)
    }

    /// Whether the block map is an extent tree.
    pub fn uses_extents(&self) -> (r: bool)
        ensures
            r == (self.flags & EXT4_EXTENTS_FL != 0),
    {
        self.flags & EXT4_EXTENTS_FL != 0
    }
}

/// The number of bytes a read of `len` bytes at `offset` gives in a file of
/// `size` bytes: what is left of the file from the offset on, at most `len`.
pub fn read_len(size: u64, offset: u64, len: usize) -> (r: usize)
    ensures
        r == if offset >= size {
            0
        } else if offset + len > size {
            (size - offset) as usize
        } else {
            len
        },
{
    if offset >= size {
        0
    } else if (len as u64) > size - offset {
        (size - offset) as usize
    } else {
        len
    }
}

impl ExtentHeader {
    pub fn parse(data: &[u8]) -> (r: ExtentHeader)
        requires
            data@.len() >= 12,
        ensures
            r == (ExtentHeader {
                magic: spec_u16_at(data@, 0),
                entries: spec_u16_at(data@, 2),
                max: spec_u16_at(data@, 4),
                depth: spec_u16_at(data@, 6),
            }),
    {
        ExtentHeader {
            magic: u16_at(data, 0),
            entries: u16_at(data, 2),
            max: u16_at(data, 4),
            depth: u16_at(data, 6),
        }
    }
}

impl ExtentIdx {
    pub open spec fn spec_at(s: Seq<u8>, i: int) -> ExtentIdx {
        ExtentIdx {
            block: spec_u32_at(s, 12 + 12 * i),
            leaf_lo: spec_u32_at(s, 16 + 12 * i),
            leaf_hi: spec_u16_at(s, 20 + 12 * i),
        }
    }

    /// Disk block of the node below.
    pub fn leaf(&self) -> (r: u64)
        ensures
            r == spec_join(self.leaf_hi as u32, self.leaf_lo),
    {
        join(self.leaf_hi as u32, self.leaf_lo)
    }
}

impl Extent {
    pub open spec fn spec_at(s: Seq<u8>, i: int) -> Extent {
        Extent {
            block: spec_u32_at(s, 12 + 12 * i),
            len: spec_u16_at(s, 16 + 12 * i),
            start_hi: spec_u16_at(s, 18 + 12 * i),
            start_lo: spec_u32_at(s, 20 + 12 * i),
        }
    }

    /// Whether file block `block` lies in the extent.
    pub open spec fn holds(self, block: u32) -> bool {
        self.block <= block && block - self.block < self.len
    }

    /// The disk offset at which byte `within` of file block `block` lies.
    pub open spec fn spec_disk_offset(self, shift: u32, block: u32, within: u64) -> int {
        (spec_join(self.start_hi as u32, self.start_lo) + (block - self.block)) * (1u64 << (
        shift as u64)) + within
    }

    /// The bytes that the extent holds from byte `within` of file block
    /// `block` on.
    pub open spec fn spec_room(self, shift: u32, block: u32, within: u64) -> int {
        (self.len - (block - self.block)) * (1u64 << (shift as u64)) - within
    }

    /// The next piece of a read that wants `want` bytes from byte `within` of
    /// file block `block`, which the extent holds: the disk offset to read
    /// at, and the length, which is what is wanted but no more than the
    /// extent has from there on. `None` if the disk offset does not fit.
    pub fn chunk(&self, shift: u32, block: u32, within: u64, want: usize) -> (r: Option<
        (u64, usize),
    >)
        requires
            shift <= 30,
            self.holds(block),
            within < (1u64 << (shift as u64)),
        ensures
            r == if self.spec_disk_offset(shift, block, within) <= u64::MAX {
                Some(
                    (
                        self.spec_disk_offset(shift, block, within) as u64,
                        if want <= self.spec_room(shift, block, within) {
                            want
                        } else {
                            self.spec_room(shift, block, within) as usize
                        },
                    ),
                )
            } else {
                None
            },
            self.spec_room(shift, block, within) > 0,
    {
        let unit: u64 = 1u64 << (shift as u64);
        assert(0 < unit <= 0x4000_0000) by (bit_vector)
            requires
                unit == 1u64 << (shift as u64),
                shift <= 30,
        ;
        let skip: u64 = (block - self.block) as u64;
        let blocks_left: u64 = self.len as u64 - skip;
        assert(blocks_left * unit <= 0xffff * 0x4000_0000 && blocks_left * unit >= unit)
            by (nonlinear_arith)
            requires
                1 <= blocks_left <= 0xffff,
                unit <= 0x4000_0000,
        ;
        let room: u64 = blocks_left * unit - within;
        let len: usize = if (want as u64) <= room {
            want
        } else {
            room as usize
        };
        let start: u64 = self.start();
        let hi: u16 = self.start_hi;
        let lo: u32 = self.start_lo;
        assert(start <= 0xffff_ffff_ffff) by (bit_vector)
            requires
                start == (((hi as u32) as u64) << 32) | (lo as u64),
        ;
        let first: u64 = start + skip;
        assert(first * unit <= 0x1_0000_ffff_ffff * 0x4000_0000) by (nonlinear_arith)
            requires
                first <= 0x1_0000_ffff_ffff,
                unit <= 0x4000_0000,
        ;
        let from: u128 = first as u128 * unit as u128 + within as u128;
        if from <= u64::MAX as u128 {
            Some((from as u64, len))
        } else {
            None
        }
    }

    /// First disk block of the extent.
    pub fn start(&self) -> (r: u64)
        ensures
            r == spec_join(self.start_hi as u32, self.start_lo),
    {
        join(self.start_hi as u32, self.start_lo)
    }
}

/// What a node is: invalid without the extent magic or with more entries than
/// it has room for behind its header, a leaf at depth zero, else an inner
/// node.
pub open spec fn spec_node_type(s: Seq<u8>) -> ExtentType {
    if spec_u16_at(s, 0) != EXTENT_MAGIC || spec_u16_at(s, 2) >= s.len() / 12 {
        ExtentType::Invalid
    } else if spec_u16_at(s, 6) == 0 {
        ExtentType::Leaf(spec_u16_at(s, 2))
    } else {
        ExtentType::Branch(spec_u16_at(s, 2))
    }
}

pub fn parse_node(data: &[u8]) -> (r: ExtentType)
    requires
        data@.len() >= 12,
    ensures
        r == spec_node_type(data@),
        match r {
            ExtentType::Leaf(n) => 12 + 12 * n <= data@.len(),
            ExtentType::Branch(n) => 12 + 12 * n <= data@.len(),
            ExtentType::Invalid => true,
        },
{
    let header: ExtentHeader = ExtentHeader::parse(data);
    if header.magic != EXTENT_MAGIC || header.entries as usize >= data.len() / 12 {
        ExtentType::Invalid
    } else if header.depth == 0 {
        ExtentType::Leaf(header.entries)
    } else {
        ExtentType::Branch(header.entries)
    }
}

/// Index of the last of the first `n` entries of a node whose first file
/// block is not above `block`. Entries lie in rising order of their first
/// block, so that this is the entry under which `block` is found.
pub open spec fn spec_last_at_most(s: Seq<u8>, n: int, block: u32) -> Option<int>
    decreases n,
{
    if n <= 0 {
        None
    } else if spec_u32_at(s, 12 + 12 * (n - 1)) <= block {
        Some(n - 1)
    } else {
        spec_last_at_most(s, n - 1, block)
    }
}

fn last_at_most(data: &[u8], count: u16, block: u32) -> (r: Option<usize>)
    requires
        12 + 12 * count <= data@.len(),
    ensures
        match r {
            Some(i) => i < count && spec_last_at_most(data@, count as int, block) == Some(
                i as int,
            ) && spec_u32_at(data@, 12 + 12 * i) <= block,
            None => spec_last_at_most(data@, count as int, block).is_none(),
        },
{
    let mut n: usize = count as usize;
    while n > 0
        invariant
            n <= count,
            12 + 12 * count <= data@.len(),
            spec_last_at_most(data@, count as int, block) == spec_last_at_most(
                data@,
                n as int,
                block,
            ),
        decreases n,
    {
        if u32_at(data, 12 + 12 * (n - 1)) <= block {
            return Some(n - 1);
        }
        n = n - 1;
    }
    None
}

/// The entry of an inner node under which `block` is found, if there is one.
pub fn search_branch(data: &[u8], count: u16, block: u32) -> (r: Option<ExtentIdx>)
    requires
        12 + 12 * count <= data@.len(),
    ensures
        r == match spec_last_at_most(data@, count as int, block) {
            Some(i) => Some(ExtentIdx::spec_at(data@, i)),
            None => None,
        },
{
    match last_at_most(data, count, block) {
        Some(i) => Some(
            ExtentIdx {
                block: u32_at(data, 12 + 12 * i),
                leaf_lo: u32_at(data, 16 + 12 * i),
                leaf_hi: u16_at(data, 20 + 12 * i),
            },
        ),
        None => None,
    }
}

/// The extent of a leaf that holds `block`, if there is one: the last extent
/// that begins at or before the block, provided it reaches that far.
pub fn search_leaf(data: &[u8], count: u16, block: u32) -> (r: Option<Extent>)
    requires
        12 + 12 * count <= data@.len(),
    ensures
        r == match spec_last_at_most(data@, count as int, block) {
            Some(i) => if block - Extent::spec_at(data@, i).block < Extent::spec_at(data@, i).len {
                Some(Extent::spec_at(data@, i))
            } else {
                None
            },
            None => None,
        },
        match r {
            Some(e) => e.holds(block),
            None => true,
        },
{
    match last_at_most(data, count, block) {
        Some(i) => {
            let extent = Extent {
                block: u32_at(data, 12 + 12 * i),
                len: u16_at(data, 16 + 12 * i),
                start_hi: u16_at(data, 18 + 12 * i),
                start_lo: u32_at(data, 20 + 12 * i),
            };
            if block - extent.block < extent.len as u32 {
                Some(extent)
            } else {
                None
            }
        },
        None => None,
    }
}

impl DirEntryRaw {
    /// The entry at the begin of `data`, with as much of its name as `data`
    /// holds.
    pub fn parse(data: &[u8]) -> (r: DirEntryRaw)
        requires
            data@.len() >= 8,
        ensures
            r.inode == spec_u32_at(data@, 0),
            r.rec_len == spec_u16_at(data@, 4),
            r.name_len == data@[6],
            r.file_type == data@[7],
            r.name@ == data@.subrange(
                8,
                if 8 + data@[6] <= data@.len() {
                    8 + data@[6]
                } else {
                    data@.len() as int
                },
            ),
    {
        let name_len: u8 = data[6];
        let end: usize = if 8 + name_len as usize <= data.len() {
            8 + name_len as usize
        } else {
            data.len()
        };
        DirEntryRaw {
            inode: u32_at(data, 0),
            rec_len: u16_at(data, 4),
            name_len,
            file_type: data[7],
            name: vstd::slice::slice_to_vec(vstd::slice::slice_subrange(data, 8, end)),
        }
    }

    pub fn is_file(&self) -> (r: bool)
        ensures
            r == (self.file_type == 1),
    {
        self.file_type == 1
    }

    pub fn is_dir(&self) -> (r: bool)
        ensures
            r == (self.file_type == 2),
    {
        self.file_type == 2
    }

    /// Whether the name is `.` or `..`.
    pub open spec fn spec_is_dot(name: Seq<u8>) -> bool {
        name == seq![0x2eu8] || name == seq![0x2eu8, 0x2eu8]
    }

    pub fn is_dot(&self) -> (r: bool)
        ensures
            r == Self::spec_is_dot(self.name@),
    {
        let dot: bool = self.name.len() == 1 && self.name[0] == 0x2e;
        let dotdot: bool = self.name.len() == 2 && self.name[0] == 0x2e && self.name[1] == 0x2e;
        proof {
            if dot {
                assert(self.name@ =~= seq![0x2eu8]);
            }
            if dotdot {
                assert(self.name@ =~= seq![0x2eu8, 0x2eu8]);
            }
            if self.name@ == seq![0x2eu8] {
                assert(self.name@.len() == 1 && self.name@[0] == 0x2e);
            }
            if self.name@ == seq![0x2eu8, 0x2eu8] {
                assert(self.name@.len() == 2 && self.name@[0] == 0x2e && self.name@[1] == 0x2e);
            }
        }
        dot || dotdot
    }

    /// Whether a directory listing passes the entry over, given whether its
    /// name is valid UTF-8: it is unused, its name is not text, or it names
    /// the directory itself or its parent.
    pub fn is_skipped_given(&self, name_is_utf8: bool) -> (r: bool)
        ensures
            r == (self.inode == 0 || !name_is_utf8 || Self::spec_is_dot(self.name@)),
    {
        self.inode == 0 || !name_is_utf8 || self.is_dot()
    }

    /// Whether a directory listing passes the entry over.
    pub fn is_skipped(&self) -> (r: bool)
        ensures
            r == (self.inode == 0 || !utf8_valid(self.name@) || Self::spec_is_dot(self.name@)),
    {
        let valid: bool = is_utf8(self.name.as_slice());
        self.is_skipped_given(valid)
    }
}

/// Whether a byte string is valid UTF-8, as `core::str::from_utf8` judges it.
pub uninterp spec fn utf8_valid(bytes: Seq<u8>) -> bool;

/// `core::str::from_utf8`: whether it accepts the bytes.
#[verifier::external_body]
fn is_utf8(bytes: &[u8]) -> (r: bool)
    ensures
        r == utf8_valid(bytes@),
{
    core::str::from_utf8(bytes).is_ok()
}

/// One step of listing a directory.
#[derive(Debug)]
pub enum DirStep {
    /// Nothing was left to read: the listing is over.
    End,
    /// Less than the fixed part of an entry was left: the directory is
    /// damaged.
    Short,
    /// An entry to pass over; the next one lies `advance` bytes on.
    Skip { advance: u16 },
    /// An entry; the next one lies `advance` bytes on.
    Entry { advance: u16, entry: DirEntryRaw },
}

/// Looks at what a read at the current position of a directory returned.
pub fn dir_step(data: &[u8]) -> (r: DirStep)
    ensures
        data@.len() == 0 ==> r is End,
        0 < data@.len() < 8 ==> r is Short,
        data@.len() >= 8 ==> match r {
            DirStep::Skip { advance } => advance == spec_u16_at(data@, 4) && (spec_u32_at(data@, 0)
                == 0 || !utf8_valid(spec_entry_name(data@)) || DirEntryRaw::spec_is_dot(
                spec_entry_name(data@),
            )),
            DirStep::Entry { advance, entry } => advance == spec_u16_at(data@, 4) && entry.inode
                == spec_u32_at(data@, 0) && entry.inode != 0 && entry.rec_len == advance
                && entry.name_len == data@[6] && entry.file_type == data@[7] && entry.name@
                == spec_entry_name(data@) && utf8_valid(entry.name@) && !DirEntryRaw::spec_is_dot(
                entry.name@,
            ),
            _ => false,
        },
{
    if data.len() == 0 {
        DirStep::End
    } else if data.len() < 8 {
        DirStep::Short
    } else {
        let entry: DirEntryRaw = DirEntryRaw::parse(data);
        if entry.is_skipped() {
            DirStep::Skip { advance: entry.rec_len }
        } else {
            DirStep::Entry { advance: entry.rec_len, entry }
        }
    }
}

/// The name of the entry at the begin of `data`, as far as `data` holds it.
pub open spec fn spec_entry_name(data: Seq<u8>) -> Seq<u8> {
    data.subrange(
        8,
        if 8 + data[6] <= data.len() {
            8 + data[6]
        } else {
            data.len() as int
        },
    )
}

} // verus!
