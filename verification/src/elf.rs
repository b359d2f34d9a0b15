//! Laying out a 64-bit RISC-V ELF image for loading: the headers are checked
//! and every loadable segment is given its place above the load address.

use vstd::prelude::*;
use crate::bytes::{spec_u16_at, spec_u32_at, spec_u64_at, u16_at, u32_at, u64_at};

verus! {

pub const PT_LOAD: u32 = 1;

pub const ET_EXEC: u16 = 2;

pub const ET_DYN: u16 = 3;

pub const EM_RISCV: u16 = 243;

/// Length of the file header.
pub const EHDR_LEN: usize = 64;

/// Length of a program header.
pub const PHDR_LEN: usize = 56;

/// Why an image was refused.
#[derive(Clone, Copy, Debug, PartialEq, Eq, Structural)]
pub enum ElfError {
    /// Shorter than a file header, or without the ELF magic.
    NotElf,
    /// Neither an executable nor a shared object.
    NotExecutable,
    /// Not made for RISC-V.
    NotRiscv,
    /// A loadable segment is larger in the file than in memory.
    BadSegment,
    /// A program header or the data of a loadable segment lies beyond the
    /// file.
    Malformed,
    /// A loadable segment has physical addresses outside the kernel's
    /// memory.
    OutsideRegion,
    /// No loadable segment holds the entry point.
    NoEntry,
}

/// The fields of a program header that loading reads.
#[derive(Clone, Copy, Debug, PartialEq, Eq, Structural)]
pub struct Phdr {
    pub p_type: u32,
    pub p_offset: u64,
    pub p_vaddr: u64,
    pub p_paddr: u64,
    pub p_filesz: u64,
    pub p_memsz: u64,
}

/// One loadable segment: copy `file_size` bytes from offset `src` of the
/// image to physical address `dest`, then clear `zero_size` bytes behind
/// them.
#[derive(Clone, Copy, Debug, PartialEq, Eq, Structural)]
pub struct Segment {
    pub src: u64,
    pub dest: u64,
    pub file_size: u64,
    pub zero_size: u64,
}

/// The loadable segments in the order of their headers; the memory the image
/// takes, counted from the base of the kernel's memory to the highest end of
/// a segment; and the physical address to enter the kernel at.
pub struct LoadPlan {
    pub segments: Vec<Segment>,
    pub size: u64,
    pub entry: u64,
}

/// An image to load.
pub struct Loader {
    pub memory: Vec<u8>,
}

pub open spec fn spec_phnum(s: Seq<u8>) -> int {
    spec_u16_at(s, 56) as int
}

/// Offset of program header `i` in the file.
pub open spec fn spec_phdr_off(s: Seq<u8>, i: int) -> int {
    spec_u64_at(s, 32) + spec_u16_at(s, 54) * i
}

pub open spec fn spec_phdr(s: Seq<u8>, i: int) -> Phdr {
    let off = spec_phdr_off(s, i);
    Phdr {
        p_type: spec_u32_at(s, off),
        p_offset: spec_u64_at(s, off + 8),
        p_vaddr: spec_u64_at(s, off + 16),
        p_paddr: spec_u64_at(s, off + 24),
        p_filesz: spec_u64_at(s, off + 32),
        p_memsz: spec_u64_at(s, off + 40),
    }
}

/// Whether every program header lies inside the file.
pub open spec fn spec_headers_fit(s: Seq<u8>) -> bool {
    forall|i: int| 0 <= i < spec_phnum(s) ==> #[trigger] spec_phdr_off(s, i) + 56 <= s.len()
}

pub open spec fn spec_is_load(s: Seq<u8>, i: int) -> bool {
    spec_phdr(s, i).p_type == PT_LOAD
}

/// Whether some loadable segment is larger in the file than in memory.
pub open spec fn spec_bad(s: Seq<u8>) -> bool {
    exists|i: int|
        0 <= i < spec_phnum(s) && #[trigger] spec_is_load(s, i) && spec_phdr(s, i).p_filesz
            > spec_phdr(s, i).p_memsz
}

/// Whether the data of segment `i` lies inside the file.
pub open spec fn spec_in_file(s: Seq<u8>, i: int) -> bool {
    spec_phdr(s, i).p_offset + spec_phdr(s, i).p_filesz <= s.len()
}

/// Whether the data of some loadable segment lies beyond the file.
pub open spec fn spec_truncated(s: Seq<u8>) -> bool {
    exists|i: int| 0 <= i < spec_phnum(s) && #[trigger] spec_is_load(s, i) && !spec_in_file(s, i)
}

/// Whether the physical addresses of segment `i` lie in the kernel's memory,
/// which begins at `base` and is `room` bytes long.
pub open spec fn spec_in_region(s: Seq<u8>, base: u64, room: u64, i: int) -> bool {
    base <= spec_phdr(s, i).p_paddr && spec_phdr(s, i).p_paddr + spec_phdr(s, i).p_memsz <= base
        + room
}

/// Whether some loadable segment has physical addresses outside the kernel's
/// memory.
pub open spec fn spec_outside(s: Seq<u8>, base: u64, room: u64) -> bool {
    exists|i: int|
        0 <= i < spec_phnum(s) && #[trigger] spec_is_load(s, i) && !spec_in_region(
            s,
            base,
            room,
            i,
        )
}

/// Highest physical end of a loadable segment among the first `n` headers;
/// zero if there is none.
pub open spec fn spec_high(s: Seq<u8>, n: int) -> int
    decreases n,
{
    if n <= 0 {
        0
    } else if spec_is_load(s, n - 1) && spec_phdr(s, n - 1).p_paddr + spec_phdr(s, n - 1).p_memsz
        > spec_high(s, n - 1) {
        spec_phdr(s, n - 1).p_paddr + spec_phdr(s, n - 1).p_memsz
    } else {
        spec_high(s, n - 1)
    }
}

/// Whether the virtual addresses of segment `i` hold the entry point.
pub open spec fn spec_holds_entry(s: Seq<u8>, i: int) -> bool {
    spec_is_load(s, i) && spec_phdr(s, i).p_vaddr <= spec_u64_at(s, 24) < spec_phdr(s, i).p_vaddr
        + spec_phdr(s, i).p_memsz
}

/// The physical address of the entry point: as far above the physical begin
/// of the first loadable segment among the first `n` that holds it as it
/// lies above that segment's virtual begin. `None` if none holds it.
pub open spec fn spec_entry(s: Seq<u8>, n: int) -> Option<int>
    decreases n,
{
    if n <= 0 {
        None
    } else if spec_entry(s, n - 1).is_some() {
        spec_entry(s, n - 1)
    } else if spec_holds_entry(s, n - 1) {
        Some(spec_phdr(s, n - 1).p_paddr + (spec_u64_at(s, 24) - spec_phdr(s, n - 1).p_vaddr))
    } else {
        None
    }
}

/// What loading does for loadable header `i`: its data in the file goes to
/// its physical address, and what its size in memory exceeds its size in the
/// file by is cleared behind that.
pub open spec fn spec_segment_of(s: Seq<u8>, i: int) -> Segment {
    let h = spec_phdr(s, i);
    Segment {
        src: h.p_offset,
        dest: h.p_paddr,
        file_size: h.p_filesz,
        zero_size: (h.p_memsz - h.p_filesz) as u64,
    }
}

/// The loadable segments among the first `n` headers, each at its physical
/// address.
pub open spec fn spec_segments(s: Seq<u8>, n: int) -> Seq<Segment>
    decreases n,
{
    if n <= 0 {
        Seq::empty()
    } else if spec_is_load(s, n - 1) {
        spec_segments(s, n - 1).push(spec_segment_of(s, n - 1))
    } else {
        spec_segments(s, n - 1)
    }
}

/// Whether `segment` is what loading does for one of the first `n` headers,
/// a loadable one.
pub open spec fn spec_from_header(s: Seq<u8>, n: int, segment: Segment) -> bool {
    exists|i: int| 0 <= i < n && #[trigger] spec_is_load(s, i) && segment == spec_segment_of(s, i)
}

/// Every loadable header among the first `n` has its segment in the plan, at
/// its physical address, and the plan holds nothing else: a header of
/// another type copies nothing.
pub proof fn lemma_segments(s: Seq<u8>, n: int)
    requires
        0 <= n,
    ensures
        forall|i: int|
            0 <= i < n && #[trigger] spec_is_load(s, i) ==> spec_segments(s, n).contains(
                spec_segment_of(s, i),
            ),
        forall|k: int|
            0 <= k < spec_segments(s, n).len() ==> spec_from_header(
                s,
                n,
                #[trigger] spec_segments(s, n)[k],
            ),
    decreases n,
{
    if n > 0 {
        lemma_segments(s, n - 1);
        let prev = spec_segments(s, n - 1);
        let all = spec_segments(s, n);
        assert forall|i: int| 0 <= i < n && #[trigger] spec_is_load(s, i) implies all.contains(
            spec_segment_of(s, i),
        ) by {
            if i < n - 1 {
                assert(prev.contains(spec_segment_of(s, i)));
                let k = choose|k: int| 0 <= k < prev.len() && prev[k] == spec_segment_of(s, i);
                assert(all[k] == spec_segment_of(s, i));
            } else {
                assert(all[prev.len() as int] == spec_segment_of(s, i));
            }
        }
        assert forall|k: int| 0 <= k < all.len() implies spec_from_header(
            s,
            n,
            #[trigger] all[k],
        ) by {
            if k < prev.len() {
                assert(all[k] == prev[k]);
                assert(spec_from_header(s, n - 1, prev[k]));
                let i = choose|i: int|
                    0 <= i < n - 1 && #[trigger] spec_is_load(s, i) && prev[k] == spec_segment_of(
                        s,
                        i,
                    );
                assert(spec_is_load(s, i) && all[k] == spec_segment_of(s, i));
            } else {
                assert(spec_is_load(s, n - 1) && all[k] == spec_segment_of(s, n - 1));
            }
        }
    }
}

/// The memory the image takes: from the base of the kernel's memory to the
/// highest physical end of a loadable segment.
pub open spec fn spec_size(s: Seq<u8>, base: u64) -> int {
    spec_high(s, spec_phnum(s)) - base
}

/// The first reason to refuse an image by its file header, if there is one.
pub open spec fn spec_header_refusal(s: Seq<u8>) -> Option<ElfError> {
    if s.len() < 64 || s[0] != 0x7f || s[1] != 0x45 || s[2] != 0x4c || s[3] != 0x46 {
        Some(ElfError::NotElf)
    } else if spec_u16_at(s, 16) != ET_EXEC && spec_u16_at(s, 16) != ET_DYN {
        Some(ElfError::NotExecutable)
    } else if spec_u16_at(s, 18) != EM_RISCV {
        Some(ElfError::NotRiscv)
    } else {
        None
    }
}

/// The first reason to refuse an image for a kernel memory of `room` bytes
/// at `base`, if there is one.
pub open spec fn spec_refusal(s: Seq<u8>, base: u64, room: u64) -> Option<ElfError> {
    if spec_header_refusal(s).is_some() {
        spec_header_refusal(s)
    } else if !spec_headers_fit(s) {
        Some(ElfError::Malformed)
    } else if spec_bad(s) {
        Some(ElfError::BadSegment)
    } else if spec_truncated(s) {
        Some(ElfError::Malformed)
    } else if spec_outside(s, base, room) {
        Some(ElfError::OutsideRegion)
    } else if spec_entry(s, spec_phnum(s)).is_none() {
        Some(ElfError::NoEntry)
    } else {
        None
    }
}

/// What a plan says of an image that is not refused.
pub open spec fn spec_planned(s: Seq<u8>, base: u64, plan: LoadPlan) -> bool {
    &&& plan.segments@ == spec_segments(s, spec_phnum(s))
    &&& plan.size == spec_size(s, base)
    &&& plan.entry == spec_entry(s, spec_phnum(s)).unwrap()
}

/// In an image whose loadable segments lie in the kernel's memory, the
/// highest end lies in it too, above the base if anything is loadable, and
/// the entry point lies inside a segment.
pub proof fn lemma_in_region(s: Seq<u8>, base: u64, room: u64, n: int)
    requires
        0 <= n <= spec_phnum(s),
        !spec_outside(s, base, room),
    ensures
        spec_high(s, n) <= base + room,
        spec_entry(s, n).is_some() ==> base <= spec_entry(s, n).unwrap() < spec_high(s, n),
        forall|i: int|
            0 <= i < n && #[trigger] spec_is_load(s, i) ==> spec_phdr(s, i).p_paddr + spec_phdr(
                s,
                i,
            ).p_memsz <= spec_high(s, n),
    decreases n,
{
    if n > 0 {
        lemma_in_region(s, base, room, n - 1);
        if spec_is_load(s, n - 1) {
            assert(spec_in_region(s, base, room, n - 1));
        }
    }
}

impl Loader {
    pub fn new(memory: Vec<u8>) -> (r: Self)
        ensures
            r.memory@ == memory@,
    {
        Loader { memory }
    }

    fn phdr(&self, i: usize) -> (r: Phdr)
        requires
            self.memory@.len() >= 64,
            i < spec_phnum(self.memory@),
            spec_phdr_off(self.memory@, i as int) + 56 <= self.memory@.len(),
        ensures
            r == spec_phdr(self.memory@, i as int),
    {
        let data: &[u8] = self.memory.as_slice();
        let len: usize = data.len();
        let phoff: u64 = u64_at(data, 32);
        let entsize: u16 = u16_at(data, 54);
        assert(entsize * i <= 0xffff * 0xffff) by (nonlinear_arith)
            requires
                entsize <= 0xffff,
                i < 0xffff,
        ;
        let off: usize = (phoff + entsize as u64 * i as u64) as usize;
        Phdr {
            p_type: u32_at(data, off),
            p_offset: u64_at(data, off + 8),
            p_vaddr: u64_at(data, off + 16),
            p_paddr: u64_at(data, off + 24),
            p_filesz: u64_at(data, off + 32),
            p_memsz: u64_at(data, off + 40),
        }
    }

    fn headers_fit(&self) -> (r: bool)
        requires
            self.memory@.len() >= 64,
        ensures
            r == spec_headers_fit(self.memory@),
    {
        let data: &[u8] = self.memory.as_slice();
        let len: usize = data.len();
        let phoff: u64 = u64_at(data, 32);
        let entsize: u16 = u16_at(data, 54);
        let phnum: u16 = u16_at(data, 56);
        let mut i: u16 = 0;
        while i < phnum
            invariant
                i <= phnum,
                phnum == spec_phnum(self.memory@),
                phoff == spec_u64_at(self.memory@, 32),
                entsize == spec_u16_at(self.memory@, 54),
                len == self.memory@.len(),
                forall|k: int| 0 <= k < i ==> #[trigger] spec_phdr_off(self.memory@, k) + 56 <= len,
            decreases phnum - i,
        {
            assert(entsize * i <= 0xffff * 0xffff) by (nonlinear_arith)
                requires
                    entsize <= 0xffff,
                    i <= 0xffff,
            ;
            let step: u64 = entsize as u64 * i as u64;
            let fits: bool = match phoff.checked_add(step) {
                Some(off) => match off.checked_add(56) {
                    Some(end) => end <= len as u64,
                    None => false,
                },
                None => false,
            };
            if !fits {
                assert(!(spec_phdr_off(self.memory@, i as int) + 56 <= len));
                return false;
            }
            i = i + 1;
        }
        true
    }

    fn try_load(&self, base: u64, room: u64) -> (r: Result<LoadPlan, ElfError>)
        requires
            base + room <= u64::MAX,
        ensures
            match r {
                Ok(plan) => spec_refusal(self.memory@, base, room).is_none() && spec_planned(
                    self.memory@,
                    base,
                    plan,
                ),
                Err(e) => spec_refusal(self.memory@, base, room) == Some(e),
            },
    {
        let data: &[u8] = self.memory.as_slice();
        let len: usize = data.len();
        let ghost s = self.memory@;
        if len < EHDR_LEN || data[0] != 0x7f || data[1] != 0x45 || data[2] != 0x4c || data[3]
            != 0x46 {
            return Err(ElfError::NotElf);
        }
        let e_type: u16 = u16_at(data, 16);
        if e_type != ET_EXEC && e_type != ET_DYN {
            return Err(ElfError::NotExecutable);
        }
        if u16_at(data, 18) != EM_RISCV {
            return Err(ElfError::NotRiscv);
        }
        if !self.headers_fit() {
            return Err(ElfError::Malformed);
        }
        let phnum: usize = u16_at(data, 56) as usize;
        let e_entry: u64 = u64_at(data, 24);
        let limit: u64 = base + room;
        let mut segments: Vec<Segment> = Vec::new();
        let mut high: u64 = 0;
        let mut entry: Option<u64> = None;
        let mut bad: bool = false;
        let mut truncated: bool = false;
        let mut outside: bool = false;
        let mut i: usize = 0;
        while i < phnum
            invariant
                i <= phnum,
                s == self.memory@,
                s.len() >= 64,
                len == s.len(),
                phnum == spec_phnum(s),
                spec_headers_fit(s),
                e_entry == spec_u64_at(s, 24),
                limit == base + room,
                bad <==> exists|k: int|
                    0 <= k < i && #[trigger] spec_is_load(s, k) && spec_phdr(s, k).p_filesz
                        > spec_phdr(s, k).p_memsz,
                truncated <==> exists|k: int|
                    0 <= k < i && #[trigger] spec_is_load(s, k) && !spec_in_file(s, k),
                outside <==> exists|k: int|
                    0 <= k < i && #[trigger] spec_is_load(s, k) && !spec_in_region(
                        s,
                        base,
                        room,
                        k,
                    ),
                !outside ==> high == spec_high(s, i as int) && high <= limit,
                !outside ==> match entry {
                    Some(e) => spec_entry(s, i as int) == Some(e as int),
                    None => spec_entry(s, i as int).is_none(),
                },
                !bad && !outside ==> segments@ == spec_segments(s, i as int),
            decreases phnum - i,
        {
            let h: Phdr = self.phdr(i);
            if h.p_type == PT_LOAD {
                assert(spec_is_load(s, i as int));
                if h.p_filesz > h.p_memsz {
                    bad = true;
                }
                let in_file: bool = match h.p_offset.checked_add(h.p_filesz) {
                    Some(end) => end <= len as u64,
                    None => false,
                };
                if !in_file {
                    truncated = true;
                }
                let in_region: bool = base <= h.p_paddr && h.p_paddr <= limit && h.p_memsz
                    <= limit - h.p_paddr;
                if !in_region {
                    outside = true;
                }
                if !outside {
                    let end: u64 = h.p_paddr + h.p_memsz;
                    if end > high {
                        high = end;
                    }
                    if entry.is_none() && h.p_vaddr <= e_entry && e_entry - h.p_vaddr
                        < h.p_memsz {
                        entry = Some(h.p_paddr + (e_entry - h.p_vaddr));
                    }
                    if !bad {
                        segments.push(
                            Segment {
                                src: h.p_offset,
                                dest: h.p_paddr,
                                file_size: h.p_filesz,
                                zero_size: h.p_memsz - h.p_filesz,
                            },
                        );
                    }
                }
            }
            i = i + 1;
        }
        if bad {
            return Err(ElfError::BadSegment);
        }
        if truncated {
            return Err(ElfError::Malformed);
        }
        if outside {
            return Err(ElfError::OutsideRegion);
        }
        proof {
            lemma_in_region(s, base, room, phnum as int);
        }
        match entry {
            None => Err(ElfError::NoEntry),
            Some(e) => Ok(LoadPlan { segments, size: high - base, entry: e }),
        }
    }

    /// The first reason to refuse the image for a kernel memory of `room`
    /// bytes at `base`; `None` if it can be loaded there.
    pub fn refusal(&self, base: u64, room: u64) -> (r: Option<ElfError>)
        requires
            base + room <= u64::MAX,
        ensures
            r == spec_refusal(self.memory@, base, room),
    {
        match self.try_load(base, room) {
            Ok(_) => None,
            Err(e) => Some(e),
        }
    }

    /// Lays out an image that [`Loader::refusal`] does not refuse: every
    /// loadable segment goes to its physical address, the size reaches from
    /// `base` to the highest end of a segment, and the entry is the physical
    /// address of the entry point.
    pub fn load_kernel(&self, base: u64, room: u64) -> (r: LoadPlan)
        requires
            base + room <= u64::MAX,
            spec_refusal(self.memory@, base, room).is_none(),
        ensures
            spec_planned(self.memory@, base, r),
            base + r.size == spec_high(self.memory@, spec_phnum(self.memory@)),
            base + r.size <= base + room,
            base <= r.entry < base + r.size,
    {
        proof {
            lemma_in_region(self.memory@, base, room, spec_phnum(self.memory@));
        }
        match self.try_load(base, room) {
            Ok(plan) => plan,
            Err(_) => vstd::pervasive::unreached(),
        }
    }
}

/// The first reason to refuse the image in `slice` for a kernel memory of
/// `room` bytes at `addr`; `None` if it can be loaded there.
pub fn check_elf(slice: &[u8], addr: u64, room: u64) -> (r: Option<ElfError>)
    requires
        addr + room <= u64::MAX,
    ensures
        r == spec_refusal(slice@, addr, room),
{
    Loader::new(vstd::slice::slice_to_vec(slice)).refusal(addr, room)
}

/// Lays out the image in `slice`, which [`check_elf`] does not refuse, for
/// the kernel memory of `room` bytes at `addr`.
pub fn load_elf(slice: &[u8], addr: u64, room: u64) -> (r: LoadPlan)
    requires
        addr + room <= u64::MAX,
        spec_refusal(slice@, addr, room).is_none(),
    ensures
        spec_planned(slice@, addr, r),
        addr + r.size == spec_high(slice@, spec_phnum(slice@)),
        addr + r.size <= addr + room,
        addr <= r.entry < addr + r.size,
{
    Loader::new(vstd::slice::slice_to_vec(slice)).load_kernel(addr, room)
}

} // verus!
