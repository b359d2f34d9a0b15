use firmware::boot::{
    dtb_address, kernel_region, place_kernel, scratch_region, secondary_harts, unpack_kernel,
    Region,
};
use firmware::elf::{check_elf, load_elf, ElfError, Loader, Segment};

const BASE: u64 = 0x8000_0000;
const ROOM: u64 = 0x0fe0_0000;
const VIRT: u64 = 0xffff_ffe0_0000_0000;

struct Header {
    p_type: u32,
    offset: u64,
    vaddr: u64,
    paddr: u64,
    filesz: u64,
    memsz: u64,
}

fn image(e_type: u16, machine: u16, entry: u64, headers: &[Header], len: usize) -> Vec<u8> {
    let mut out = vec![0u8; len.max(64 + 56 * headers.len())];
    out[0..4].copy_from_slice(&[0x7f, b'E', b'L', b'F']);
    out[4] = 2;
    out[5] = 1;
    out[16..18].copy_from_slice(&e_type.to_le_bytes());
    out[18..20].copy_from_slice(&machine.to_le_bytes());
    out[24..32].copy_from_slice(&entry.to_le_bytes());
    out[32..40].copy_from_slice(&64u64.to_le_bytes());
    out[54..56].copy_from_slice(&56u16.to_le_bytes());
    out[56..58].copy_from_slice(&(headers.len() as u16).to_le_bytes());
    for (i, h) in headers.iter().enumerate() {
        let at = 64 + 56 * i;
        out[at..at + 4].copy_from_slice(&h.p_type.to_le_bytes());
        out[at + 8..at + 16].copy_from_slice(&h.offset.to_le_bytes());
        out[at + 16..at + 24].copy_from_slice(&h.vaddr.to_le_bytes());
        out[at + 24..at + 32].copy_from_slice(&h.paddr.to_le_bytes());
        out[at + 32..at + 40].copy_from_slice(&h.filesz.to_le_bytes());
        out[at + 40..at + 48].copy_from_slice(&h.memsz.to_le_bytes());
    }
    out
}

fn load(offset: u64, vaddr: u64, paddr: u64, filesz: u64, memsz: u64) -> Header {
    Header { p_type: 1, offset, vaddr, paddr, filesz, memsz }
}

fn kernel() -> Vec<u8> {
    image(
        2,
        243,
        VIRT + 0x2040,
        &[
            load(0x200, VIRT, BASE + 0x20_0000, 0x300, 0x300),
            Header { p_type: 6, offset: 0, vaddr: 0, paddr: 0, filesz: 0x1000_0000, memsz: 0 },
            load(0x500, VIRT + 0x2010, BASE + 0x20_2010, 0x80, 0x1ff1),
        ],
        0x600,
    )
}

fn single(header: Header, entry: u64) -> Vec<u8> {
    image(2, 243, entry, &[header], 0x200)
}

#[test]
fn segments_go_to_their_physical_addresses() {
    assert_eq!(check_elf(&kernel(), BASE, ROOM), None);
    let plan = load_elf(&kernel(), BASE, ROOM);
    assert_eq!(
        plan.segments,
        vec![
            Segment { src: 0x200, dest: BASE + 0x20_0000, file_size: 0x300, zero_size: 0 },
            Segment { src: 0x500, dest: BASE + 0x20_2010, file_size: 0x80, zero_size: 0x1f71 },
        ]
    );
    // The image ends at the highest end of a segment, which is no page boundary.
    assert_eq!(plan.size, 0x20_4001);
    // The entry point lies 0x30 into the second segment.
    assert_eq!(plan.entry, BASE + 0x20_2040);
}

#[test]
fn physical_address_decides_not_virtual() {
    let img = single(load(0x100, 0x1_0800, BASE + 0x4000, 0x10, 0x10), 0x1_0804);
    let loader = Loader::new(img);
    assert_eq!(loader.refusal(BASE, ROOM), None);
    let plan = loader.load_kernel(BASE, ROOM);
    assert_eq!(
        plan.segments,
        vec![Segment { src: 0x100, dest: BASE + 0x4000, file_size: 0x10, zero_size: 0 }]
    );
    assert_eq!(plan.size, 0x4010);
    assert_eq!(plan.entry, BASE + 0x4004);
}

#[test]
fn entry_comes_from_the_first_segment_that_holds_it() {
    let img = image(
        3,
        243,
        0x1008,
        &[
            load(0x100, 0x2000, BASE, 0x10, 0x10),
            load(0x110, 0x1000, BASE + 0x100, 0x10, 0x10),
            load(0x120, 0x1000, BASE + 0x200, 0x10, 0x10),
        ],
        0x200,
    );
    assert_eq!(load_elf(&img, BASE, ROOM).entry, BASE + 0x108);
}

#[test]
fn header_checks() {
    assert_eq!(check_elf(&[], BASE, ROOM), Some(ElfError::NotElf));
    assert_eq!(check_elf(&[0x7f, b'E', b'L', b'F'], BASE, ROOM), Some(ElfError::NotElf));
    let mut bad_magic = kernel();
    bad_magic[1] = b'F';
    assert_eq!(check_elf(&bad_magic, BASE, ROOM), Some(ElfError::NotElf));
    let relocatable = image(1, 243, 0, &[], 64);
    assert_eq!(check_elf(&relocatable, BASE, ROOM), Some(ElfError::NotExecutable));
    let x86 = image(2, 62, 0, &[], 64);
    assert_eq!(check_elf(&x86, BASE, ROOM), Some(ElfError::NotRiscv));
}

#[test]
fn bad_images() {
    let inverted = single(load(0x100, 0x1000, BASE, 0x20, 0x10), 0x1000);
    assert_eq!(check_elf(&inverted, BASE, ROOM), Some(ElfError::BadSegment));

    let beyond_file = single(load(0x1f0, 0x1000, BASE, 0x20, 0x20), 0x1000);
    assert_eq!(check_elf(&beyond_file, BASE, ROOM), Some(ElfError::Malformed));

    let below = single(load(0x100, 0x1000, BASE - 1, 0x10, 0x10), 0x1000);
    assert_eq!(check_elf(&below, BASE, ROOM), Some(ElfError::OutsideRegion));

    let above = single(load(0x100, 0x1000, BASE + ROOM - 0xf, 0x10, 0x10), 0x1000);
    assert_eq!(check_elf(&above, BASE, ROOM), Some(ElfError::OutsideRegion));
    let fits = single(load(0x100, 0x1000, BASE + ROOM - 0x10, 0x10, 0x10), 0x1000);
    assert_eq!(check_elf(&fits, BASE, ROOM), None);

    let wraps = single(load(0x100, 0x1000, u64::MAX - 8, 0x10, 0x10), 0x1000);
    assert_eq!(check_elf(&wraps, BASE, ROOM), Some(ElfError::OutsideRegion));

    let nothing = image(
        2,
        243,
        0,
        &[Header { p_type: 2, offset: 0, vaddr: 0, paddr: 0, filesz: 0, memsz: 0 }],
        0x200,
    );
    assert_eq!(check_elf(&nothing, BASE, ROOM), Some(ElfError::NoEntry));

    let entry_elsewhere = single(load(0x100, 0x1000, BASE, 0x10, 0x10), 0x1010);
    assert_eq!(check_elf(&entry_elsewhere, BASE, ROOM), Some(ElfError::NoEntry));

    let mut truncated = kernel();
    truncated[56] = 40;
    assert_eq!(check_elf(&truncated, BASE, ROOM), Some(ElfError::Malformed));

    // A segment that is both too large in the file and misplaced: the size is named first.
    let both = single(load(0x100, 0x1000, 0, 0x20, 0x10), 0x1000);
    assert_eq!(check_elf(&both, BASE, ROOM), Some(ElfError::BadSegment));
}

#[test]
fn gzip_kernel_boots() {
    // A stored deflate block around the image: header byte, length and its complement.
    let elf = kernel();
    let mut member = vec![0x1f, 0x8b, 0x08, 0, 0, 0, 0, 0, 0, 3];
    member.push(1);
    member.extend_from_slice(&(elf.len() as u16).to_le_bytes());
    member.extend_from_slice(&(!(elf.len() as u16)).to_le_bytes());
    member.extend_from_slice(&elf);
    member.extend_from_slice(&crc32fast::hash(&elf).to_le_bytes());
    member.extend_from_slice(&(elf.len() as u32).to_le_bytes());
    assert_eq!(member[..3], [0x1f, 0x8b, 0x08]);

    let unpacked = unpack_kernel(member).unwrap();
    assert_eq!(unpacked, elf);
    let region = kernel_region(BASE, 0x1000_0000);
    assert_eq!(check_elf(&unpacked, region.start, region.len), None);
    let (plan, dtb) = place_kernel(&unpacked, region);
    assert_eq!(plan.segments.len(), 2);
    assert_eq!(plan.segments[0].dest, BASE + 0x20_0000);
    assert_eq!(plan.segments[1].dest, BASE + 0x20_2010);
    // The device tree goes to the highest end of a loaded segment.
    assert_eq!(dtb, BASE + 0x20_2010 + 0x1ff1);
    assert_eq!(plan.entry, BASE + 0x20_2040);
}

#[test]
fn memory_split() {
    let kernel = kernel_region(0x8000_0000, 0x1000_0000);
    assert_eq!(kernel, Region { start: 0x8000_0000, len: 0x0fe0_0000 });
    assert_eq!(
        scratch_region(kernel),
        Some(Region { start: 0x87f0_0000, len: 0x07f0_0000 })
    );
    assert_eq!(scratch_region(Region { start: u64::MAX, len: 4 }), None);
    assert_eq!(dtb_address(0x8000_0000, 0x4000), Some(0x8000_4000));
    assert_eq!(dtb_address(u64::MAX, 1), None);
}

#[test]
fn secondaries_are_woken() {
    assert_eq!(secondary_harts(4), vec![1, 2, 3]);
    assert_eq!(secondary_harts(1), Vec::<usize>::new());
    assert_eq!(secondary_harts(0), Vec::<usize>::new());
}
