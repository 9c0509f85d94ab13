use kernel_tcb::error::Error;
use kernel_tcb::elf::{header_is_parsed, image_is_sound, program_headers_sound, section_headers_sound};
use kernel_tcb::loader::{relocate_dyn, DomainLoader, LoadFinish, LoadStart, RelaError, Segment, MAP_EXECUTE, MAP_READ, MAP_WRITE};

fn put(buf: &mut Vec<u8>, at: usize, bytes: &[u8]) {
    if buf.len() < at + bytes.len() {
        buf.resize(at + bytes.len(), 0);
    }
    buf[at..at + bytes.len()].copy_from_slice(bytes);
}

fn u16le(v: u16) -> [u8; 2] {
    v.to_le_bytes()
}
fn u32le(v: u32) -> [u8; 4] {
    v.to_le_bytes()
}
fn u64le(v: u64) -> [u8; 8] {
    v.to_le_bytes()
}

fn phdr(buf: &mut Vec<u8>, at: usize, ty: u32, flags: u32, off: u64, vaddr: u64, filesz: u64, memsz: u64) {
    put(buf, at, &u32le(ty));
    put(buf, at + 4, &u32le(flags));
    put(buf, at + 8, &u64le(off));
    put(buf, at + 16, &u64le(vaddr));
    put(buf, at + 24, &u64le(vaddr));
    put(buf, at + 32, &u64le(filesz));
    put(buf, at + 40, &u64le(memsz));
    put(buf, at + 48, &u64le(0x1000));
}

fn shdr(buf: &mut Vec<u8>, at: usize, name: u32, ty: u32, off: u64, size: u64, entsize: u64) {
    put(buf, at, &u32le(name));
    put(buf, at + 4, &u32le(ty));
    put(buf, at + 24, &u64le(off));
    put(buf, at + 32, &u64le(size));
    put(buf, at + 48, &u64le(8));
    put(buf, at + 56, &u64le(entsize));
}

/// A small position-independent x86-64 image: a code segment at 0, a data
/// segment at 0x1000 and two base-relative relocations.
fn image(reloc_type: u64, second_is_load: bool) -> Vec<u8> {
    let mut b = vec![0u8; 0x218];
    put(&mut b, 0, &[0x7f, b'E', b'L', b'F', 2, 1, 1, 0]);
    put(&mut b, 16, &u16le(3));
    put(&mut b, 18, &u16le(62));
    put(&mut b, 20, &u32le(1));
    put(&mut b, 24, &u64le(0x40));
    put(&mut b, 32, &u64le(64));
    put(&mut b, 40, &u64le(0x158));
    put(&mut b, 52, &u16le(64));
    put(&mut b, 54, &u16le(56));
    put(&mut b, 56, &u16le(2));
    put(&mut b, 58, &u16le(64));
    put(&mut b, 60, &u16le(3));
    put(&mut b, 62, &u16le(2));
    phdr(&mut b, 64, 1, 5, 0, 0, 0x100, 0x100);
    phdr(&mut b, 120, if second_is_load { 1 } else { 4 }, 6, 0x100, 0x1000, 0x10, 0x20);
    put(&mut b, 0x110, &u64le(0x1008));
    put(&mut b, 0x118, &u64le(reloc_type));
    put(&mut b, 0x120, &u64le(0x40));
    put(&mut b, 0x128, &u64le(0x1010));
    put(&mut b, 0x130, &u64le(8));
    put(&mut b, 0x138, &u64le(0x80));
    put(&mut b, 0x140, b"\0.rela.dyn\0.shstrtab\0");
    shdr(&mut b, 0x158 + 64, 1, 4, 0x110, 48, 24);
    shdr(&mut b, 0x158 + 128, 11, 3, 0x140, 21, 0);
    b
}

#[test]
fn new_and_empty_loaders() {
    let l = DomainLoader::new(vec![1, 2], "gnull");
    assert_eq!(l.entry_point(), 0);
    assert_eq!(l.ident(), "gnull");
    let e = DomainLoader::empty();
    assert_eq!(e.ident(), "empty_loader");
    assert!(!e.has_magic());
}

#[test]
fn image_is_laid_out_and_relocated() {
    let mut l = DomainLoader::new(image(8, true), "gnull");
    assert_eq!(l.load_begin(), LoadStart::Region(0x2000));
    let base = 0x10_0000;
    match l.load_finish(base) {
        LoadFinish::Placed(p) => {
            assert_eq!(
                p.segments,
                vec![
                    Segment {
                        map_start: 0x10_0000,
                        map_end: 0x10_1000,
                        flags: MAP_READ | MAP_EXECUTE,
                        src: 0,
                        dst: 0,
                        len: 0x100
                    },
                    Segment {
                        map_start: 0x10_1000,
                        map_end: 0x10_2000,
                        flags: MAP_READ | MAP_WRITE,
                        src: 0x100,
                        dst: 0x1000,
                        len: 0x10
                    },
                ]
            );
            assert_eq!(p.relocations, vec![(0x10_1008, 0x10_0040), (0x10_1010, 0x10_0080)]);
            assert_eq!(p.text, (0x10_0000, 0x10_1000));
            assert_eq!(p.text_pages, 1);
            assert_eq!(p.entry, 0x10_0040);
        }
        LoadFinish::Refused => panic!("the image should be placed"),
    }
    assert_eq!(l.entry_point(), 0x10_0040);
    let again = l.clone_for_reload();
    assert_eq!(again.entry_point(), 0);
    assert_eq!(again.ident(), "gnull");
}

#[test]
fn last_loadable_segment_fixes_the_size() {
    let l = DomainLoader::new(image(8, false), "gnull");
    assert_eq!(l.load_begin(), LoadStart::Region(0x1000));
}

#[test]
fn unknown_relocation_type_is_refused() {
    let mut l = DomainLoader::new(image(7, true), "gnull");
    assert_eq!(l.load_begin(), LoadStart::Region(0x2000));
    assert!(matches!(l.load_finish(0x10_0000), LoadFinish::Refused));
    assert_eq!(l.entry_point(), 0);
}

#[test]
fn bad_images() {
    let l = DomainLoader::new(vec![0x7f, b'E', b'L', b'F', 0, 0], "short");
    assert_eq!(l.load_begin(), LoadStart::Invalid(Error::Inval));
    let l = DomainLoader::new(vec![0x7f, b'E', b'L', b'G', 0, 0], "magic");
    assert!(!l.has_magic());
    // Program headers that run past the end of the image.
    let mut b = image(8, true);
    put(&mut b, 56, &u16le(20));
    let l = DomainLoader::new(b, "phdrs");
    assert_eq!(l.load_begin(), LoadStart::Refused);
    let mut l = DomainLoader::new(image(8, true), "overflow");
    assert!(matches!(l.load_finish(usize::MAX - 0x10), LoadFinish::Refused));
}

#[test]
fn segments_from_given_headers() {
    let hs = vec![
        (true, 0x0, 0x80, 0x0, 0x80, 5u32),
        (false, 0x500, 0x10, 0x90, 0x10, 4u32),
        (true, 0x2100, 0x40, 0x80, 0x20, 6u32),
    ];
    assert_eq!(DomainLoader::image_size_of(&hs), Some(0x3000));
    let segs = DomainLoader::place_segments(&hs, 0x40_0000, 0xa0, 0x3000).unwrap();
    assert_eq!(
        segs,
        vec![
            Segment { map_start: 0x40_0000, map_end: 0x40_1000, flags: 5, src: 0, dst: 0, len: 0x80 },
            Segment { map_start: 0x40_2000, map_end: 0x40_3000, flags: 3, src: 0x80, dst: 0x2100, len: 0x20 },
        ]
    );
    assert_eq!(DomainLoader::text_of(&segs), (0x40_0000, 0x40_1000));
    // The second segment's bytes run past the end of a shorter image.
    assert_eq!(DomainLoader::place_segments(&hs, 0x40_0000, 0x9f, 0x3000), None);
    // Or past the end of a smaller region.
    assert_eq!(DomainLoader::place_segments(&hs, 0x40_0000, 0xa0, 0x2110), None);
    assert_eq!(DomainLoader::image_size_of(&vec![(false, 0, 1, 0, 1, 4u32)]), None);
    assert_eq!(DomainLoader::image_size_of(&vec![(true, u64::MAX - 1, 1, 0, 1, 4u32)]), None);
}

#[test]
fn flags_and_relocations_from_given_values() {
    assert_eq!(DomainLoader::flags_of(7), MAP_READ | MAP_WRITE | MAP_EXECUTE);
    assert_eq!(DomainLoader::flags_of(4), MAP_READ);
    assert_eq!(DomainLoader::flags_of(1), MAP_EXECUTE);
    assert_eq!(DomainLoader::flags_of(0), 0);
    let es = vec![(8u32, 0x10u64, 0x20u64), (8, 0x30, 0x40)];
    assert_eq!(DomainLoader::relocate(&es, 0x1000), Some(vec![(0x1020, 0x1010), (0x1040, 0x1030)]));
    assert_eq!(DomainLoader::relocate(&vec![(8u32, 0, 0), (1, 0, 0)], 0x1000), None);
    assert_eq!(DomainLoader::relocate(&vec![(8u32, 1, 0)], usize::MAX), None);
    assert_eq!(DomainLoader::relocate(&vec![], 0x1000), Some(vec![]));
    assert_eq!(DomainLoader::place_segment((true, 0, 0x10, 0, 0x10, 4), usize::MAX, 0x10, 0x10), None);
}

#[test]
fn soundness_of_tables() {
    let b = image(8, true);
    assert!(header_is_parsed(&b));
    assert!(image_is_sound(&b));
    // Misaligned program header table.
    let mut c = b.clone();
    put(&mut c, 32, &u64le(65));
    assert!(!image_is_sound(&c));
    // A reserved number of sections.
    let mut c = b.clone();
    put(&mut c, 60, &u16le(0xff00));
    assert!(!image_is_sound(&c));
    // A UTF-8 section name is read; an invalid one is not.
    let mut c = b.clone();
    put(&mut c, 0x14c, &[0xc3, 0xa9]);
    assert!(image_is_sound(&c));
    put(&mut c, 0x14c, &[0xff, 0xa9]);
    assert!(!section_headers_sound(&c));
    assert!(program_headers_sound(&c));
    let mut l = DomainLoader::new(c, "badname");
    assert_eq!(l.load_begin(), LoadStart::Region(0x2000));
    assert!(matches!(l.load_finish(0x10_0000), LoadFinish::Refused));
    // A section of a type the reader does not know has no name read.
    let mut c = b.clone();
    put(&mut c, 0x158 + 128 + 4, &u32le(12));
    put(&mut c, 0x158 + 128, &u32le(0x300));
    assert!(image_is_sound(&c));
    // A section name without a terminating NUL inside the image.
    let mut c = b.clone();
    put(&mut c, 0x158 + 128, &u32le(0x200));
    assert!(!image_is_sound(&c));
    // A `.rela.dyn` table whose size is not a whole number of entries.
    let mut c = b.clone();
    put(&mut c, 0x158 + 64 + 32, &u64le(40));
    assert!(!image_is_sound(&c));
    // No sections at all is sound.
    let mut c = b.clone();
    put(&mut c, 60, &u16le(0));
    assert!(image_is_sound(&c));
    assert!(!header_is_parsed(&b[..40]));
}

#[test]
fn relocations_of_the_dynamic_table() {
    let b = image(8, true);
    assert_eq!(relocate_dyn(&b, 0x10_0000), Ok(vec![(0x10_1008, 0x10_0040), (0x10_1010, 0x10_0080)]));
    // Rename the section: no `.rela.dyn` any more.
    let mut c = b.clone();
    put(&mut c, 0x141, b".rela.dyx");
    assert!(image_is_sound(&c));
    assert_eq!(relocate_dyn(&c, 0x10_0000), Err(RelaError::Missing));
    let mut l = DomainLoader::new(c, "norela");
    match l.load_finish(0x10_0000) {
        LoadFinish::Placed(p) => assert!(p.relocations.is_empty()),
        LoadFinish::Refused => panic!("the image should be placed"),
    }
}

/// A small 32-bit image: one code segment and one `.rela.dyn` table of
/// 32-bit relocations.
fn image32() -> Vec<u8> {
    let mut b = vec![0u8; 0x200];
    put(&mut b, 0, &[0x7f, b'E', b'L', b'F', 1, 1, 1, 0]);
    put(&mut b, 16, &u16le(3));
    put(&mut b, 18, &u16le(3));
    put(&mut b, 20, &u32le(1));
    put(&mut b, 24, &u32le(0x10));
    put(&mut b, 28, &u32le(52));
    put(&mut b, 32, &u32le(0x128));
    put(&mut b, 40, &u16le(52));
    put(&mut b, 42, &u16le(32));
    put(&mut b, 44, &u16le(1));
    put(&mut b, 46, &u16le(40));
    put(&mut b, 48, &u16le(3));
    put(&mut b, 50, &u16le(2));
    put(&mut b, 52, &u32le(1));
    put(&mut b, 56, &u32le(0));
    put(&mut b, 60, &u32le(0));
    put(&mut b, 64, &u32le(0));
    put(&mut b, 68, &u32le(0x100));
    put(&mut b, 72, &u32le(0x100));
    put(&mut b, 76, &u32le(5));
    put(&mut b, 80, &u32le(0x1000));
    put(&mut b, 0x100, &u32le(0x20));
    put(&mut b, 0x104, &u32le(8));
    put(&mut b, 0x108, &u32le(0x30));
    put(&mut b, 0x110, b"\0.rela.dyn\0.shstrtab\0");
    let sh = 0x128 + 40;
    put(&mut b, sh, &u32le(1));
    put(&mut b, sh + 4, &u32le(4));
    put(&mut b, sh + 16, &u32le(0x100));
    put(&mut b, sh + 20, &u32le(12));
    put(&mut b, sh + 40, &u32le(11));
    put(&mut b, sh + 44, &u32le(3));
    put(&mut b, sh + 56, &u32le(0x110));
    put(&mut b, sh + 60, &u32le(21));
    b
}

#[test]
fn images_of_32_bits_load_without_relocations() {
    let b = image32();
    assert!(image_is_sound(&b));
    assert_eq!(relocate_dyn(&b, 0x20_0000), Err(RelaError::Bad));
    let mut l = DomainLoader::new(b, "class32");
    assert_eq!(l.load_begin(), LoadStart::Region(0x1000));
    match l.load_finish(0x20_0000) {
        LoadFinish::Placed(p) => {
            assert!(p.relocations.is_empty());
            assert_eq!(p.entry, 0x20_0010);
            assert_eq!(p.segments.len(), 1);
        }
        LoadFinish::Refused => panic!("the image should be placed"),
    }
}
