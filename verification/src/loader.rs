//! The domain loader: lays out an ELF domain image in a freshly allocated
//! region, works out what to copy where, how to relocate it, which pages hold
//! code, and where execution starts.
//!
//! Loading runs in two steps around the allocation of the region, which the
//! caller makes: [`DomainLoader::load_begin`] checks the image and gives the
//! size of the region; [`DomainLoader::load_finish`] takes the start of the
//! region and gives the plan that the caller carries out.

use vstd::prelude::*;
use crate::block::gen_disk::is_pow2;
use crate::error::{Error, KernelResult};
use crate::elf::{elf_image_sound, header_is_parsed, header_parses, image_is_sound, is64, le32, le64, ph_cnt, ph_es, ph_off, ph_sound, program_headers_sound, sh_sound};
use xmas_elf::ElfFile;
use xmas_elf::program::Type;
use xmas_elf::sections::SectionData;

verus! {

/// Size of a page of the domain region.
pub const PAGE_SIZE: usize = 4096;
/// Mapping flag: the memory is readable.
pub const MAP_READ: usize = 1;
/// Mapping flag: the memory is writable.
pub const MAP_WRITE: usize = 2;
/// Mapping flag: the memory is executable.
pub const MAP_EXECUTE: usize = 4;
/// Relocation type "adjust by program base" of x86-64.
pub const R_X86_64_RELATIVE: u32 = 8;

/// Program header `i` of an image, as `xmas_elf` reads it: whether it is a
/// loadable segment (type 1), its virtual address, size in memory, file
/// offset, size in the file and flags, at the places the image's class
/// puts them.
pub open spec fn ph_row(d: Seq<u8>, i: int) -> (bool, u64, u64, u64, u64, u32) {
    let at = ph_off(d) + i * ph_es(d);
    if is64(d) {
        (le32(d, at) == 1, le64(d, at + 16) as u64, le64(d, at + 40) as u64, le64(d, at + 8) as u64,
            le64(d, at + 32) as u64, le32(d, at + 4) as u32)
    } else {
        (le32(d, at) == 1, le32(d, at + 8) as u64, le32(d, at + 20) as u64, le32(d, at + 4) as u64,
            le32(d, at + 16) as u64, le32(d, at + 24) as u32)
    }
}

/// The entry point and the program headers of an ELF image, in order, as
/// `program_iter` hands them out: none when the count, offset or entry
/// size of the table is zero.
pub open spec fn elf_layout_of(d: Seq<u8>) -> Option<(u64, Seq<(bool, u64, u64, u64, u64, u32)>)> {
    let entry = if is64(d) { le64(d, 24) as u64 } else { le32(d, 24) as u64 };
    if ph_cnt(d) > 0 && ph_off(d) > 0 && ph_es(d) > 0 {
        Some((entry, Seq::new(ph_cnt(d) as nat, |i: int| ph_row(d, i))))
    } else {
        Some((entry, Seq::empty()))
    }
}

/// The relocation entries of the section `name` of an ELF image, as parsed
/// by `xmas_elf`: `None` when the image does not parse or has no such
/// section; `Some(Err(()))` when the section's data cannot be read;
/// `Some(Ok(None))` when the section does not hold 64-bit relocations with
/// addends; otherwise, in order, each entry's type, addend and offset.
pub uninterp spec fn elf_rela_of(data: Seq<u8>, name: Seq<char>) -> Option<Result<Option<Seq<(u32, u64, u64)>>, ()>>;

/// `xmas_elf::ElfFile::new`, then the header's `entry_point` and, for each
/// header of `program_iter`, `get_type() == Ok(Type::Load)`, `virtual_addr`,
/// `mem_size`, `offset`, `file_size` and the raw `flags`, as
/// [`elf_layout_of`] states; when the program headers are sound the header
/// parses, so a result is always given. `requires` leaves out the images
/// whose program headers `xmas_elf` would read out of bounds or misaligned
/// relative to the start of the image. The image is a whole `Vec`, so it
/// starts where its allocation starts; `xmas_elf` also asserts that this
/// start is aligned for the header structures (8 bytes), which the kernel
/// and system allocators give but no clause states (see the README).
#[verifier::external_body]
fn elf_layout(data: &Vec<u8>) -> (r: Option<(u64, Vec<(bool, u64, u64, u64, u64, u32)>)>)
    requires
        ph_sound(data@),
    ensures
        r is Some,
        elf_layout_of(data@) == Some((r.unwrap().0, r.unwrap().1@)),
{
    let elf = ElfFile::new(data.as_slice()).ok()?;
    let rows = elf.program_iter().map(|ph| (ph.get_type() == Ok(Type::Load), ph.virtual_addr(),
        ph.mem_size(), ph.offset(), ph.file_size(), ph.flags().0)).collect();
    Some((elf.header.pt2.entry_point(), rows))
}

/// `xmas_elf::ElfFile::new`, `find_section_by_name(name)`, then `get_data`:
/// a `Rela64` table is handed back as each entry's `get_type`, `get_addend`
/// and `get_offset`. The result is named, not described. When the section
/// headers are sound, a section found under `.rela.dyn` is a `Rela` table,
/// which `get_data` gives as `Rela64` in a 64-bit image and as `Rela32`
/// (reported as `Some(Ok(None))`) in a 32-bit one. `requires` leaves out
/// the images `xmas_elf` would read out of bounds or misaligned relative to
/// the start of the image; the alignment of that start, which `xmas_elf`
/// asserts too, is the allocator's (see `elf_layout`).
#[verifier::external_body]
fn elf_rela_entries(data: &Vec<u8>, name: &str) -> (r: Option<Result<Option<Vec<(u32, u64, u64)>>, ()>>)
    requires
        sh_sound(data@),
        name@ == ".rela.dyn"@,
    ensures
        is64(data@) ==> r is None || r matches Some(Ok(Some(_))),
        !is64(data@) ==> r is None || r matches Some(Ok(None)),
        match r {
            Some(Ok(Some(v))) => elf_rela_of(data@, name@) == Some(Ok::<Option<Seq<(u32, u64, u64)>>, ()>(Some(v@))),
            Some(Ok(None)) => elf_rela_of(data@, name@) == Some(Ok::<Option<Seq<(u32, u64, u64)>>, ()>(None)),
            Some(Err(())) => elf_rela_of(data@, name@) == Some(Err::<Option<Seq<(u32, u64, u64)>>, ()>(())),
            None => elf_rela_of(data@, name@) is None,
        },
{
    let elf = ElfFile::new(data.as_slice()).ok()?;
    let section = elf.find_section_by_name(name)?;
    Some(match section.get_data(&elf) {
        Ok(SectionData::Rela64(entries)) => Ok(Some(entries.iter().map(|e| (e.get_type(),
            e.get_addend(), e.get_offset())).collect())),
        Ok(_) => Ok(None),
        Err(_) => Err(()),
    })
}

/// `addr` rounded down to a multiple of `align`.
pub open spec fn round_down(addr: int, align: int) -> int {
    addr - addr % align
}

/// `addr` rounded up to a multiple of `align`.
pub open spec fn round_up(addr: int, align: int) -> int {
    ((addr + align - 1) / align) * align
}

/// `memory_addr::align_down`: the greatest multiple of the power of two
/// `align` that is not above `addr`.
#[verifier::external_body]
fn align_down(addr: usize, align: usize) -> (r: usize)
    requires
        is_pow2(align as int),
    ensures
        r == round_down(addr as int, align as int),
{
    memory_addr::align_down(addr, align)
}

/// `memory_addr::align_up`: the smallest multiple of the power of two
/// `align` that is not below `addr`; `requires` leaves out the addresses
/// where `addr + align - 1` overflows.
#[verifier::external_body]
fn align_up(addr: usize, align: usize) -> (r: usize)
    requires
        is_pow2(align as int),
        addr + align - 1 <= usize::MAX,
    ensures
        r == round_up(addr as int, align as int),
{
    memory_addr::align_up(addr, align)
}

/// The page size is a power of two.
pub proof fn lemma_page_size_pow2()
    ensures
        is_pow2(PAGE_SIZE as int),
{
    reveal_with_fuel(is_pow2, 13);
}

/// A program header as mathematical values: loadable, virtual address, size
/// in memory, file offset, size in the file, flags.
pub type ProgramRow = (bool, u64, u64, u64, u64, u32);

/// The mapping flags of a segment with ELF flags `flags` (`PF_X` 1, `PF_W` 2,
/// `PF_R` 4).
pub open spec fn map_flags(flags: u32) -> usize {
    (if flags & 4 == 4 { MAP_READ } else { 0usize }) | (if flags & 2 == 2 { MAP_WRITE } else { 0usize })
        | (if flags & 1 == 1 { MAP_EXECUTE } else { 0usize })
}

/// One loadable segment placed in the region.
#[derive(Clone, Copy, Debug, PartialEq, Eq, Structural)]
pub struct Segment {
    /// First address of the pages the segment occupies.
    pub map_start: usize,
    /// End of the pages the segment occupies.
    pub map_end: usize,
    /// Mapping flags (`MAP_*`).
    pub flags: usize,
    /// Offset in the image of the bytes to copy.
    pub src: usize,
    /// Offset in the region the bytes go to.
    pub dst: usize,
    /// Number of bytes to copy.
    pub len: usize,
}

/// A loadable segment can be placed at `base` in a region of `region_len`
/// bytes from an image of `data_len` bytes: no address overflows and the
/// bytes to copy lie inside both the image and the region.
pub open spec fn segment_fits(h: ProgramRow, base: usize, data_len: nat, region_len: usize) -> bool {
    let start = h.1 as usize + base;
    &&& h.1 as usize + base <= usize::MAX
    &&& start + h.2 as usize <= usize::MAX
    &&& start + h.2 as usize + PAGE_SIZE - 1 <= usize::MAX
    &&& h.3 + h.4 <= u64::MAX
    &&& h.3 as usize <= (h.3 + h.4) as u64 as usize
    &&& (h.3 + h.4) as u64 as usize <= data_len
    &&& h.1 as usize + ((h.3 + h.4) as u64 as usize - h.3 as usize) <= region_len
}

/// Where a loadable segment goes when the region starts at `base`.
pub open spec fn segment_of(h: ProgramRow, base: usize) -> Segment {
    let start = (h.1 as usize + base) as usize;
    let end = (start + h.2 as usize) as usize;
    Segment {
        map_start: round_down(start as int, PAGE_SIZE as int) as usize,
        map_end: round_up(end as int, PAGE_SIZE as int) as usize,
        flags: map_flags(h.5),
        src: h.3 as usize,
        dst: h.1 as usize,
        len: ((h.3 + h.4) as u64 as usize - h.3 as usize) as usize,
    }
}

/// The segments of the loadable program headers, in order; `None` when one
/// of them does not fit.
pub open spec fn plan_segments(hs: Seq<ProgramRow>, base: usize, data_len: nat, region_len: usize) -> Option<Seq<Segment>>
    decreases hs.len(),
{
    if hs.len() == 0 {
        Some(Seq::empty())
    } else {
        match plan_segments(hs.drop_last(), base, data_len, region_len) {
            None => None,
            Some(p) => {
                let h = hs.last();
                if !h.0 {
                    Some(p)
                } else if segment_fits(h, base, data_len, region_len) {
                    Some(p.push(segment_of(h, base)))
                } else {
                    None
                }
            },
        }
    }
}

/// The pages of the last executable segment: the code that is made executable.
pub open spec fn text_range(segs: Seq<Segment>) -> (usize, usize)
    decreases segs.len(),
{
    if segs.len() == 0 {
        (0, 0)
    } else if segs.last().flags & MAP_EXECUTE == MAP_EXECUTE {
        (segs.last().map_start, segs.last().map_end)
    } else {
        text_range(segs.drop_last())
    }
}

/// The writes that relocate the image at `base`: for each entry, the address
/// to write and the value; `None` when an entry is not a base-relative
/// relocation or an address overflows.
pub open spec fn plan_relocations(entries: Seq<(u32, u64, u64)>, base: usize) -> Option<Seq<(usize, usize)>>
    decreases entries.len(),
{
    if entries.len() == 0 {
        Some(Seq::empty())
    } else {
        match plan_relocations(entries.drop_last(), base) {
            None => None,
            Some(p) => {
                let e = entries.last();
                if e.0 == R_X86_64_RELATIVE && base + e.1 as usize <= usize::MAX && base + e.2 as usize
                    <= usize::MAX {
                    Some(p.push(((base + e.2 as usize) as usize, (base + e.1 as usize) as usize)))
                } else {
                    None
                }
            },
        }
    }
}

/// The end of the image in memory: the end of the last loadable segment,
/// rounded up to a page; `None` when there is no loadable segment or the
/// end overflows.
pub open spec fn image_size(hs: Seq<ProgramRow>) -> Option<usize>
    decreases hs.len(),
{
    if hs.len() == 0 {
        None
    } else if hs.last().0 {
        let h = hs.last();
        if h.1 as usize + h.2 as usize + PAGE_SIZE - 1 <= usize::MAX {
            Some(round_up(h.1 as usize + h.2 as usize, PAGE_SIZE as int) as usize)
        } else {
            None
        }
    } else {
        image_size(hs.drop_last())
    }
}

/// The image starts with the ELF magic number.
pub open spec fn has_elf_magic(data: Seq<u8>) -> bool {
    data.len() >= 4 && data[0] == 0x7f && data[1] == 0x45 && data[2] == 0x4c && data[3] == 0x46
}

/// The outcome of the first loading step.
#[derive(Clone, Copy, Debug, PartialEq, Eq, Structural)]
pub enum LoadStart {
    /// Allocate a region of this many bytes and call `load_finish`.
    Region(usize),
    /// The image does not parse: `EINVAL`.
    Invalid(Error),
    /// The image cannot be loaded: its program headers cannot be read
    /// safely, it has no loadable segment, or the end of the image
    /// overflows. (The kernel panics on such images.)
    Refused,
}

/// What to do to put the image in its region.
pub struct LoadPlan {
    /// The segments to copy and map, in order.
    pub segments: Vec<Segment>,
    /// The relocation writes `(address, value)`, in order.
    pub relocations: Vec<(usize, usize)>,
    /// The pages to make executable.
    pub text: (usize, usize),
    /// The number of pages to make executable.
    pub text_pages: usize,
    /// The address execution starts at.
    pub entry: usize,
}

/// A [`LoadPlan`] as mathematical values.
pub struct LoadPlanView {
    pub segments: Seq<Segment>,
    pub relocations: Seq<(usize, usize)>,
    pub text: (usize, usize),
    pub text_pages: usize,
    pub entry: usize,
}

impl View for LoadPlan {
    type V = LoadPlanView;

    open spec fn view(&self) -> LoadPlanView {
        LoadPlanView {
            segments: self.segments@,
            relocations: self.relocations@,
            text: self.text,
            text_pages: self.text_pages,
            entry: self.entry,
        }
    }
}

/// The outcome of the second loading step.
pub enum LoadFinish {
    /// Carry out this plan.
    Placed(LoadPlan),
    /// The image cannot be placed: its tables cannot be read safely, a
    /// segment does not fit, a relocation is of an unknown type or
    /// overflows, or the entry address overflows. (The kernel panics on such
    /// images, except on some whose section tables this library declines to
    /// read.)
    Refused,
}

/// The relocation writes of an image placed at `base`: none when it has no
/// readable table of 64-bit relocations; `None` when it cannot be relocated.
pub open spec fn relocations_of(data: Seq<u8>, base: usize) -> Option<Seq<(usize, usize)>> {
    match elf_rela_of(data, ".rela.dyn"@) {
        Some(Err(())) => None,
        Some(Ok(Some(entries))) => plan_relocations(entries, base),
        _ => Some(Seq::empty()),
    }
}

/// Why the `.rela.dyn` relocations of an image cannot be had.
#[derive(Clone, Copy, Debug, PartialEq, Eq, Structural)]
pub enum RelaError {
    /// The image has no section named `.rela.dyn` ("corrupted .rela.dyn").
    Missing,
    /// The section is not a table of 64-bit relocations ("bad .rela.dyn").
    Bad,
}

/// What `relocate_dyn` gives for an image placed at `base`: the writes of
/// its `.rela.dyn` table, in entry order, or why there are none.
pub open spec fn rela_dyn_result(data: Seq<u8>, base: usize) -> Result<Seq<(usize, usize)>, RelaError> {
    match elf_rela_of(data, ".rela.dyn"@) {
        None => Err(RelaError::Missing),
        Some(Ok(Some(es))) => match plan_relocations(es, base) {
            Some(w) => Ok(w),
            None => Err(RelaError::Bad),
        },
        _ => Err(RelaError::Bad),
    }
}

/// Every entry of the `.rela.dyn` table of the image is a base-relative
/// relocation whose address and value do not overflow at `base` (on any
/// other entry the kernel's loader panics).
pub open spec fn rela_dyn_applies(data: Seq<u8>, base: usize) -> bool {
    match elf_rela_of(data, ".rela.dyn"@) {
        Some(Ok(Some(es))) => plan_relocations(es, base) is Some,
        _ => true,
    }
}

/// The relocation writes of the `.rela.dyn` table of an image placed at
/// `region_start`: for each entry, in order, the address
/// `region_start + offset` and the value `region_start + addend`. No such
/// section gives `Missing`; a section that is not a 64-bit relocation table
/// gives `Bad`.
pub fn relocate_dyn(data: &Vec<u8>, region_start: usize) -> (r: Result<Vec<(usize, usize)>, RelaError>)
    requires
        sh_sound(data@),
        rela_dyn_applies(data@, region_start),
    ensures
        match r {
            Ok(v) => rela_dyn_result(data@, region_start) == Ok::<Seq<(usize, usize)>, RelaError>(v@),
            Err(e) => rela_dyn_result(data@, region_start) == Err::<Seq<(usize, usize)>, RelaError>(e),
        },
{
    proof { reveal_strlit(".rela.dyn"); }
    match elf_rela_entries(data, ".rela.dyn") {
        None => Err(RelaError::Missing),
        Some(Ok(Some(es))) => match DomainLoader::relocate(&es, region_start) {
            Some(v) => Ok(v),
            None => Err(RelaError::Bad),
        },
        _ => Err(RelaError::Bad),
    }
}

/// The plan for an image placed at `base`, given its entry point and
/// program headers; `None` when it cannot be placed.
pub open spec fn plan_of(data: Seq<u8>, entry: u64, hs: Seq<ProgramRow>, base: usize) -> Option<LoadPlanView> {
    match image_size(hs) {
        None => None,
        Some(size) => match plan_segments(hs, base, data.len(), size) {
            None => None,
            Some(segs) => match relocations_of(data, base) {
                None => None,
                Some(rel) => if entry as usize + base <= usize::MAX {
                    Some(LoadPlanView {
                        segments: segs,
                        relocations: rel,
                        text: text_range(segs),
                        text_pages: ((text_range(segs).1 - text_range(segs).0) / PAGE_SIZE as int) as usize,
                        entry: (entry as usize + base) as usize,
                    })
                } else {
                    None
                },
            },
        },
    }
}

/// The plan for placing the image `data` at `base`: `None` when it cannot
/// be placed.
pub open spec fn finish_of(data: Seq<u8>, base: usize) -> Option<LoadPlanView> {
    if !elf_image_sound(data) {
        None
    } else {
        match elf_layout_of(data) {
            None => None,
            Some((entry, hs)) => plan_of(data, entry, hs, base),
        }
    }
}

/// Once a prefix of the program headers cannot be placed, neither can the
/// whole table.
pub proof fn lemma_plan_segments_none_extends(hs: Seq<ProgramRow>, base: usize, data_len: nat, region_len: usize, i: int)
    requires
        0 <= i <= hs.len(),
        plan_segments(hs.take(i), base, data_len, region_len) is None,
    ensures
        plan_segments(hs, base, data_len, region_len) is None,
    decreases hs.len() - i,
{
    if i == hs.len() {
        assert(hs.take(i) =~= hs);
    } else {
        assert(hs.take(i + 1).drop_last() =~= hs.take(i));
        lemma_plan_segments_none_extends(hs, base, data_len, region_len, i + 1);
    }
}

/// Once a prefix of the relocation entries cannot be applied, neither can
/// the whole table.
pub proof fn lemma_plan_relocations_none_extends(es: Seq<(u32, u64, u64)>, base: usize, i: int)
    requires
        0 <= i <= es.len(),
        plan_relocations(es.take(i), base) is None,
    ensures
        plan_relocations(es, base) is None,
    decreases es.len() - i,
{
    if i == es.len() {
        assert(es.take(i) =~= es);
    } else {
        assert(es.take(i + 1).drop_last() =~= es.take(i));
        lemma_plan_relocations_none_extends(es, base, i + 1);
    }
}

/// The view of an optional segment list.
pub open spec fn opt_segments(v: Option<Vec<Segment>>) -> Option<Seq<Segment>> {
    match v {
        Some(x) => Some(x@),
        None => None,
    }
}

/// The view of an optional relocation list.
pub open spec fn opt_relocations(v: Option<Vec<(usize, usize)>>) -> Option<Seq<(usize, usize)>> {
    match v {
        Some(x) => Some(x@),
        None => None,
    }
}

/// A placed segment occupies whole pages, starts no later than its first
/// byte in memory, and copies bytes that lie inside both the image and the
/// region.
pub open spec fn segment_sound(seg: Segment, base: usize, data_len: nat, region_len: usize) -> bool {
    &&& seg.map_start % PAGE_SIZE == 0
    &&& seg.map_end % PAGE_SIZE == 0
    &&& seg.map_start <= seg.map_end
    &&& seg.map_start <= base + seg.dst
    &&& seg.src + seg.len <= data_len
    &&& seg.dst + seg.len <= region_len
}

/// Rounding down never goes up and rounding up never goes down, both to
/// multiples of the page size.
pub proof fn lemma_rounding(a: int, b: int)
    requires
        0 <= a <= b,
    ensures
        round_down(a, PAGE_SIZE as int) <= a,
        round_down(a, PAGE_SIZE as int) % (PAGE_SIZE as int) == 0,
        round_up(b, PAGE_SIZE as int) >= b,
        round_up(b, PAGE_SIZE as int) % (PAGE_SIZE as int) == 0,
        round_down(a, PAGE_SIZE as int) >= 0,
{
    assert(((b + 4095) / 4096) * 4096 % 4096 == 0) by (nonlinear_arith);
    assert(((b + 4095) / 4096) * 4096 >= b) by (nonlinear_arith);
}

/// The rounded-up and rounded-down page boundaries of `x`: the unique
/// multiples of the page size at most a page above, and at most a page
/// below it.
proof fn lemma_page_bounds(x: int)
    requires
        0 <= x,
    ensures
        round_up(x, PAGE_SIZE as int) % 4096 == 0,
        x <= round_up(x, PAGE_SIZE as int) < x + 4096,
        round_down(x, PAGE_SIZE as int) % 4096 == 0,
        round_down(x, PAGE_SIZE as int) <= x < round_down(x, PAGE_SIZE as int) + 4096,
{
    assert(((x + 4095) / 4096) * 4096 % 4096 == 0) by (nonlinear_arith);
    assert(x <= ((x + 4095) / 4096) * 4096 < x + 4096) by (nonlinear_arith);
}

/// The region an image needs ends with the memory image of its last
/// loadable segment: when the last loadable program header is at `k` (no
/// loadable header follows it) and its end in memory, `vaddr + mem_size`,
/// does not overflow a page round-up, the region size is the smallest page
/// multiple that holds that end, so the segment's whole memory image
/// (including what is not in the file) lies inside the region.
pub proof fn lemma_region_holds_last_segment(hs: Seq<ProgramRow>, k: int)
    requires
        0 <= k < hs.len(),
        hs[k].0,
        forall|j: int| k < j < hs.len() ==> !(#[trigger] hs[j].0),
        hs[k].1 + hs[k].2 + 4095 <= usize::MAX,
    ensures
        image_size(hs) is Some,
        hs[k].1 + hs[k].2 <= image_size(hs).unwrap(),
        image_size(hs).unwrap() < hs[k].1 + hs[k].2 + 4096,
        image_size(hs).unwrap() % 4096 == 0,
    decreases hs.len(),
{
    if k == hs.len() - 1 {
        let h = hs.last();
        assert(h == hs[k]);
        assert(h.1 as usize == h.1 && h.2 as usize == h.2);
        lemma_page_bounds(h.1 + h.2);
    } else {
        assert(!hs.last().0) by {
            assert(hs.last() == hs[hs.len() - 1]);
        }
        let rest = hs.drop_last();
        assert forall|j: int| k < j < rest.len() implies !(#[trigger] rest[j].0) by {
            assert(rest[j] == hs[j]);
        }
        assert(rest[k] == hs[k]);
        lemma_region_holds_last_segment(rest, k);
    }
}

/// A loadable segment that fits is mapped over its whole memory image: the
/// mapping runs from the page holding `base + vaddr` to the page boundary
/// just past `base + vaddr + mem_size` (so what is not in the file, such as
/// `.bss`, is mapped too), and the `file_size` bytes at `offset` in the
/// image are copied to `vaddr` in the region.
pub proof fn lemma_segment_maps_memory_image(h: ProgramRow, base: usize, data_len: nat, region_len: usize)
    requires
        h.1 + base + h.2 + 4095 <= usize::MAX,
        h.3 + h.4 <= usize::MAX,
        h.3 + h.4 <= data_len,
        h.1 + h.4 <= region_len,
    ensures
        segment_fits(h, base, data_len, region_len),
        segment_of(h, base).map_start % 4096 == 0,
        segment_of(h, base).map_start <= base + h.1 < segment_of(h, base).map_start + 4096,
        segment_of(h, base).map_end % 4096 == 0,
        base + h.1 + h.2 <= segment_of(h, base).map_end < base + h.1 + h.2 + 4096,
        segment_of(h, base).src == h.3,
        segment_of(h, base).dst == h.1,
        segment_of(h, base).len == h.4,
        segment_of(h, base).flags == map_flags(h.5),
{
    assert(h.1 as usize == h.1 && h.2 as usize == h.2 && h.3 as usize == h.3);
    assert((h.3 + h.4) as u64 as usize == h.3 + h.4);
    lemma_page_bounds(h.1 + base);
    lemma_page_bounds(h.1 + base + h.2);
}

/// Every segment of a placement is sound.
pub proof fn lemma_plan_segments_sound(hs: Seq<ProgramRow>, base: usize, data_len: nat, region_len: usize)
    requires
        plan_segments(hs, base, data_len, region_len) is Some,
    ensures
        forall|i: int| 0 <= i < plan_segments(hs, base, data_len, region_len).unwrap().len() ==> #[trigger] segment_sound(
            plan_segments(hs, base, data_len, region_len).unwrap()[i],
            base,
            data_len,
            region_len,
        ),
    decreases hs.len(),
{
    if hs.len() > 0 {
        lemma_plan_segments_sound(hs.drop_last(), base, data_len, region_len);
        let h = hs.last();
        if h.0 {
            let start = (h.1 as usize + base) as usize;
            let end = (start + h.2 as usize) as usize;
            lemma_rounding(start as int, end as int);
        }
    }
}

/// The code pages of a sound placement are whole pages, in order.
pub proof fn lemma_text_range_sound(segs: Seq<Segment>, base: usize, data_len: nat, region_len: usize)
    requires
        forall|i: int| 0 <= i < segs.len() ==> #[trigger] segment_sound(segs[i], base, data_len, region_len),
    ensures
        text_range(segs).0 <= text_range(segs).1,
        text_range(segs).0 % PAGE_SIZE == 0,
        text_range(segs).1 % PAGE_SIZE == 0,
    decreases segs.len(),
{
    if segs.len() > 0 {
        assert(segment_sound(segs[segs.len() - 1], base, data_len, region_len));
        let rest = segs.drop_last();
        assert forall|i: int| 0 <= i < rest.len() implies #[trigger] segment_sound(rest[i], base, data_len, region_len) by {
            assert(rest[i] == segs[i]);
        }
        lemma_text_range_sound(rest, base, data_len, region_len);
    }
}

/// What a successful placement at `base` promises: every segment occupies
/// whole pages starting no later than its first byte, its bytes come from
/// inside the image and go inside the region (of the image's rounded-up
/// size); the code pages are whole pages in order and their count is their
/// length in pages; and execution starts at the image's entry point offset
/// by `base`.
pub proof fn lemma_load_plan_sound(data: Seq<u8>, base: usize)
    requires
        finish_of(data, base) is Some,
    ensures
        ({
            let p = finish_of(data, base).unwrap();
            let (entry, hs) = elf_layout_of(data).unwrap();
            let size = image_size(hs).unwrap();
            &&& forall|i: int| 0 <= i < p.segments.len() ==> #[trigger] segment_sound(p.segments[i], base, data.len(), size)
            &&& p.text.0 <= p.text.1
            &&& p.text.0 % PAGE_SIZE == 0
            &&& p.text.1 % PAGE_SIZE == 0
            &&& p.text_pages * PAGE_SIZE == p.text.1 - p.text.0
            &&& p.entry == entry as usize + base
        }),
{
    let (entry, hs) = elf_layout_of(data).unwrap();
    let size = image_size(hs).unwrap();
    lemma_plan_segments_sound(hs, base, data.len(), size);
    let segs = plan_segments(hs, base, data.len(), size).unwrap();
    lemma_text_range_sound(segs, base, data.len(), size);
    let t = text_range(segs);
    assert((t.1 - t.0) % 4096 == 0);
    assert(((t.1 - t.0) / 4096) * 4096 == t.1 - t.0) by (nonlinear_arith)
        requires
            (t.1 - t.0) % 4096 == 0,
    ;
}

/// The relocation write of a base-relative entry placed at `base`.
pub open spec fn rebased(e: (u32, u64, u64), base: usize) -> (usize, usize) {
    ((base + e.2 as usize) as usize, (base + e.1 as usize) as usize)
}

/// The relocation writes of an image placed at `base` write, for each entry
/// in order, the base plus the entry's addend at the base plus its offset;
/// every entry is base-relative.
pub proof fn lemma_relocations_rebase(es: Seq<(u32, u64, u64)>, base: usize)
    requires
        plan_relocations(es, base) is Some,
    ensures
        plan_relocations(es, base).unwrap() == es.map_values(|e: (u32, u64, u64)| rebased(e, base)),
        forall|i: int| 0 <= i < es.len() ==> (#[trigger] es[i]).0 == R_X86_64_RELATIVE,
    decreases es.len(),
{
    if es.len() == 0 {
        assert(es.map_values(|e: (u32, u64, u64)| rebased(e, base)) =~= Seq::<(usize, usize)>::empty());
    } else {
        let rest = es.drop_last();
        lemma_relocations_rebase(rest, base);
        assert(es.map_values(|e: (u32, u64, u64)| rebased(e, base)) =~= rest.map_values(
            |e: (u32, u64, u64)| rebased(e, base),
        ).push(rebased(es.last(), base)));
        assert forall|i: int| 0 <= i < es.len() implies (#[trigger] es[i]).0 == R_X86_64_RELATIVE by {
            if i < es.len() - 1 {
                assert(es[i] == rest[i]);
            }
        }
    }
}

/// The state of a loader as mathematical values.
pub struct LoaderView {
    pub entry_point: usize,
    pub data: Seq<u8>,
    pub virt_start: usize,
    pub ident: Seq<char>,
    pub text_section: (usize, usize),
}

/// Loads one domain image.
pub struct DomainLoader {
    entry_point: usize,
    data: Vec<u8>,
    virt_start: usize,
    ident: String,
    text_section: (usize, usize),
}

impl View for DomainLoader {
    type V = LoaderView;

    closed spec fn view(&self) -> LoaderView {
        LoaderView {
            entry_point: self.entry_point,
            data: self.data@,
            virt_start: self.virt_start,
            ident: self.ident@,
            text_section: self.text_section,
        }
    }
}

impl DomainLoader {
    /// A loader for the image `data` named `ident`; nothing placed yet.
    pub fn new(data: Vec<u8>, ident: &str) -> (l: Self)
        ensures
            l@ == (LoaderView {
                entry_point: 0,
                data: data@,
                virt_start: 0,
                ident: ident@,
                text_section: (0, 0),
            }),
    {
        DomainLoader { entry_point: 0, data, virt_start: 0, ident: ident.to_owned(), text_section: (0, 0) }
    }

    /// A loader with no image, named `empty_loader`.
    pub fn empty() -> (l: Self)
        ensures
            l@ == (LoaderView {
                entry_point: 0,
                data: Seq::empty(),
                virt_start: 0,
                ident: "empty_loader"@,
                text_section: (0, 0),
            }),
    {
        Self::new(Vec::new(), "empty_loader")
    }

    /// A copy of the loader for loading the same image again: same image,
    /// name and code range, nothing placed.
    pub fn clone_for_reload(&self) -> (l: Self)
        ensures
            l@ == (LoaderView { entry_point: 0, virt_start: 0, ..self@ }),
    {
        let data = self.data.clone();
        assert(data@ =~= self.data@);
        DomainLoader {
            entry_point: 0,
            data,
            virt_start: 0,
            ident: self.ident.clone(),
            text_section: self.text_section,
        }
    }

    /// The address execution starts at, once placed.
    pub fn entry_point(&self) -> (r: usize)
        ensures
            r == self@.entry_point,
    {
        self.entry_point
    }

    /// The bytes of the image.
    pub fn image(&self) -> (r: &[u8])
        ensures
            r@ == self@.data,
    {
        self.data.as_slice()
    }

    /// The name of the image.
    pub fn ident(&self) -> (r: &String)
        ensures
            r@ == self@.ident,
    {
        &self.ident
    }

    /// Whether the image starts with the ELF magic number; loading an
    /// image without it is a fault of the caller.
    pub fn has_magic(&self) -> (r: bool)
        ensures
            r == has_elf_magic(self@.data),
    {
        self.data.len() >= 4 && self.data[0] == 0x7f && self.data[1] == 0x45 && self.data[2] == 0x4c
            && self.data[3] == 0x46
    }

    /// The end in memory of an image with program headers `hs`, page
    /// aligned; none without a loadable segment or when the end overflows.
    pub fn image_size_of(hs: &Vec<ProgramRow>) -> (r: Option<usize>)
        ensures
            r == image_size(hs@),
    {
        proof { lemma_page_size_pow2(); }
        let mut i = hs.len();
        assert(hs@.take(i as int) =~= hs@);
        while i > 0
            invariant
                i <= hs.len(),
                is_pow2(PAGE_SIZE as int),
                image_size(hs@) == image_size(hs@.take(i as int)),
            decreases i,
        {
            let h = hs[i - 1];
            assert(hs@.take(i as int).drop_last() =~= hs@.take(i - 1));
            assert(hs@.take(i as int).last() == h);
            if h.0 {
                let vaddr = h.1 as usize;
                let mem = h.2 as usize;
                if vaddr <= usize::MAX - mem && vaddr + mem <= usize::MAX - (PAGE_SIZE - 1) {
                    return Some(align_up(vaddr + mem, PAGE_SIZE));
                } else {
                    return None;
                }
            }
            i = i - 1;
        }
        None
    }

    /// First loading step: parses the image and gives the size of the
    /// region to allocate for it. A header that does not parse gives
    /// `EINVAL`; an image that is not a 64-bit image whose tables can be read
    /// safely is refused.
    pub fn load_begin(&self) -> (r: LoadStart)
        requires
            has_elf_magic(self@.data),
        ensures
            !header_parses(self@.data) ==> r == LoadStart::Invalid(Error::Inval),
            header_parses(self@.data) && !ph_sound(self@.data) ==> r == LoadStart::Refused,
            ph_sound(self@.data) ==> (elf_layout_of(self@.data) matches Some((_, hs)) && match image_size(hs) {
                None => r == LoadStart::Refused,
                Some(size) => r == LoadStart::Region(size),
            }),
    {
        if !header_is_parsed(self.data.as_slice()) {
            return LoadStart::Invalid(Error::Inval);
        }
        if !program_headers_sound(self.data.as_slice()) {
            return LoadStart::Refused;
        }
        match elf_layout(&self.data) {
            None => LoadStart::Invalid(Error::Inval),
            Some((_, hs)) => match Self::image_size_of(&hs) {
                None => LoadStart::Refused,
                Some(size) => LoadStart::Region(size),
            },
        }
    }

    /// The mapping flags of ELF segment flags.
    pub fn flags_of(flags: u32) -> (r: usize)
        ensures
            r == map_flags(flags),
    {
        (if flags & 4 == 4 { MAP_READ } else { 0 }) | (if flags & 2 == 2 { MAP_WRITE } else { 0 })
            | (if flags & 1 == 1 { MAP_EXECUTE } else { 0 })
    }

    /// Places one loadable segment of an image of `data_len` bytes in a
    /// region of `region_len` bytes at `base`, if it fits.
    pub fn place_segment(h: ProgramRow, base: usize, data_len: usize, region_len: usize) -> (r: Option<Segment>)
        ensures
            segment_fits(h, base, data_len as nat, region_len) ==> r == Some(segment_of(h, base)),
            !segment_fits(h, base, data_len as nat, region_len) ==> r is None,
    {
        proof { lemma_page_size_pow2(); }
        let vaddr = h.1 as usize;
        let memsz = h.2 as usize;
        if vaddr > usize::MAX - base {
            return None;
        }
        let start = vaddr + base;
        if start > usize::MAX - memsz {
            return None;
        }
        let end = start + memsz;
        if end > usize::MAX - (PAGE_SIZE - 1) {
            return None;
        }
        if h.3 > u64::MAX - h.4 {
            return None;
        }
        let src = h.3 as usize;
        let src_end = (h.3 + h.4) as usize;
        if src > src_end || src_end > data_len {
            return None;
        }
        let len = src_end - src;
        if vaddr > usize::MAX - len || vaddr + len > region_len {
            return None;
        }
        Some(Segment {
            map_start: align_down(start, PAGE_SIZE),
            map_end: align_up(end, PAGE_SIZE),
            flags: Self::flags_of(h.5),
            src,
            dst: vaddr,
            len,
        })
    }

    /// Places the loadable segments of program headers `hs` in order
    /// when the image is laid out; none when one does not fit.
    pub fn place_segments(hs: &Vec<ProgramRow>, base: usize, data_len: usize, region_len: usize) -> (r: Option<Vec<Segment>>)
        ensures
            opt_segments(r) == plan_segments(hs@, base, data_len as nat, region_len),
    {
        let mut out: Vec<Segment> = Vec::new();
        let mut i: usize = 0;
        assert(hs@.take(0) =~= Seq::<ProgramRow>::empty());
        while i < hs.len()
            invariant
                i <= hs.len(),
                plan_segments(hs@.take(i as int), base, data_len as nat, region_len) == Some(out@),
            decreases hs.len() - i,
        {
            let h = hs[i];
            assert(hs@.take(i + 1).drop_last() =~= hs@.take(i as int));
            assert(hs@.take(i + 1).last() == h);
            if h.0 {
                match Self::place_segment(h, base, data_len, region_len) {
                    Some(seg) => {
                        out.push(seg);
                    },
                    None => {
                        proof {
                            lemma_plan_segments_none_extends(hs@, base, data_len as nat, region_len, i + 1);
                        }
                        return None;
                    },
                }
            }
            i = i + 1;
        }
        assert(hs@.take(hs.len() as int) =~= hs@);
        Some(out)
    }

    /// The pages of the last executable segment, `(0, 0)` if none.
    pub fn text_of(segs: &Vec<Segment>) -> (r: (usize, usize))
        ensures
            r == text_range(segs@),
    {
        let mut i = segs.len();
        assert(segs@.take(i as int) =~= segs@);
        while i > 0
            invariant
                i <= segs.len(),
                text_range(segs@) == text_range(segs@.take(i as int)),
            decreases i,
        {
            let seg = segs[i - 1];
            assert(segs@.take(i as int).drop_last() =~= segs@.take(i - 1));
            assert(segs@.take(i as int).last() == seg);
            if seg.flags & MAP_EXECUTE == MAP_EXECUTE {
                return (seg.map_start, seg.map_end);
            }
            i = i - 1;
        }
        assert(segs@.take(0) =~= Seq::<Segment>::empty());
        (0, 0)
    }

    /// The relocation writes for entries `es` (type, addend, offset) of an
    /// image placed at `base`; none when an entry is not
    /// base-relative or an address overflows.
    pub fn relocate(es: &Vec<(u32, u64, u64)>, base: usize) -> (r: Option<Vec<(usize, usize)>>)
        ensures
            opt_relocations(r) == plan_relocations(es@, base),
    {
        let mut out: Vec<(usize, usize)> = Vec::new();
        let mut i: usize = 0;
        assert(es@.take(0) =~= Seq::<(u32, u64, u64)>::empty());
        while i < es.len()
            invariant
                i <= es.len(),
                plan_relocations(es@.take(i as int), base) == Some(out@),
            decreases es.len() - i,
        {
            let e = es[i];
            assert(es@.take(i + 1).drop_last() =~= es@.take(i as int));
            assert(es@.take(i + 1).last() == e);
            let addend = e.1 as usize;
            let offset = e.2 as usize;
            if e.0 == R_X86_64_RELATIVE && base <= usize::MAX - addend && base <= usize::MAX - offset {
                out.push((base + offset, base + addend));
            } else {
                proof { lemma_plan_relocations_none_extends(es@, base, i + 1); }
                return None;
            }
            i = i + 1;
        }
        assert(es@.take(es.len() as int) =~= es@);
        Some(out)
    }

    /// Second loading step: places the image in the region that starts at
    /// `region_start` and gives what to copy, relocate and make executable,
    /// and where execution starts; the loader records the region, the code
    /// pages and the entry point. Nothing is recorded when the image cannot
    /// be placed.
    pub fn load_finish(&mut self, region_start: usize) -> (r: LoadFinish)
        requires
            has_elf_magic(old(self)@.data),
        ensures
            match r {
                LoadFinish::Placed(p) => {
                    &&& finish_of(old(self)@.data, region_start) == Some(p@)
                    &&& final(self)@ == (LoaderView {
                        virt_start: region_start,
                        text_section: p@.text,
                        entry_point: p@.entry,
                        ..old(self)@
                    })
                },
                LoadFinish::Refused => {
                    &&& finish_of(old(self)@.data, region_start) is None
                    &&& final(self)@ == old(self)@
                },
            },
    {
        if !image_is_sound(self.data.as_slice()) {
            return LoadFinish::Refused;
        }
        let (entry, hs) = match elf_layout(&self.data) {
            None => return LoadFinish::Refused,
            Some(x) => x,
        };
        let size = match Self::image_size_of(&hs) {
            None => return LoadFinish::Refused,
            Some(s) => s,
        };
        let segments = match Self::place_segments(&hs, region_start, self.data.len(), size) {
            None => return LoadFinish::Refused,
            Some(v) => v,
        };
        proof { reveal_strlit(".rela.dyn"); }
        match elf_rela_entries(&self.data, ".rela.dyn") {
            Some(Ok(Some(es))) => {
                if Self::relocate(&es, region_start).is_none() {
                    return LoadFinish::Refused;
                }
            },
            _ => {},
        }
        let relocations = match relocate_dyn(&self.data, region_start) {
            Ok(v) => v,
            Err(_) => Vec::new(),
        };
        let text = Self::text_of(&segments);
        let entry_off = entry as usize;
        if entry_off > usize::MAX - region_start {
            return LoadFinish::Refused;
        }
        proof {
            lemma_plan_segments_sound(hs@, region_start, self.data@.len(), size);
            lemma_text_range_sound(segments@, region_start, self.data@.len(), size);
        }
        let plan = LoadPlan {
            segments,
            relocations,
            text,
            text_pages: (text.1 - text.0) / PAGE_SIZE,
            entry: entry_off + region_start,
        };
        self.virt_start = region_start;
        self.text_section = text;
        self.entry_point = plan.entry;
        LoadFinish::Placed(plan)
    }

}

} // verus!
