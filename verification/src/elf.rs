//! Byte-level reading of the ELF tables of a domain image: which images
//! `xmas_elf` reads without panicking when the loader asks it for the
//! program headers and for the `.rela.dyn` relocations.
//!
//! Fields are read little-endian, as `xmas_elf` reads them on the x86-64
//! machines the domains are built for. The tables must lie inside the image
//! at offsets that keep their entries 8-byte aligned relative to its start.

use vstd::prelude::*;

verus! {

/// A little-endian `u16` at byte `o`.
pub open spec fn le16(d: Seq<u8>, o: int) -> int {
    d[o] + d[o + 1] * 256
}

/// A little-endian `u32` at byte `o`.
pub open spec fn le32(d: Seq<u8>, o: int) -> int {
    le16(d, o) + le16(d, o + 2) * 65536
}

/// A little-endian `u64` at byte `o`.
pub open spec fn le64(d: Seq<u8>, o: int) -> int {
    le32(d, o) + le32(d, o + 4) * 4294967296
}

/// `xmas_elf::ElfFile::new` succeeds: the magic number, a known class and a
/// file long enough for both parts of the header of that class.
pub open spec fn header_parses(d: Seq<u8>) -> bool {
    &&& d.len() >= 16
    &&& d[0] == 0x7f && d[1] == 0x45 && d[2] == 0x4c && d[3] == 0x46
    &&& (d[4] == 1 && d.len() >= 52) || (d[4] == 2 && d.len() >= 64)
}

/// The image is a 64-bit ELF file (class 2); otherwise, when its header
/// parses, a 32-bit one (class 1).
pub open spec fn is64(d: Seq<u8>) -> bool { d[4] == 2 }

/// The alignment of the header structures of the image's class.
pub open spec fn word(d: Seq<u8>) -> int { if is64(d) { 8 } else { 4 } }

/// Offset of the program header table.
pub open spec fn ph_off(d: Seq<u8>) -> int { if is64(d) { le64(d, 32) } else { le32(d, 28) } }
/// Offset of the section header table.
pub open spec fn sh_off(d: Seq<u8>) -> int { if is64(d) { le64(d, 40) } else { le32(d, 32) } }
/// Size of a program header.
pub open spec fn ph_es(d: Seq<u8>) -> int { if is64(d) { le16(d, 54) } else { le16(d, 42) } }
/// Number of program headers.
pub open spec fn ph_cnt(d: Seq<u8>) -> int { if is64(d) { le16(d, 56) } else { le16(d, 44) } }
/// Size of a section header.
pub open spec fn sh_es(d: Seq<u8>) -> int { if is64(d) { le16(d, 58) } else { le16(d, 46) } }
/// Number of section headers.
pub open spec fn sh_cnt(d: Seq<u8>) -> int { if is64(d) { le16(d, 60) } else { le16(d, 48) } }
/// Index of the section holding the section names.
pub open spec fn sh_str(d: Seq<u8>) -> int { if is64(d) { le16(d, 62) } else { le16(d, 50) } }
/// The size of the program header structure of the image's class.
pub open spec fn ph_min(d: Seq<u8>) -> int { if is64(d) { 56 } else { 32 } }
/// The size of the section header structure of the image's class.
pub open spec fn sh_min(d: Seq<u8>) -> int { if is64(d) { 64 } else { 40 } }
/// The size of a relocation with addend of the image's class.
pub open spec fn rela_size(d: Seq<u8>) -> int { if is64(d) { 24 } else { 12 } }

/// Where section header `i` starts.
pub open spec fn sh_at(d: Seq<u8>, i: int) -> int { sh_off(d) + i * sh_es(d) }
/// The name index of section `i`.
pub open spec fn sec_name(d: Seq<u8>, i: int) -> int { le32(d, sh_at(d, i)) }
/// The type of section `i`.
pub open spec fn sec_type(d: Seq<u8>, i: int) -> int { le32(d, sh_at(d, i) + 4) }
/// The file offset of section `i`.
pub open spec fn sec_offset(d: Seq<u8>, i: int) -> int {
    if is64(d) { le64(d, sh_at(d, i) + 24) } else { le32(d, sh_at(d, i) + 16) }
}
/// The size of section `i`.
pub open spec fn sec_size(d: Seq<u8>, i: int) -> int {
    if is64(d) { le64(d, sh_at(d, i) + 32) } else { le32(d, sh_at(d, i) + 20) }
}

/// The program headers that `program_iter` reads lie in the image, are at
/// least as large as the header structure and aligned to it relative to
/// the start of the image (no table is read when its count, offset or
/// entry size is zero).
pub open spec fn ph_sound(d: Seq<u8>) -> bool {
    &&& header_parses(d)
    &&& (ph_cnt(d) > 0 && ph_off(d) > 0 && ph_es(d) > 0) ==> {
        &&& ph_es(d) >= ph_min(d)
        &&& ph_off(d) + ph_cnt(d) * ph_es(d) <= d.len()
        &&& ph_off(d) % word(d) == 0
        &&& (ph_cnt(d) <= 1 || ph_es(d) % word(d) == 0)
    }
}

/// A section type `xmas_elf` knows and that is not the null type: only
/// such sections have their names read.
pub open spec fn named_type(t: int) -> bool {
    (1 <= t <= 11) || (14 <= t <= 18) || t >= 0x60000000
}

/// The start of the section names, when the names section's header and
/// start lie in the image; otherwise no section name can be read.
pub open spec fn names_at(d: Seq<u8>) -> Option<int> {
    if sh_at(d, sh_str(d)) + sh_es(d) <= d.len() && sec_offset(d, sh_str(d)) <= d.len() {
        Some(sec_offset(d, sh_str(d)))
    } else {
        None
    }
}

/// An optional integer as an optional `u64`.
pub open spec fn opt_u64(o: Option<int>) -> Option<u64> {
    match o {
        Some(t) => Some(t as u64),
        None => None,
    }
}

/// `j` is the first NUL at or after `p`.
pub open spec fn first_nul(d: Seq<u8>, p: int, j: int) -> bool {
    &&& p <= j < d.len()
    &&& d[j] == 0
    &&& forall|k: int| p <= k < j ==> #[trigger] d[k] != 0
}

/// Byte `b` continues a UTF-8 sequence.
pub open spec fn cont(b: u8) -> bool { 0x80 <= b <= 0xbf }

/// The length of the UTF-8 encoded scalar value at `i`, reading no further
/// than `j`; zero when none starts there (the rules of `str::from_utf8`).
pub open spec fn char_len_at(d: Seq<u8>, i: int, j: int) -> int {
    let b = d[i];
    if b < 0x80 {
        1
    } else if 0xc2 <= b <= 0xdf {
        if i + 2 <= j && cont(d[i + 1]) { 2 } else { 0 }
    } else if b == 0xe0 {
        if i + 3 <= j && 0xa0 <= d[i + 1] <= 0xbf && cont(d[i + 2]) { 3 } else { 0 }
    } else if (0xe1 <= b <= 0xec) || b == 0xee || b == 0xef {
        if i + 3 <= j && cont(d[i + 1]) && cont(d[i + 2]) { 3 } else { 0 }
    } else if b == 0xed {
        if i + 3 <= j && 0x80 <= d[i + 1] <= 0x9f && cont(d[i + 2]) { 3 } else { 0 }
    } else if b == 0xf0 {
        if i + 4 <= j && 0x90 <= d[i + 1] <= 0xbf && cont(d[i + 2]) && cont(d[i + 3]) { 4 } else { 0 }
    } else if 0xf1 <= b <= 0xf3 {
        if i + 4 <= j && cont(d[i + 1]) && cont(d[i + 2]) && cont(d[i + 3]) { 4 } else { 0 }
    } else if b == 0xf4 {
        if i + 4 <= j && 0x80 <= d[i + 1] <= 0x8f && cont(d[i + 2]) && cont(d[i + 3]) { 4 } else { 0 }
    } else {
        0
    }
}

/// The bytes from `i` to `j` are valid UTF-8.
pub open spec fn utf8_from(d: Seq<u8>, i: int, j: int) -> bool
    decreases j - i,
{
    if i >= j {
        true
    } else {
        let n = char_len_at(d, i, j);
        n > 0 && utf8_from(d, i + n, j)
    }
}

/// A NUL-terminated UTF-8 string starts at `p` (what `zero::read_str`
/// reads without panicking).
pub open spec fn cstr_utf8(d: Seq<u8>, p: int) -> bool {
    exists|j: int| first_nul(d, p, j) && utf8_from(d, p, j)
}

/// The bytes of `.rela.dyn` with its terminating NUL.
pub open spec fn rela_dyn_name() -> Seq<u8> {
    seq![0x2eu8, 0x72u8, 0x65u8, 0x6cu8, 0x61u8, 0x2eu8, 0x64u8, 0x79u8, 0x6eu8, 0u8]
}

/// The string at `p` is `.rela.dyn`.
pub open spec fn names_rela_dyn(d: Seq<u8>, p: int) -> bool {
    &&& 0 <= p
    &&& p + 10 <= d.len()
    &&& d.subrange(p, p + 10) == rela_dyn_name()
}

/// Section `i`, when its name is read (a known, non-null type and a names
/// section inside the image), has a UTF-8 name inside the image; when that
/// name is `.rela.dyn`, it is a table of relocations with addends of the
/// image's class that lies in the image at an offset aligned for them.
pub open spec fn section_sound(d: Seq<u8>, i: int) -> bool {
    named_type(sec_type(d, i)) ==> match names_at(d) {
        None => true,
        Some(t) => {
            let p = t + sec_name(d, i);
            &&& p <= d.len()
            &&& cstr_utf8(d, p)
            &&& names_rela_dyn(d, p) ==> {
                &&& sec_type(d, i) == 4
                &&& sec_offset(d, i) % word(d) == 0
                &&& sec_offset(d, i) + sec_size(d, i) <= d.len()
                &&& sec_size(d, i) % rela_size(d) == 0
            }
        },
    }
}

/// What is asked of a `.rela.dyn` section whose name can be read is exactly
/// what `xmas_elf` needs to read it as relocations with addends: the `Rela`
/// type, a table inside the image made of whole entries (24 bytes in a
/// 64-bit image, 12 in a 32-bit one) at an offset aligned to the entries'
/// fields (8 bytes in a 64-bit image, 4 in a 32-bit one) and nothing more.
pub proof fn lemma_rela_dyn_needs_only_entry_alignment(d: Seq<u8>, i: int)
    requires
        header_parses(d),
        named_type(sec_type(d, i)),
        names_at(d) is Some,
        names_at(d).unwrap() + sec_name(d, i) <= d.len(),
        cstr_utf8(d, names_at(d).unwrap() + sec_name(d, i)),
        names_rela_dyn(d, names_at(d).unwrap() + sec_name(d, i)),
    ensures
        d[4] == 2 ==> (section_sound(d, i) <==> {
            &&& sec_type(d, i) == 4
            &&& sec_offset(d, i) % 8 == 0
            &&& sec_offset(d, i) + sec_size(d, i) <= d.len()
            &&& sec_size(d, i) % 24 == 0
        }),
        d[4] != 2 ==> (section_sound(d, i) <==> {
            &&& sec_type(d, i) == 4
            &&& sec_offset(d, i) % 4 == 0
            &&& sec_offset(d, i) + sec_size(d, i) <= d.len()
            &&& sec_size(d, i) % 12 == 0
        }),
{
}

/// The section headers, the section names and the `.rela.dyn` table that
/// `find_section_by_name(".rela.dyn")` and `get_data` read lie in the image
/// and are aligned relative to its start; there are fewer than the
/// reserved index `0xff00` of them, and the names section's index is below
/// it too.
pub open spec fn sh_sound(d: Seq<u8>) -> bool {
    &&& header_parses(d)
    &&& sh_cnt(d) < 0xff00
    &&& sh_cnt(d) > 0 ==> {
        &&& sh_es(d) >= sh_min(d)
        &&& sh_off(d) % word(d) == 0
        &&& sh_es(d) % word(d) == 0
        &&& sh_off(d) + sh_cnt(d) * sh_es(d) <= d.len()
        &&& sh_str(d) < 0xff00
    }
    &&& forall|i: int| 0 <= i < sh_cnt(d) ==> #[trigger] section_sound(d, i)
}

/// An image whose program headers and `.rela.dyn` relocations `xmas_elf`
/// reads without panicking.
pub open spec fn elf_image_sound(d: Seq<u8>) -> bool {
    ph_sound(d) && sh_sound(d)
}

/// Whether `xmas_elf::ElfFile::new` accepts the header of `d`.
pub fn header_is_parsed(d: &[u8]) -> (r: bool)
    ensures
        r == header_parses(d@),
{
    d.len() >= 16 && d[0] == 0x7f && d[1] == 0x45 && d[2] == 0x4c && d[3] == 0x46 && ((d[4] == 1 && d.len()
        >= 52) || (d[4] == 2 && d.len() >= 64))
}

fn read16(d: &[u8], o: usize) -> (r: u64)
    requires
        o + 2 <= d.len(),
    ensures
        r == le16(d@, o as int),
        r < 65536,
{
    (d[o] as u64) + (d[o + 1] as u64) * 256
}

fn read32(d: &[u8], o: usize) -> (r: u64)
    requires
        o + 4 <= d.len(),
    ensures
        r == le32(d@, o as int),
        r < 4294967296,
{
    let lo = read16(d, o);
    let hi = read16(d, o + 2);
    lo + hi * 65536
}

fn read64(d: &[u8], o: usize) -> (r: u64)
    requires
        o + 8 <= d.len(),
    ensures
        r == le64(d@, o as int),
{
    let lo = read32(d, o);
    let hi = read32(d, o + 4);
    lo + hi * 4294967296
}

proof fn lemma_small_product(a: int, b: int)
    by (nonlinear_arith)
    requires
        0 <= a < 65536,
        0 <= b < 65536,
    ensures
        0 <= a * b < 4294967296,
{
}

proof fn lemma_entry_inside(off: int, cnt: int, es: int, i: int, len: int)
    by (nonlinear_arith)
    requires
        0 <= i < cnt,
        0 <= es,
        0 <= off,
        off + cnt * es <= len,
    ensures
        off + i * es + es <= len,
        0 <= i * es,
{
}

fn is_cont(b: u8) -> (r: bool)
    ensures
        r == cont(b),
{
    0x80 <= b && b <= 0xbf
}

fn char_len(d: &[u8], i: usize, j: usize) -> (n: usize)
    requires
        i < j <= d.len(),
    ensures
        n == char_len_at(d@, i as int, j as int),
        n <= j - i,
{
    let b = d[i];
    if b < 0x80 {
        1
    } else if 0xc2 <= b && b <= 0xdf {
        if j - i >= 2 && is_cont(d[i + 1]) { 2 } else { 0 }
    } else if b == 0xe0 {
        if j - i >= 3 && 0xa0 <= d[i + 1] && d[i + 1] <= 0xbf && is_cont(d[i + 2]) { 3 } else { 0 }
    } else if (0xe1 <= b && b <= 0xec) || b == 0xee || b == 0xef {
        if j - i >= 3 && is_cont(d[i + 1]) && is_cont(d[i + 2]) { 3 } else { 0 }
    } else if b == 0xed {
        if j - i >= 3 && 0x80 <= d[i + 1] && d[i + 1] <= 0x9f && is_cont(d[i + 2]) { 3 } else { 0 }
    } else if b == 0xf0 {
        if j - i >= 4 && 0x90 <= d[i + 1] && d[i + 1] <= 0xbf && is_cont(d[i + 2]) && is_cont(d[i + 3]) {
            4
        } else {
            0
        }
    } else if 0xf1 <= b && b <= 0xf3 {
        if j - i >= 4 && is_cont(d[i + 1]) && is_cont(d[i + 2]) && is_cont(d[i + 3]) { 4 } else { 0 }
    } else if b == 0xf4 {
        if j - i >= 4 && 0x80 <= d[i + 1] && d[i + 1] <= 0x8f && is_cont(d[i + 2]) && is_cont(d[i + 3]) {
            4
        } else {
            0
        }
    } else {
        0
    }
}

/// Whether the bytes from `i0` to `j` are valid UTF-8.
pub fn utf8_range(d: &[u8], i0: usize, j: usize) -> (r: bool)
    requires
        i0 <= j <= d.len(),
    ensures
        r == utf8_from(d@, i0 as int, j as int),
{
    let mut i = i0;
    while i < j
        invariant
            i0 <= i <= j <= d.len(),
            utf8_from(d@, i0 as int, j as int) == utf8_from(d@, i as int, j as int),
        decreases j - i,
    {
        let n = char_len(d, i, j);
        if n == 0 {
            return false;
        }
        i = i + n;
    }
    true
}

/// Whether a NUL-terminated UTF-8 string starts at `p`.
fn utf8_cstr_at(d: &[u8], p: usize) -> (r: bool)
    ensures
        r == cstr_utf8(d@, p as int),
{
    let mut k = p;
    while k < d.len() && d[k] != 0
        invariant
            p <= k,
            forall|m: int| p <= m < k ==> #[trigger] d@[m] != 0,
        decreases d.len() - k,
    {
        k = k + 1;
    }
    if k >= d.len() {
        assert forall|j: int| !(#[trigger] first_nul(d@, p as int, j) && utf8_from(d@, p as int, j)) by {
            if first_nul(d@, p as int, j) {
                assert(d@[j] != 0);
            }
        }
        return false;
    }
    assert(first_nul(d@, p as int, k as int));
    assert forall|j: int| #[trigger] first_nul(d@, p as int, j) implies j == k by {
        if j < k {
            assert(d@[j] != 0);
        } else if j > k {
            assert(d@[k as int] != 0);
        }
    }
    utf8_range(d, p, k)
}

/// Whether the string at `p` is `.rela.dyn`.
fn is_rela_dyn_at(d: &[u8], p: usize) -> (r: bool)
    ensures
        r == names_rela_dyn(d@, p as int),
{
    if p > d.len() || d.len() - p < 10 {
        return false;
    }
    let want: [u8; 10] = [0x2e, 0x72, 0x65, 0x6c, 0x61, 0x2e, 0x64, 0x79, 0x6e, 0];
    let ghost w = rela_dyn_name();
    assert(want@ =~= w);
    let mut k: usize = 0;
    while k < 10
        invariant
            k <= 10,
            p + 10 <= d.len(),
            want@ == w,
            w == rela_dyn_name(),
            forall|m: int| 0 <= m < k ==> d@[p + m] == w[m],
        decreases 10 - k,
    {
        if d[p + k] != want[k] {
            assert(d@.subrange(p as int, p + 10)[k as int] != w[k as int]);
            assert(d@.subrange(p as int, p + 10) != w);
            return false;
        }
        k = k + 1;
    }
    assert(d@.subrange(p as int, p + 10) =~= w);
    true
}

/// The header fields of an image whose header parses, read in its class.
struct Fields {
    wide: bool,
    w: u64,
    sh_off: u64,
    sh_es: u64,
    sh_cnt: u64,
    sh_str: u64,
}

fn fields(d: &[u8]) -> (f: Fields)
    requires
        header_parses(d@),
    ensures
        f.wide == is64(d@),
        f.w == word(d@),
        f.sh_off == sh_off(d@),
        f.sh_es == sh_es(d@),
        f.sh_cnt == sh_cnt(d@),
        f.sh_str == sh_str(d@),
        f.sh_es < 65536,
        f.sh_cnt < 65536,
        f.sh_str < 65536,
{
    if d[4] == 2 {
        Fields { wide: true, w: 8, sh_off: read64(d, 40), sh_es: read16(d, 58), sh_cnt: read16(d, 60), sh_str: read16(d, 62) }
    } else {
        Fields { wide: false, w: 4, sh_off: read32(d, 32), sh_es: read16(d, 46), sh_cnt: read16(d, 48), sh_str: read16(d, 50) }
    }
}

/// The type, name index, offset and size of section header `i`.
fn section_fields(d: &[u8], at: usize, wide: bool) -> (r: (u64, u64, u64, u64))
    requires
        at + 40 <= d.len(),
        wide ==> at + 64 <= d.len(),
    ensures
        r.0 == le32(d@, at + 4),
        r.1 == le32(d@, at as int),
        wide ==> r.2 == le64(d@, at + 24) && r.3 == le64(d@, at + 32),
        !wide ==> r.2 == le32(d@, at + 16) && r.3 == le32(d@, at + 20),
{
    let ty = read32(d, at + 4);
    let name = read32(d, at);
    if wide {
        (ty, name, read64(d, at + 24), read64(d, at + 32))
    } else {
        (ty, name, read32(d, at + 16), read32(d, at + 20))
    }
}

/// Whether section `i` is sound, given where the names start.
fn section_is_sound(d: &[u8], i: u64, f: &Fields, names: Option<u64>) -> (r: bool)
    requires
        header_parses(d@),
        0 <= i < sh_cnt(d@),
        f.wide == is64(d@),
        f.w == word(d@),
        f.sh_off == sh_off(d@),
        f.sh_es == sh_es(d@),
        f.sh_es < 65536,
        sh_es(d@) >= sh_min(d@),
        sh_off(d@) + sh_cnt(d@) * sh_es(d@) <= d.len(),
        names == opt_u64(names_at(d@)),
        names_at(d@) matches Some(t) ==> t <= d@.len(),
    ensures
        r == section_sound(d@, i as int),
{
    proof {
        lemma_entry_inside(f.sh_off as int, sh_cnt(d@), f.sh_es as int, i as int, d@.len() as int);
        lemma_small_product(i as int, f.sh_es as int);
    }
    let at = (f.sh_off + i * f.sh_es) as usize;
    assert(at == sh_at(d@, i as int));
    let (ty, name, s_off, s_size) = section_fields(d, at, f.wide);
    let named = (1 <= ty && ty <= 11) || (14 <= ty && ty <= 18) || ty >= 0x60000000;
    if !named {
        return true;
    }
    let t = match names {
        None => return true,
        Some(t) => t,
    };
    if name > d.len() as u64 - t {
        return false;
    }
    let p = (t + name) as usize;
    if !utf8_cstr_at(d, p) {
        return false;
    }
    if !is_rela_dyn_at(d, p) {
        return true;
    }
    let rsize: u64 = if f.wide { 24 } else { 12 };
    ty == 4 && s_off % f.w == 0 && s_off <= d.len() as u64 && s_size <= d.len() as u64 - s_off && s_size % rsize == 0
}

/// Whether `xmas_elf` reads the program headers of `d` without panicking,
/// as [`ph_sound`] states.
pub fn program_headers_sound(d: &[u8]) -> (r: bool)
    ensures
        r == ph_sound(d@),
{
    if !header_is_parsed(d) {
        return false;
    }
    let len = d.len() as u64;
    let (off, es, cnt, w, min) = if d[4] == 2 {
        (read64(d, 32), read16(d, 54), read16(d, 56), 8u64, 56u64)
    } else {
        (read32(d, 28), read16(d, 42), read16(d, 44), 4u64, 32u64)
    };
    proof { lemma_small_product(cnt as int, es as int); }
    if cnt > 0 && off > 0 && es > 0 {
        if es < min || off > len || cnt * es > len - off || off % w != 0 || (cnt > 1 && es % w != 0) {
            return false;
        }
    }
    true
}

/// Whether `xmas_elf` finds `.rela.dyn` and reads its table without
/// panicking, as [`sh_sound`] states.
pub fn section_headers_sound(d: &[u8]) -> (r: bool)
    ensures
        r == sh_sound(d@),
{
    if !header_is_parsed(d) {
        return false;
    }
    let f = fields(d);
    let len = d.len() as u64;
    if f.sh_cnt >= 0xff00 {
        return false;
    }
    if f.sh_cnt == 0 {
        assert forall|i: int| 0 <= i < sh_cnt(d@) implies #[trigger] section_sound(d@, i) by {}
        return true;
    }
    let min: u64 = if f.wide { 64 } else { 40 };
    proof { lemma_small_product(f.sh_cnt as int, f.sh_es as int); }
    if f.sh_es < min || f.sh_off % f.w != 0 || f.sh_es % f.w != 0 || f.sh_off > len || f.sh_cnt * f.sh_es > len
        - f.sh_off || f.sh_str >= 0xff00 {
        return false;
    }
    proof { lemma_small_product(f.sh_str as int, f.sh_es as int); }
    let prod = f.sh_str * f.sh_es;
    let names: Option<u64> = if prod <= len - f.sh_off && f.sh_es <= len - f.sh_off - prod {
        let str_at = f.sh_off + prod;
        assert(str_at == sh_at(d@, sh_str(d@)));
        let (_, _, t, _) = section_fields(d, str_at as usize, f.wide);
        assert(t == sec_offset(d@, sh_str(d@)));
        if t <= len { Some(t) } else { None }
    } else {
        None
    };
    assert(names == opt_u64(names_at(d@)));
    let mut i: u64 = 0;
    while i < f.sh_cnt
        invariant
            i <= f.sh_cnt,
            header_parses(d@),
            f.sh_cnt == sh_cnt(d@),
            f.wide == is64(d@),
            f.w == word(d@),
            f.sh_off == sh_off(d@),
            f.sh_es == sh_es(d@),
            f.sh_es < 65536,
            sh_es(d@) >= sh_min(d@),
            sh_off(d@) + sh_cnt(d@) * sh_es(d@) <= d.len(),
            names == opt_u64(names_at(d@)),
            names_at(d@) matches Some(t) ==> t <= d@.len(),
            forall|k: int| 0 <= k < i ==> #[trigger] section_sound(d@, k),
        decreases f.sh_cnt - i,
    {
        if !section_is_sound(d, i, &f, names) {
            return false;
        }
        i = i + 1;
    }
    true
}

/// Whether `xmas_elf` reads the tables of the image `d` without panicking,
/// as [`elf_image_sound`] states.
pub fn image_is_sound(d: &[u8]) -> (r: bool)
    ensures
        r == elf_image_sound(d@),
{
    program_headers_sound(d) && section_headers_sound(d)
}

} // verus!
