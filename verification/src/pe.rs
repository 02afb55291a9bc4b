//! Portable Executable images: the sections, exports and imports of a kernel
//! module, and its base relocations.
use vstd::prelude::*;
use crate::bytes::{from_le16, from_le32, from_le64, read_u16_le, read_u32_le, read_u64_le};
use crate::vm::{spec_write, Vm};
use crate::bytes::{le64, lemma_le64_roundtrip, u64_le};
use crate::text::{decimal, hash_number, hex_lower, lossy_string, pdb_signature, pdb_signature_text, pe_info_line, utf8_lossy};
use crate::object_file::{
    machine_architecture, object_architecture, object_entry, object_format, object_format_of, object_image_base,
    object_pdb_info, object_pdb_of, object_section, object_section_count, object_section_count_of, object_section_of,
    object_section_view, pe_image_base, Architecture, ObjectFormat, ReportedSection,
};
use std::collections::HashMap;

verus! {

broadcast use vstd::std_specs::hash::group_hash_axioms;

/// One section of a PE image.
pub struct Section {
    pub name: String,
    /// Virtual address of the section: image base plus its relative address.
    pub virtual_address: u64,
    pub virtual_size: u64,
    pub raw_data: Vec<u8>,
}

/// One exported function.
pub struct ExportEntry {
    /// Its name, or `#` and its ordinal when it is exported by ordinal only.
    pub name: String,
    pub rva: u32,
    pub ordinal: u16,
    /// The forwarder string when the export forwards to another module.
    pub forwarder: Option<String>,
}

/// The functions imported from one module.
pub struct ImportEntry {
    pub dll_name: String,
    pub functions: Vec<ImportFunction>,
}

/// One imported function.
pub struct ImportFunction {
    /// Its name, or `#` and its ordinal for an import by ordinal.
    pub name: String,
    /// Relative address of the slot in the import address table to patch.
    pub iat_rva: u32,
}

/// The little-endian 16-bit value at `off`.
pub open spec fn u16_at(raw: Seq<u8>, off: int) -> u16 {
    from_le16(raw.subrange(off, off + 2))
}

/// The little-endian 32-bit value at `off`.
pub open spec fn u32_at(raw: Seq<u8>, off: int) -> u32 {
    from_le32(raw.subrange(off, off + 4))
}

/// The little-endian 64-bit value at `off`.
pub open spec fn u64_at(raw: Seq<u8>, off: int) -> u64 {
    from_le64(raw.subrange(off, off + 8))
}

/// File offset of the NT headers (`e_lfanew` of the DOS header).
pub open spec fn nt_offset(raw: Seq<u8>) -> int {
    u32_at(raw, 0x3C) as int
}

/// Entry `index` of the data directory of a PE32+ optional header: relative
/// address and size, or `None` when it lies past the end of the file.
pub open spec fn data_directory(raw: Seq<u8>, index: int) -> Option<(u32, u32)> {
    let off = nt_offset(raw) + 24 + 112 + index * 8;
    if off + 8 <= raw.len() {
        Some((u32_at(raw, off), u32_at(raw, off + 4)))
    } else {
        None
    }
}

/// File offset of the section table.
pub open spec fn section_table(raw: Seq<u8>) -> int {
    nt_offset(raw) + 24 + u16_at(raw, nt_offset(raw) + 20)
}

/// Number of section headers.
pub open spec fn section_count(raw: Seq<u8>) -> int {
    u16_at(raw, nt_offset(raw) + 6) as int
}

/// File offset of section header `k`.
pub open spec fn header_at(raw: Seq<u8>, k: int) -> int {
    section_table(raw) + 40 * k
}

/// Relative address of section `k`.
pub open spec fn header_vaddr(raw: Seq<u8>, k: int) -> u32 {
    u32_at(raw, header_at(raw, k) + 12)
}

/// File offset of the raw data of section `k`.
pub open spec fn header_raw_ptr(raw: Seq<u8>, k: int) -> u32 {
    u32_at(raw, header_at(raw, k) + 20)
}

/// Extent of section `k` in memory: its virtual size, or its raw size when
/// the virtual size is zero.
pub open spec fn header_span(raw: Seq<u8>, k: int) -> u32 {
    let v = u32_at(raw, header_at(raw, k) + 8);
    if v > 0 {
        v
    } else {
        u32_at(raw, header_at(raw, k) + 16)
    }
}

/// Section header `k` covers `rva`.
pub open spec fn header_covers(raw: Seq<u8>, k: int, rva: u32) -> bool {
    header_vaddr(raw, k) <= rva < header_vaddr(raw, k) + header_span(raw, k)
}

/// The file offset of `rva` by the section headers from `k` on: through the
/// first header that covers it; otherwise `rva` itself inside the first page
/// (the headers); otherwise none.
pub open spec fn file_offset_from(raw: Seq<u8>, rva: u32, k: int) -> Option<int>
    decreases section_count(raw) - k,
{
    if k >= section_count(raw) {
        if rva < 4096 {
            Some(rva as int)
        } else {
            None
        }
    } else if header_covers(raw, k, rva) {
        Some(header_raw_ptr(raw, k) + (rva - header_vaddr(raw, k)))
    } else {
        file_offset_from(raw, rva, k + 1)
    }
}

/// The headers from `k` on that the search for `rva` reads lie in the file,
/// and the 32-bit sums it computes do not overflow: a header's end only where
/// `rva` is not below its start, the file offset only in the header that
/// covers `rva`.
pub open spec fn file_offset_defined_from(raw: Seq<u8>, rva: u32, k: int) -> bool
    decreases section_count(raw) - k,
{
    k >= section_count(raw) || {
        &&& 0 <= header_at(raw, k)
        &&& header_at(raw, k) + 24 <= raw.len()
        &&& header_vaddr(raw, k) <= rva ==> header_vaddr(raw, k) + header_span(raw, k) <= u32::MAX
        &&& if header_covers(raw, k, rva) {
            header_raw_ptr(raw, k) + (rva - header_vaddr(raw, k)) <= u32::MAX
        } else {
            file_offset_defined_from(raw, rva, k + 1)
        }
    }
}

/// The DOS and file headers lie in the file.
pub open spec fn headers_present(raw: Seq<u8>) -> bool {
    raw.len() >= 0x40 && nt_offset(raw) + 22 <= raw.len()
}

/// The file offset of `rva` by the section table of `raw`.
pub open spec fn file_offset(raw: Seq<u8>, rva: u32) -> Option<int> {
    file_offset_from(raw, rva, 0)
}

/// Finding the file offset of `rva` reads only bytes of the file and its sums
/// do not overflow.
pub open spec fn file_offset_defined(raw: Seq<u8>, rva: u32) -> bool {
    headers_present(raw) && file_offset_defined_from(raw, rva, 0)
}

/// Relative address of a parsed section.
pub open spec fn section_rva(s: Section, image_base: u64) -> u32 {
    (s.virtual_address - image_base) as u32
}

/// A parsed section covers `rva`.
pub open spec fn section_covers(s: Section, image_base: u64, rva: u32) -> bool {
    section_rva(s, image_base) <= rva < section_rva(s, image_base) + (s.virtual_size as u32)
}

/// Some parsed section from `i` on covers `rva`.
pub open spec fn covered_from(secs: Seq<Section>, image_base: u64, rva: u32, i: int) -> bool
    decreases secs.len() - i,
{
    0 <= i < secs.len() && (section_covers(secs[i], image_base, rva) || covered_from(
        secs,
        image_base,
        rva,
        i + 1,
    ))
}

/// The sections from `i` on that the search for `rva` looks at lie above the
/// image base and their 32-bit ends do not overflow.
pub open spec fn covered_defined_from(secs: Seq<Section>, image_base: u64, rva: u32, i: int) -> bool
    decreases secs.len() - i,
{
    i < 0 || i >= secs.len() || {
        &&& secs[i].virtual_address >= image_base
        &&& section_rva(secs[i], image_base) + (secs[i].virtual_size as u32) <= u32::MAX
        &&& (section_covers(secs[i], image_base, rva) || covered_defined_from(
            secs,
            image_base,
            rva,
            i + 1,
        ))
    }
}

/// The bytes of the NUL-terminated string at `off`: up to the first zero byte
/// or the end of the file.
pub open spec fn cstring_end(raw: Seq<u8>, off: int) -> int
    decreases raw.len() - off,
{
    if off < 0 || off >= raw.len() || raw[off] == 0 {
        off
    } else {
        cstring_end(raw, off + 1)
    }
}

/// The text of the NUL-terminated string at `off`.
pub open spec fn cstring(raw: Seq<u8>, off: int) -> Seq<char> {
    utf8_lossy(raw.subrange(off, cstring_end(raw, off)))
}

/// An export as plain values: name, relative address, ordinal, forwarder.
pub open spec fn export_view(e: ExportEntry) -> (Seq<char>, u32, u16, Option<Seq<char>>) {
    (e.name@, e.rva, e.ordinal, match e.forwarder {
        Some(f) => Some(f@),
        None => None,
    })
}

/// A relocation entry of another type than 10 (64-bit) leaves memory as it
/// was.
pub proof fn lemma_other_entry_keeps_memory(mem: Seq<u8>, data: Seq<u8>, pos: int, page_rva: u32, p_base: u64, delta: u64)
    requires
        u16_at(data, pos) >> 12 != 10,
    ensures
        apply_reloc_entry(mem, data, pos, page_rva, p_base, delta) == mem,
{
}

/// A 64-bit relocation entry adds the base delta, wrapping, to the eight
/// bytes it points at, `p_base + page_rva + offset`, and leaves every other
/// byte of memory as it was.
pub proof fn lemma_dir64_entry_rebases(mem: Seq<u8>, data: Seq<u8>, pos: int, page_rva: u32, p_base: u64, delta: u64)
    requires
        u16_at(data, pos) >> 12 == 10,
        p_base + page_rva + (u16_at(data, pos) & 0x0FFF) + 8 <= mem.len(),
    ensures
        ({
            let target = p_base + page_rva + (u16_at(data, pos) & 0x0FFF);
            let after = apply_reloc_entry(mem, data, pos, page_rva, p_base, delta);
            &&& after.len() == mem.len()
            &&& u64_at(after, target) == u64_at(mem, target).wrapping_add(delta)
            &&& forall|k: int| 0 <= k < mem.len() && !(target <= k < target + 8) ==> #[trigger] after[k] == mem[k]
        }),
{
    let target = p_base + page_rva + (u16_at(data, pos) & 0x0FFF);
    let v = u64_at(mem, target).wrapping_add(delta);
    let after = apply_reloc_entry(mem, data, pos, page_rva, p_base, delta);
    assert(after.subrange(target, target + 8) =~= le64(v));
    lemma_le64_roundtrip(v);
}

/// Entries read from two relocation data at offsets where they hold the
/// same bytes change memory in the same way.
proof fn lemma_reloc_entries_same_bytes(
    mem: Seq<u8>,
    d1: Seq<u8>,
    o1: int,
    d2: Seq<u8>,
    o2: int,
    n: int,
    p_base: u64,
    delta: u64,
)
    requires
        0 <= o1,
        0 <= o2,
        0 <= n,
        o1 + 8 + 2 * n <= d1.len(),
        o2 + 8 + 2 * n <= d2.len(),
        d1.subrange(o1, o1 + 8 + 2 * n) == d2.subrange(o2, o2 + 8 + 2 * n),
    ensures
        apply_reloc_entries(mem, d1, o1, n, p_base, delta) == apply_reloc_entries(mem, d2, o2, n, p_base, delta),
    decreases n,
{
    let c1 = d1.subrange(o1, o1 + 8 + 2 * n);
    let c2 = d2.subrange(o2, o2 + 8 + 2 * n);
    assert(d1.subrange(o1, o1 + 4) =~= c1.subrange(0, 4));
    assert(d2.subrange(o2, o2 + 4) =~= c2.subrange(0, 4));
    if n > 0 {
        assert(d1.subrange(o1, o1 + 8 + 2 * (n - 1)) =~= c1.subrange(0, 8 + 2 * (n - 1)));
        assert(d2.subrange(o2, o2 + 8 + 2 * (n - 1)) =~= c2.subrange(0, 8 + 2 * (n - 1)));
        lemma_reloc_entries_same_bytes(mem, d1, o1, d2, o2, n - 1, p_base, delta);
        let q = 8 + 2 * (n - 1);
        assert(d1.subrange(o1 + q, o1 + q + 2) =~= c1.subrange(q, q + 2));
        assert(d2.subrange(o2 + q, o2 + q + 2) =~= c2.subrange(q, q + 2));
    }
}

/// Relocation data placed after other bytes is read the same from its new
/// place: the blocks of `a + b` from `a.len() + off` on change memory as the
/// blocks of `b` from `off` on.
proof fn lemma_reloc_blocks_after_prefix(mem: Seq<u8>, a: Seq<u8>, b: Seq<u8>, off: int, p_base: u64, delta: u64)
    requires
        0 <= off,
    ensures
        apply_reloc_blocks(mem, a + b, a.len() + off, p_base, delta) == apply_reloc_blocks(mem, b, off, p_base, delta),
    decreases b.len() - off,
{
    let c = a + b;
    let o = a.len() + off;
    if off + 8 <= b.len() {
        assert(c.subrange(o + 4, o + 8) =~= b.subrange(off + 4, off + 8));
        assert(c.subrange(o, o + 4) =~= b.subrange(off, off + 4));
        let size = u32_at(b, off + 4);
        if size >= 8 {
            let n = reloc_entry_count(b, off);
            assert(reloc_entry_count(c, o) == n);
            assert(c.subrange(o, o + 8 + 2 * n) =~= b.subrange(off, off + 8 + 2 * n));
            lemma_reloc_entries_same_bytes(mem, c, o, b, off, n, p_base, delta);
            let m = apply_reloc_entries(mem, b, off, n, p_base, delta);
            if off + size <= b.len() {
                lemma_reloc_blocks_after_prefix(m, a, b, off + size, p_base, delta);
            }
        }
    }
}

/// Relocation data made of a whole block followed by more data is applied
/// block by block: memory after all of it is memory after the first block
/// alone, relocated further by the data that follows the block. A whole
/// block of `size` bytes applies all its `(size - 8) / 2` entries.
pub proof fn lemma_relocation_block_then_rest(
    mem: Seq<u8>,
    block: Seq<u8>,
    rest: Seq<u8>,
    p_base: u64,
    delta: u64,
)
    requires
        block.len() >= 8,
        u32_at(block, 4) == block.len(),
    ensures
        apply_reloc_blocks(mem, block + rest, 0, p_base, delta) == apply_reloc_blocks(
            apply_reloc_blocks(mem, block, 0, p_base, delta),
            rest,
            0,
            p_base,
            delta,
        ),
        apply_reloc_blocks(mem, block, 0, p_base, delta) == apply_reloc_entries(
            mem,
            block,
            0,
            (block.len() - 8) / 2,
            p_base,
            delta,
        ),
{
    let c = block + rest;
    assert(c.subrange(4, 8) =~= block.subrange(4, 8));
    let n = reloc_entry_count(block, 0);
    assert(reloc_entry_count(c, 0) == n);
    assert(c.subrange(0, 8 + 2 * n) =~= block.subrange(0, 8 + 2 * n));
    lemma_reloc_entries_same_bytes(mem, c, 0, block, 0, n, p_base, delta);
    let m = apply_reloc_entries(mem, block, 0, n, p_base, delta);
    lemma_reloc_blocks_after_prefix(m, block, rest, 0, p_base, delta);
    assert(apply_reloc_blocks(m, block, block.len() as int, p_base, delta) == m);
}

/// How many of the first `i` entries of the export address table at file
/// offset `addrs` are nonzero.
pub open spec fn nonzero_addresses(raw: Seq<u8>, addrs: int, i: int) -> nat
    decreases i,
{
    if i <= 0 {
        0
    } else {
        nonzero_addresses(raw, addrs, i - 1) + if u32_at(raw, addrs + 4 * (i - 1)) != 0 {
            1nat
        } else {
            0nat
        }
    }
}

/// Counting nonzero entries over more of the table never counts fewer.
proof fn lemma_nonzero_addresses_grow(raw: Seq<u8>, addrs: int, a: int, b: int)
    requires
        0 <= a <= b,
    ensures
        nonzero_addresses(raw, addrs, a) <= nonzero_addresses(raw, addrs, b),
    decreases b - a,
{
    if a < b {
        lemma_nonzero_addresses_grow(raw, addrs, a, b - 1);
    }
}

/// How many import descriptors, each 20 bytes, stand in `raw` from offset
/// `off` on before the first whose lookup table and name are both zero, or
/// before the end of the file.
pub open spec fn import_descriptor_count(raw: Seq<u8>, off: int) -> nat
    decreases raw.len() - off,
{
    if off < 0 || off + 20 > raw.len() || (u32_at(raw, off) == 0 && u32_at(raw, off + 12) == 0) {
        0
    } else {
        1 + import_descriptor_count(raw, off + 20)
    }
}

/// An import as plain values: module name, then each function's name and
/// address-table slot.
pub open spec fn import_view(e: ImportEntry) -> (Seq<char>, Seq<(Seq<char>, u32)>) {
    (e.dll_name@, e.functions@.map_values(|f: ImportFunction| (f.name@, f.iat_rva)))
}

/// Index of the first section called `name`, if any, from `i` on.
pub open spec fn first_named(secs: Seq<Section>, name: Seq<char>, i: int) -> Option<int>
    decreases secs.len() - i,
{
    if i < 0 || i >= secs.len() {
        None
    } else if secs[i].name@ == name {
        Some(i)
    } else {
        first_named(secs, name, i + 1)
    }
}

/// How many 2-byte entries of the relocation block at `off` are read: the
/// count its size gives, cut off at the end of the data.
pub open spec fn reloc_entry_count(data: Seq<u8>, off: int) -> int {
    let count = (u32_at(data, off + 4) - 8) / 2;
    let room = (data.len() - (off + 8)) / 2;
    if count < room {
        count
    } else {
        room
    }
}

/// Memory after relocation entry `pos` of `data`, for a block whose page is
/// `page_rva`: an entry of type 10 (64-bit) adds `delta`, wrapping, to the
/// eight bytes at `p_base + page_rva + offset` when they lie inside memory.
pub open spec fn apply_reloc_entry(mem: Seq<u8>, data: Seq<u8>, pos: int, page_rva: u32, p_base: u64, delta: u64) -> Seq<u8> {
    let entry = u16_at(data, pos);
    if entry >> 12 == 10 {
        let target = p_base + page_rva + (entry & 0x0FFF);
        if target + 8 <= mem.len() {
            spec_write(mem, target, le64(u64_at(mem, target).wrapping_add(delta)))
        } else {
            mem
        }
    } else {
        mem
    }
}

/// Memory after the first `n` entries of the block at `off`.
pub open spec fn apply_reloc_entries(mem: Seq<u8>, data: Seq<u8>, off: int, n: int, p_base: u64, delta: u64) -> Seq<u8>
    decreases n,
{
    if n <= 0 {
        mem
    } else {
        apply_reloc_entry(
            apply_reloc_entries(mem, data, off, n - 1, p_base, delta),
            data,
            off + 8 + 2 * (n - 1),
            u32_at(data, off),
            p_base,
            delta,
        )
    }
}

/// Memory after the relocation blocks of `data` from `off` on, up to the end
/// of the data or a block of size zero.
pub open spec fn apply_reloc_blocks(mem: Seq<u8>, data: Seq<u8>, off: int, p_base: u64, delta: u64) -> Seq<u8>
    decreases data.len() - off,
{
    if off < 0 || off + 8 > data.len() || u32_at(data, off + 4) < 8 {
        mem
    } else if off + u32_at(data, off + 4) > data.len() {
        apply_reloc_entries(mem, data, off, reloc_entry_count(data, off), p_base, delta)
    } else {
        apply_reloc_blocks(
            apply_reloc_entries(mem, data, off, reloc_entry_count(data, off), p_base, delta),
            data,
            off + u32_at(data, off + 4),
            p_base,
            delta,
        )
    }
}

/// Every relocation block from `off` on that is read has a size of at least
/// 8, and no 64-bit entry's target address overflows.
pub open spec fn reloc_blocks_defined(data: Seq<u8>, off: int, p_base: u64) -> bool
    decreases data.len() - off,
{
    off < 0 || off + 8 > data.len() || u32_at(data, off + 4) == 0 || {
        &&& u32_at(data, off + 4) >= 8
        &&& forall|i: int|
            0 <= i < reloc_entry_count(data, off) && #[trigger] u16_at(data, off + 8 + 2 * i) >> 12 == 10
                ==> p_base + u32_at(data, off) + (u16_at(data, off + 8 + 2 * i) & 0x0FFF) <= u64::MAX
        &&& off + u32_at(data, off + 4) <= data.len() ==> reloc_blocks_defined(
            data,
            off + u32_at(data, off + 4),
            p_base,
        )
    }
}

/// A section as plain values: name, virtual address, size, raw data.
pub open spec fn section_view(s: Section) -> (Seq<char>, u64, u64, Seq<u8>) {
    (s.name@, s.virtual_address, s.virtual_size, s.raw_data@)
}

/// The sections kept from the first `n` reported sections: those with a
/// readable name and a nonzero size; fails when one of them has no data.
pub open spec fn kept_sections(reports: Seq<(Option<Seq<char>>, u64, u64, Option<Seq<u8>>)>, n: int) -> Result<
    Seq<(Seq<char>, u64, u64, Seq<u8>)>,
    (),
>
    decreases n,
{
    if n <= 0 {
        Ok(Seq::empty())
    } else {
        match kept_sections(reports, n - 1) {
            Err(()) => Err(()),
            Ok(prev) => {
                let r = reports[n - 1];
                match r.0 {
                    Some(name) => if r.2 > 0 {
                        match r.3 {
                            Some(data) => Ok(prev.push((name, r.1, r.2, data))),
                            None => Err(()),
                        }
                    } else {
                        Ok(prev)
                    },
                    None => Ok(prev),
                }
            },
        }
    }
}

/// The sections that the `object` crate reports for `bytes`, in order.
pub open spec fn reported_sections(bytes: Seq<u8>) -> Seq<(Option<Seq<char>>, u64, u64, Option<Seq<u8>>)> {
    Seq::new(object_section_count_of(bytes)->0, |i: int| object_section_of(bytes, i as nat)->0)
}

/// The PDB path of the debug record, or "Unknown".
pub open spec fn pdb_name_of(bytes: Seq<u8>) -> Seq<char> {
    match object_pdb_of(bytes) {
        Some((path, _, _)) => utf8_lossy(path),
        None => "Unknown"@,
    }
}

/// The PDB signature (GUID and age) of the debug record, or "Unknown".
pub open spec fn pdb_guid_age_of(bytes: Seq<u8>) -> Seq<char> {
    match object_pdb_of(bytes) {
        Some((_, guid, age)) => pdb_signature_text(guid, age),
        None => "Unknown"@,
    }
}

/// Once keeping the sections has failed, keeping more of them fails too.
pub proof fn lemma_kept_sections_err_stays(
    reports: Seq<(Option<Seq<char>>, u64, u64, Option<Seq<u8>>)>,
    n: int,
    m: int,
)
    requires
        kept_sections(reports, n) is Err,
        n <= m,
    ensures
        kept_sections(reports, m) is Err,
    decreases m - n,
{
    if n < m {
        lemma_kept_sections_err_stays(reports, n, m - 1);
    }
}

/// Keeps the reported sections that have a readable name and a nonzero size,
/// in order; fails when one of them has no readable data.
#[verifier::loop_isolation(false)]
pub fn collect_sections(found: Vec<ReportedSection>) -> (r: Result<Vec<Section>, &'static str>)
    ensures
        match kept_sections(found@.map_values(|s: ReportedSection| object_section_view(s)), found@.len() as int) {
            Ok(secs) => r matches Ok(v) && v@.map_values(|s: Section| section_view(s)) == secs,
            Err(()) => r matches Err(e) && e@ == "Failed to read section data"@,
        },
{
    let ghost reports = found@.map_values(|s: ReportedSection| object_section_view(s));
    let ghost total = found@.len() as int;
    // the count, which fits in a usize, bounds the index below
    let _len = found.len();
    let mut sections: Vec<Section> = Vec::new();
    assert(sections@.map_values(|s: Section| section_view(s)) =~= Seq::empty());
    let mut rest = found;
    let mut i: usize = 0;
    while rest.len() > 0
        invariant
            i + rest@.len() == total,
            total <= usize::MAX,
            reports.len() == total,
            forall|k: int| 0 <= k < rest@.len() ==> #[trigger] object_section_view(rest@[k]) == reports[i + k],
            kept_sections(reports, i as int) == Ok::<Seq<(Seq<char>, u64, u64, Seq<u8>)>, ()>(
                sections@.map_values(|s: Section| section_view(s)),
            ),
        decreases rest@.len(),
    {
        let ghost before = sections@.map_values(|s: Section| section_view(s));
        let ghost rest0 = rest@;
        let section = rest.remove(0);
        assert(object_section_view(section) == reports[i as int]) by {
            assert(object_section_view(rest0[0]) == reports[i + 0]);
        }
        assert forall|k: int| 0 <= k < rest@.len() implies #[trigger] object_section_view(rest@[k]) == reports[i + 1 + k] by {
            assert(rest@[k] == rest0[k + 1]);
            assert(object_section_view(rest0[k + 1]) == reports[i + (k + 1)]);
        }
        if let Some(name) = section.name {
            if section.size > 0 {
                let raw_data = match section.data {
                    Some(d) => d,
                    None => {
                        proof {
                            assert(reports[i as int].0 is Some && reports[i as int].2 > 0 && reports[i as int].3 is None);
                            assert(kept_sections(reports, i + 1) is Err);
                            lemma_kept_sections_err_stays(reports, i + 1, total);
                            assert(kept_sections(reports, total) is Err);
                            assert(kept_sections(reports, total) == Err::<Seq<(Seq<char>, u64, u64, Seq<u8>)>, ()>(()));
                        }
                        return Err("Failed to read section data");
                    },
                };
                sections.push(Section { name, virtual_address: section.address, virtual_size: section.size, raw_data });
                assert(sections@.map_values(|s: Section| section_view(s)) =~= before.push(section_view(sections@.last())));
            }
        }
        i += 1;
    }
    assert(reports.len() == i);
    Ok(sections)
}

/// Parses a PE image and keeps a copy of its first 4 KiB (or of all of it,
/// when shorter) as its header data.
pub fn parse(bytes: &[u8]) -> (r: Result<PeFile, &'static str>)
    ensures
        object_format_of(bytes@) == ObjectFormat::Unparsable ==> (r matches Err(e) && e@
            == "Failed to parse PE file"@),
        object_format_of(bytes@) == ObjectFormat::Other ==> (r matches Err(e) && e@ == "Not a valid PE file"@),
        (object_format_of(bytes@) == ObjectFormat::Pe32 || object_format_of(bytes@) == ObjectFormat::Pe64)
            ==> match kept_sections(reported_sections(bytes@), reported_sections(bytes@).len() as int) {
            Err(()) => r matches Err(e) && e@ == "Failed to read section data"@,
            Ok(secs) => r matches Ok(pe) && {
                &&& pe.raw() == bytes@
                &&& pe.entry() == (u32_at(bytes@, nt_offset(bytes@) + 40) as u64).wrapping_add(pe.base())
                &&& pe.base() == pe_image_base(bytes@, object_format_of(bytes@))
                &&& pe.section_views() == secs
                &&& pe.header() == bytes@.subrange(0, if bytes@.len() < 4096 { bytes@.len() as int } else { 4096 })
                &&& pe.pdb() == (pdb_name_of(bytes@), pdb_guid_age_of(bytes@))
                &&& pe.arch() == machine_architecture(u16_at(bytes@, nt_offset(bytes@) + 4))
            },
        },
{
    let mut pe = PeFile::from_bytes(bytes)?;
    let header_size = if bytes.len() < 4096 { bytes.len() } else { 4096 };
    pe.header_data = vstd::slice::slice_to_vec(bytes.split_at(header_size).0);
    Ok(pe)
}

/// A PE image parsed into the parts the loader uses.
pub struct PeFile {
    pub entry_point: u64,
    pub architecture: Architecture,
    pub image_base: u64,
    pub sections: Vec<Section>,
    pub header_data: Vec<u8>,
    pub pdb_name: String,
    pub pdb_guid_age: String,
    raw_bytes: Vec<u8>,
}

impl PeFile {
    /// The one-line description of the image: its image base in hexadecimal.
    pub fn to_string(&self) -> (r: String)
        ensures
            r@ == "PE File Info (Base: 0x"@ + hex_lower(self.base() as nat) + ")\n"@,
    {
        pe_info_line(self.image_base)
    }

    /// The whole file as read.
    pub closed spec fn raw(&self) -> Seq<u8> {
        self.raw_bytes@
    }

    /// The image base the file was linked for.
    pub closed spec fn base(&self) -> u64 {
        self.image_base
    }

    /// The architecture the image is built for.
    pub closed spec fn arch(&self) -> Architecture {
        self.architecture
    }

    /// The entry point the image reports.
    pub closed spec fn entry(&self) -> u64 {
        self.entry_point
    }

    /// The sections as plain values.
    pub closed spec fn section_views(&self) -> Seq<(Seq<char>, u64, u64, Seq<u8>)> {
        self.sections@.map_values(|s: Section| section_view(s))
    }

    /// The copy of the first bytes of the file.
    pub closed spec fn header(&self) -> Seq<u8> {
        self.header_data@
    }

    /// The PDB path and the PDB signature text.
    pub closed spec fn pdb(&self) -> (Seq<char>, Seq<char>) {
        (self.pdb_name@, self.pdb_guid_age@)
    }

    /// The data of the first section called `.reloc`, if there is one.
    pub closed spec fn reloc_data(&self) -> Option<Seq<u8>> {
        match first_named(self.sections@, ".reloc"@, 0) {
            Some(k) => Some(self.sections@[k].raw_data@),
            None => None,
        }
    }

    /// The file offset of `rva`: by the section table, when a parsed section
    /// covers it.
    pub closed spec fn rva_offset(&self, rva: u32) -> Option<int> {
        if covered_from(self.sections@, self.image_base, rva, 0) {
            file_offset(self.raw(), rva)
        } else {
            None
        }
    }

    /// Translating `rva` reads only bytes of the file and does no overflowing
    /// arithmetic.
    pub closed spec fn rva_offset_defined(&self, rva: u32) -> bool {
        &&& covered_defined_from(self.sections@, self.image_base, rva, 0)
        &&& covered_from(self.sections@, self.image_base, rva, 0) ==> file_offset_defined(
            self.raw(),
            rva,
        )
    }

    /// Entry `index` of the data directory; fails when it lies past the end of
    /// the file.
    fn get_data_directory(&self, index: usize) -> (r: Result<(u32, u32), &'static str>)
        requires
            self.raw().len() >= 0x40,
            nt_offset(self.raw()) + 144 + 8 * index <= u64::MAX,
        ensures
            data_directory(self.raw(), index as int) matches Some(d) ==> r == Ok::<(u32, u32), &'static str>(d),
            data_directory(self.raw(), index as int) is None ==> (r matches Err(e) && e@
                == "Data Directory out of bounds"@),
    {
        let e_lfanew = read_u32_le(self.raw_bytes.as_slice(), 0x3C) as u64;
        assert(self.raw_bytes@.subrange(0x3C, 0x40) == self.raw().subrange(0x3C, 0x40));
        let data_dir_offset = e_lfanew + 24 + 112 + (index as u64) * 8;
        if data_dir_offset + 8 > self.raw_bytes.len() as u64 {
            return Err("Data Directory out of bounds");
        }
        let off = data_dir_offset as usize;
        let rva = read_u32_le(self.raw_bytes.as_slice(), off);
        let size = read_u32_le(self.raw_bytes.as_slice(), off + 4);
        Ok((rva, size))
    }

    /// The file offset of `rva` by the section table.
    fn find_file_offset(&self, rva: u32) -> (r: Option<usize>)
        requires
            file_offset_defined(self.raw(), rva),
        ensures
            r matches Some(o) ==> file_offset(self.raw(), rva) == Some(o as int),
            r is None ==> file_offset(self.raw(), rva) is None,
    {
        let raw = self.raw_bytes.as_slice();
        // the length, which fits in a usize, bounds the offsets below
        let _len = raw.len();
        let e_lfanew = read_u32_le(raw, 0x3C) as usize;
        let num_sections = read_u16_le(raw, e_lfanew + 6) as usize;
        let opt_size = read_u16_le(raw, e_lfanew + 20) as usize;
        let mut sect_ptr: u64 = e_lfanew as u64 + 24 + opt_size as u64;
        let mut k: usize = 0;
        while k < num_sections
            invariant
                raw@ == self.raw(),
                raw@.len() <= usize::MAX,
                num_sections == section_count(raw@),
                sect_ptr == header_at(raw@, k as int),
                k <= num_sections,
                file_offset_defined_from(raw@, rva, k as int),
                file_offset_from(raw@, rva, 0) == file_offset_from(raw@, rva, k as int),
            decreases num_sections - k,
        {
            let sp = sect_ptr as usize;
            let v_addr = read_u32_le(raw, sp + 12);
            let v_size = read_u32_le(raw, sp + 8);
            let r_ptr = read_u32_le(raw, sp + 20);
            let r_size = read_u32_le(raw, sp + 16);
            let effective_v_size = if v_size > 0 { v_size } else { r_size };
            if rva >= v_addr && rva < v_addr + effective_v_size {
                let delta = rva - v_addr;
                return Some((r_ptr + delta) as usize);
            }
            sect_ptr += 40;
            k += 1;
        }
        if rva < 4096 {
            return Some(rva as usize);
        }
        None
    }

    /// Whether finding the file offset of `rva` by the section table reads only
    /// bytes of the file and does no overflowing sum.
    fn file_offset_checked(&self, rva: u32) -> (r: bool)
        ensures
            r == file_offset_defined(self.raw(), rva),
    {
        let raw = self.raw_bytes.as_slice();
        let len = raw.len();
        if len < 0x40 {
            return false;
        }
        let e_lfanew = read_u32_le(raw, 0x3C) as u64;
        if e_lfanew + 22 > len as u64 {
            return false;
        }
        let num_sections = read_u16_le(raw, e_lfanew as usize + 6) as u64;
        let opt_size = read_u16_le(raw, e_lfanew as usize + 20) as u64;
        let mut sect_ptr: u64 = e_lfanew + 24 + opt_size;
        let mut k: u64 = 0;
        while k < num_sections
            invariant
                raw@ == self.raw(),
                len == raw@.len(),
                headers_present(raw@),
                num_sections == section_count(raw@),
                sect_ptr == header_at(raw@, k as int),
                k <= num_sections,
                sect_ptr <= 0x1_0000_0000 + 24 + 0x10000 + 40 * k,
                file_offset_defined(raw@, rva) == file_offset_defined_from(raw@, rva, k as int),
            decreases num_sections - k,
        {
            if sect_ptr + 24 > len as u64 {
                return false;
            }
            let sp = sect_ptr as usize;
            let v_addr = read_u32_le(raw, sp + 12);
            let v_size = read_u32_le(raw, sp + 8);
            let r_ptr = read_u32_le(raw, sp + 20);
            let r_size = read_u32_le(raw, sp + 16);
            let span = if v_size > 0 { v_size } else { r_size };
            if v_addr <= rva {
                if v_addr as u64 + span as u64 > u32::MAX as u64 {
                    return false;
                }
                if rva < v_addr + span {
                    return r_ptr as u64 + (rva - v_addr) as u64 <= u32::MAX as u64;
                }
            }
            sect_ptr += 40;
            k += 1;
        }
        true
    }

    /// Whether finding the file offset of `rva` reads only bytes of the file
    /// and does no overflowing arithmetic: what `rva_to_offset` needs.
    fn rva_offset_checked(&self, rva: u32) -> (r: bool)
        ensures
            r == self.rva_offset_defined(rva),
    {
        let mut i: usize = 0;
        while i < self.sections.len()
            invariant
                i <= self.sections@.len(),
                covered_defined_from(self.sections@, self.image_base, rva, 0) == covered_defined_from(
                    self.sections@,
                    self.image_base,
                    rva,
                    i as int,
                ),
                covered_from(self.sections@, self.image_base, rva, 0) == covered_from(
                    self.sections@,
                    self.image_base,
                    rva,
                    i as int,
                ),
            decreases self.sections@.len() - i,
        {
            let section = &self.sections[i];
            if section.virtual_address < self.image_base {
                return false;
            }
            let start = #[verifier::truncate] ((section.virtual_address - self.image_base) as u32);
            let size = #[verifier::truncate] (section.virtual_size as u32);
            if start as u64 + size as u64 > u32::MAX as u64 {
                return false;
            }
            if rva >= start && rva < start + size {
                return self.file_offset_checked(rva);
            }
            i += 1;
        }
        true
    }

    /// The file offset of `rva`, when a parsed section covers it.
    fn rva_to_offset(&self, rva: u32) -> (r: Option<usize>)
        requires
            self.rva_offset_defined(rva),
        ensures
            r matches Some(o) ==> self.rva_offset(rva) == Some(o as int),
            r is None ==> self.rva_offset(rva) is None,
    {
        let mut i: usize = 0;
        while i < self.sections.len()
            invariant
                i <= self.sections@.len(),
                covered_defined_from(self.sections@, self.image_base, rva, i as int),
                covered_from(self.sections@, self.image_base, rva, 0) == covered_from(
                    self.sections@,
                    self.image_base,
                    rva,
                    i as int,
                ),
                self.rva_offset_defined(rva),
            decreases self.sections@.len() - i,
        {
            let section = &self.sections[i];
            let section_rva = #[verifier::truncate] ((section.virtual_address - self.image_base) as u32);
            let start = section_rva;
            let end = start + #[verifier::truncate] (section.virtual_size as u32);
            if rva >= start && rva < end {
                return self.find_file_offset(rva);
            }
            i += 1;
        }
        None
    }

    /// The NUL-terminated string at file offset `offset`, as text.
    fn read_cstring(&self, offset: usize) -> (r: String)
        requires
            offset <= self.raw().len(),
        ensures
            r@ == cstring(self.raw(), offset as int),
    {
        let raw = self.raw_bytes.as_slice();
        let mut end = offset;
        while end < raw.len() && raw[end] != 0
            invariant
                raw@ == self.raw(),
                offset <= end <= raw@.len(),
                cstring_end(raw@, offset as int) == cstring_end(raw@, end as int),
            decreases raw@.len() - end,
        {
            end += 1;
        }
        let bytes = raw.split_at(end).0.split_at(offset).1;
        assert(bytes@ =~= raw@.subrange(offset as int, end as int));
        lossy_string(bytes)
    }

    /// Relative address of the name of the `j`-th named export.
    pub closed spec fn export_name_rva(&self, names: int, j: int) -> u32 {
        u32_at(self.raw(), names + 4 * j)
    }

    /// The names of the named exports `0..j`, by the index they carry in the
    /// ordinal table; a later name for the same index replaces an earlier one.
    pub closed spec fn export_names(&self, names: int, ordinals: int, j: int) -> Map<u16, Seq<char>>
        decreases j,
    {
        if j <= 0 {
            Map::empty()
        } else {
            self.export_names(names, ordinals, j - 1).insert(
                u16_at(self.raw(), ordinals + 2 * (j - 1)),
                cstring(self.raw(), self.rva_offset(self.export_name_rva(names, j - 1))->0),
            )
        }
    }

    /// Some of the first `count` export names has no file offset.
    pub closed spec fn export_name_unresolved(&self, names: int, count: int) -> bool {
        exists|j: int| 0 <= j < count && #[trigger] self.rva_offset(self.export_name_rva(names, j)) is None
    }

    /// The exports for the first `i` entries of the address table at file
    /// offset `addrs`: entries with a zero address are skipped; the ordinal is
    /// the index plus `base`; the name is the one the name table gives the
    /// index, else `#` and the ordinal; an address inside the export directory
    /// names a forwarder.
    pub closed spec fn export_entries(
        &self,
        dir_rva: u32,
        dir_size: u32,
        base: u32,
        addrs: int,
        names: Map<u16, Seq<char>>,
        i: int,
    ) -> Seq<(Seq<char>, u32, u16, Option<Seq<char>>)>
        decreases i,
    {
        if i <= 0 {
            Seq::empty()
        } else {
            let prev = self.export_entries(dir_rva, dir_size, base, addrs, names, i - 1);
            let f = u32_at(self.raw(), addrs + 4 * (i - 1));
            if f == 0 {
                prev
            } else {
                let ordinal = ((i - 1) + base) as u16;
                let name = if names.contains_key((i - 1) as u16) {
                    names[(i - 1) as u16]
                } else {
                    seq!['#'] + decimal(ordinal as nat)
                };
                let fwd = if dir_rva <= f < dir_rva + dir_size {
                    match self.rva_offset(f) {
                        Some(o) => Some(cstring(self.raw(), o)),
                        None => None,
                    }
                } else {
                    None
                };
                prev.push((name, f, ordinal, fwd))
            }
        }
    }

    /// The exports read from the first `i` entries of the address table at
    /// `addrs` hold one export per nonzero entry, in table order: entry `k`,
    /// when nonzero, gives the export after those of the nonzero entries
    /// before it, with its address and the ordinal `k + base`.
    pub proof fn lemma_export_per_address(
        &self,
        dir_rva: u32,
        dir_size: u32,
        base: u32,
        addrs: int,
        names: Map<u16, Seq<char>>,
        i: int,
        k: int,
    )
        ensures
            self.export_entries(dir_rva, dir_size, base, addrs, names, i).len() == nonzero_addresses(
                self.raw(),
                addrs,
                i,
            ),
            0 <= k < i && u32_at(self.raw(), addrs + 4 * k) != 0 ==> {
                let e = self.export_entries(dir_rva, dir_size, base, addrs, names, i)[nonzero_addresses(
                    self.raw(),
                    addrs,
                    k,
                ) as int];
                &&& e.1 == u32_at(self.raw(), addrs + 4 * k)
                &&& e.2 == (k + base) as u16
            },
        decreases i,
    {
        if i > 0 {
            self.lemma_export_per_address(dir_rva, dir_size, base, addrs, names, i - 1, k);
            if 0 <= k < i - 1 && u32_at(self.raw(), addrs + 4 * k) != 0 {
                lemma_nonzero_addresses_grow(self.raw(), addrs, k + 1, i - 1);
            }
        }
    }

    /// What `get_exports` gives: the exports, or the message of the first
    /// check that fails.
    pub closed spec fn exports(&self) -> Result<Seq<(Seq<char>, u32, u16, Option<Seq<char>>)>, Seq<char>> {
        let raw = self.raw();
        match data_directory(raw, 0) {
            None => Err("Data Directory out of bounds"@),
            Some((dir_rva, dir_size)) => if dir_rva == 0 {
                Ok(Seq::empty())
            } else {
                match self.rva_offset(dir_rva) {
                    None => Err("Invalid Export RVA"@),
                    Some(d) => {
                        let base = u32_at(raw, d + 16);
                        let num_funcs = u32_at(raw, d + 20);
                        let num_names = u32_at(raw, d + 24);
                        match (
                            self.rva_offset(u32_at(raw, d + 28)),
                            self.rva_offset(u32_at(raw, d + 32)),
                            self.rva_offset(u32_at(raw, d + 36)),
                        ) {
                            (None, _, _) => Err("Invalid Address Table RVA"@),
                            (Some(_), None, _) => Err("Invalid Name Table RVA"@),
                            (Some(_), Some(_), None) => Err("Invalid Ordinal Table RVA"@),
                            (Some(a), Some(n), Some(o)) => if self.export_name_unresolved(n, num_names as int) {
                                Err("Invalid Name String RVA"@)
                            } else {
                                Ok(
                                    self.export_entries(
                                        dir_rva,
                                        dir_size,
                                        base,
                                        a,
                                        self.export_names(n, o, num_names as int),
                                        num_funcs as int,
                                    ),
                                )
                            },
                        }
                    },
                }
            },
        }
    }

    /// Name entry `j` of the export name table and its ordinal lie in the
    /// file, and so does its string when it resolves.
    pub closed spec fn export_name_defined(&self, names: int, ordinals: int, j: int) -> bool {
        &&& names + 4 * j + 4 <= self.raw().len()
        &&& self.rva_offset_defined(self.export_name_rva(names, j))
        &&& self.rva_offset(self.export_name_rva(names, j)) matches Some(x) ==> x <= self.raw().len()
            && ordinals + 2 * j + 2 <= self.raw().len()
    }

    /// Address entry `i` of the export address table lies in the file, its
    /// ordinal and directory-range sums do not overflow, and a forwarder string
    /// it points at lies in the file.
    pub closed spec fn export_address_defined(
        &self,
        dir_rva: u32,
        dir_size: u32,
        base: u32,
        addrs: int,
        i: int,
    ) -> bool {
        let f = u32_at(self.raw(), addrs + 4 * i);
        &&& addrs + 4 * i + 4 <= self.raw().len()
        &&& f != 0 ==> {
            &&& i + base <= u32::MAX
            &&& f >= dir_rva ==> dir_rva + dir_size <= u32::MAX
            &&& dir_rva <= f < dir_rva + dir_size ==> self.rva_offset_defined(f) && (self.rva_offset(
                f,
            ) matches Some(x) ==> x <= self.raw().len())
        }
    }

    /// Reading the name and address tables of the export directory stays
    /// inside the file: every name it reaches, and, all names resolving, every
    /// entry of the address table.
    pub closed spec fn export_tables_defined(
        &self,
        dir_rva: u32,
        dir_size: u32,
        base: u32,
        num_funcs: u32,
        num_names: u32,
        a: int,
        n: int,
        o: int,
    ) -> bool {
        &&& forall|j: int|
            0 <= j < num_names && !self.export_name_unresolved(n, j) ==> #[trigger] self.export_name_defined(n, o, j)
        &&& !self.export_name_unresolved(n, num_names as int) ==> forall|i: int|
            0 <= i < num_funcs ==> #[trigger] self.export_address_defined(dir_rva, dir_size, base, a, i)
    }

    /// `get_exports` reads only bytes of the file and does no overflowing
    /// arithmetic.
    pub closed spec fn exports_defined(&self) -> bool {
        let raw = self.raw();
        &&& raw.len() >= 0x40
        &&& match data_directory(raw, 0) {
            None => true,
            Some((dir_rva, dir_size)) => dir_rva != 0 ==> {
                &&& self.rva_offset_defined(dir_rva)
                &&& self.rva_offset(dir_rva) matches Some(d) ==> {
                    let base = u32_at(raw, d + 16);
                    let num_funcs = u32_at(raw, d + 20);
                    let num_names = u32_at(raw, d + 24);
                    let a = self.rva_offset(u32_at(raw, d + 28));
                    let n = self.rva_offset(u32_at(raw, d + 32));
                    let o = self.rva_offset(u32_at(raw, d + 36));
                    &&& d + 40 <= raw.len()
                    &&& self.rva_offset_defined(u32_at(raw, d + 28))
                    &&& a is Some ==> self.rva_offset_defined(u32_at(raw, d + 32))
                    &&& a is Some && n is Some ==> self.rva_offset_defined(u32_at(raw, d + 36))
                    &&& a is Some && n is Some && o is Some ==> self.export_tables_defined(
                        dir_rva,
                        dir_size,
                        base,
                        num_funcs,
                        num_names,
                        a->0,
                        n->0,
                        o->0,
                    )
                }
            },
        }
    }

    /// Where the export directory and its three tables resolve, `get_exports`
    /// can read the image exactly when it can read those tables.
    proof fn lemma_exports_defined_parts(&self, dir_rva: u32, dir_size: u32, d: int, a: int, n: int, o: int)
        requires
            self.raw().len() >= 0x40,
            data_directory(self.raw(), 0) == Some((dir_rva, dir_size)),
            dir_rva != 0,
            self.rva_offset_defined(dir_rva),
            self.rva_offset(dir_rva) == Some(d),
            d + 40 <= self.raw().len(),
            self.rva_offset_defined(u32_at(self.raw(), d + 28)),
            self.rva_offset_defined(u32_at(self.raw(), d + 32)),
            self.rva_offset_defined(u32_at(self.raw(), d + 36)),
            self.rva_offset(u32_at(self.raw(), d + 28)) == Some(a),
            self.rva_offset(u32_at(self.raw(), d + 32)) == Some(n),
            self.rva_offset(u32_at(self.raw(), d + 36)) == Some(o),
        ensures
            self.exports_defined() == self.export_tables_defined(
                dir_rva,
                dir_size,
                u32_at(self.raw(), d + 16),
                u32_at(self.raw(), d + 20),
                u32_at(self.raw(), d + 24),
                a,
                n,
                o,
            ),
    {
    }

    /// Whether `get_exports` can read this image: its reads stay inside the
    /// file and its sums do not overflow (what it requires).
    #[verifier::loop_isolation(false)]
    pub fn exports_readable(&self) -> (r: bool)
        ensures
            r == self.exports_defined(),
    {
        let ghost raw = self.raw();
        let data = self.raw_bytes.as_slice();
        assert(data@ == raw);
        let len = data.len();
        if len < 0x40 {
            return false;
        }
        let (dir_rva, dir_size) = match self.get_data_directory(0) {
            Ok(d) => d,
            Err(_) => return true,
        };
        if dir_rva == 0 {
            return true;
        }
        if !self.rva_offset_checked(dir_rva) {
            return false;
        }
        let d = match self.rva_to_offset(dir_rva) {
            Some(o) => o,
            None => return true,
        };
        if d > len || len - d < 40 {
            return false;
        }
        let base = read_u32_le(data, d + 16);
        let num_funcs = read_u32_le(data, d + 20);
        let num_names = read_u32_le(data, d + 24);
        let addr_table_rva = read_u32_le(data, d + 28);
        let name_table_rva = read_u32_le(data, d + 32);
        let ordinal_table_rva = read_u32_le(data, d + 36);
        if !self.rva_offset_checked(addr_table_rva) {
            return false;
        }
        let a = match self.rva_to_offset(addr_table_rva) {
            Some(o) => o,
            None => return true,
        };
        if !self.rva_offset_checked(name_table_rva) {
            return false;
        }
        let n = match self.rva_to_offset(name_table_rva) {
            Some(o) => o,
            None => return true,
        };
        if !self.rva_offset_checked(ordinal_table_rva) {
            return false;
        }
        let o = match self.rva_to_offset(ordinal_table_rva) {
            Some(o) => o,
            None => return true,
        };
        assert(data_directory(raw, 0) == Some((dir_rva, dir_size)));
        assert(self.rva_offset(u32_at(raw, d + 28)) == Some(a as int));
        assert(self.rva_offset(u32_at(raw, d + 32)) == Some(n as int));
        assert(self.rva_offset(u32_at(raw, d + 36)) == Some(o as int));
        assert(base == u32_at(raw, d + 16) && num_funcs == u32_at(raw, d + 20) && num_names == u32_at(raw, d + 24));
        assert(self.rva_offset(dir_rva) == Some(d as int));
        proof {
            self.lemma_exports_defined_parts(dir_rva, dir_size, d as int, a as int, n as int, o as int);
        }

        // the name table
        let mut j: u32 = 0;
        while j < num_names
            invariant
                data@ == raw,
                raw == self.raw(),
                len == raw.len(),
                j <= num_names,
                !self.export_name_unresolved(n as int, j as int),
                forall|k: int| 0 <= k < j ==> #[trigger] self.export_name_defined(n as int, o as int, k),
            decreases num_names - j,
        {
            if n > len || ((len - n) as u64) < 4 * (j as u64) + 4 {
                assert(!self.export_name_defined(n as int, o as int, j as int));
                return false;
            }
            let name_ptr_rva = read_u32_le(data, n + 4 * (j as usize));
            assert(name_ptr_rva == self.export_name_rva(n as int, j as int));
            if !self.rva_offset_checked(name_ptr_rva) {
                assert(!self.export_name_defined(n as int, o as int, j as int));
                return false;
            }
            match self.rva_to_offset(name_ptr_rva) {
                None => {
                    assert(self.export_name_defined(n as int, o as int, j as int));
                    assert forall|k: int|
                        0 <= k < num_names && !self.export_name_unresolved(n as int, k) implies #[trigger] self.export_name_defined(
                        n as int,
                        o as int,
                        k,
                    ) by {
                        if k > j {
                            assert(self.rva_offset(self.export_name_rva(n as int, j as int)) is None);
                        }
                    }
                    assert(self.export_name_unresolved(n as int, num_names as int)) by {
                        assert(self.rva_offset(self.export_name_rva(n as int, j as int)) is None);
                    }
                    return true;
                },
                Some(x) => {
                    if x > len || o > len || ((len - o) as u64) < 2 * (j as u64) + 2 {
                        assert(!self.export_name_defined(n as int, o as int, j as int));
                        return false;
                    }
                },
            }
            proof {
                assert forall|k: int| 0 <= k < j + 1 implies !(#[trigger] self.rva_offset(
                    self.export_name_rva(n as int, k),
                ) is None) by {
                    if k < j {
                        assert(!self.export_name_unresolved(n as int, j as int));
                    }
                }
            }
            j += 1;
        }
        assert(!self.export_name_unresolved(n as int, num_names as int));
        // the address table
        let mut i: u32 = 0;
        while i < num_funcs
            invariant
                data@ == raw,
                raw == self.raw(),
                len == raw.len(),
                i <= num_funcs,
                forall|k: int| 0 <= k < i ==> #[trigger] self.export_address_defined(dir_rva, dir_size, base, a as int, k),
            decreases num_funcs - i,
        {
            if a > len || ((len - a) as u64) < 4 * (i as u64) + 4 {
                assert(!self.export_address_defined(dir_rva, dir_size, base, a as int, i as int));
                return false;
            }
            let f = read_u32_le(data, a + 4 * (i as usize));
            assert(f == u32_at(raw, a + 4 * i));
            if f != 0 {
                if i as u64 + base as u64 > u32::MAX as u64 {
                    assert(!self.export_address_defined(dir_rva, dir_size, base, a as int, i as int));
                    return false;
                }
                if f >= dir_rva && dir_rva as u64 + dir_size as u64 > u32::MAX as u64 {
                    assert(!self.export_address_defined(dir_rva, dir_size, base, a as int, i as int));
                    return false;
                }
                if f >= dir_rva && (f as u64) < dir_rva as u64 + dir_size as u64 {
                    if !self.rva_offset_checked(f) {
                        assert(!self.export_address_defined(dir_rva, dir_size, base, a as int, i as int));
                        return false;
                    }
                    match self.rva_to_offset(f) {
                        Some(x) => {
                            if x > len {
                                assert(!self.export_address_defined(dir_rva, dir_size, base, a as int, i as int));
                                return false;
                            }
                        },
                        None => {},
                    }
                }
            }
            assert(self.export_address_defined(dir_rva, dir_size, base, a as int, i as int));
            i += 1;
        }
        true
    }

    /// The exports of the image, read from its export directory; no
    /// directory gives none. Fails when the directory entry lies past the end
    /// of the file or one of its addresses is not in a section. Requires that
    /// its reads stay inside the file, which `exports_readable` tells.
    pub fn get_exports(&self) -> (r: Result<Vec<ExportEntry>, &'static str>)
        requires
            self.exports_defined(),
        ensures
            match self.exports() {
                Ok(es) => r matches Ok(v) && v@.map_values(|e: ExportEntry| export_view(e)) == es,
                Err(m) => r matches Err(e) && e@ == m,
            },
    {
        let ghost raw = self.raw();
        let (dir_rva, dir_size) = self.get_data_directory(0)?;
        if dir_rva == 0 {
            let v: Vec<ExportEntry> = Vec::new();
            assert(v@.map_values(|e: ExportEntry| export_view(e)) =~= Seq::empty());
            return Ok(v);
        }
        let dir_offset = match self.rva_to_offset(dir_rva) {
            Some(o) => o,
            None => return Err("Invalid Export RVA"),
        };
        let data = self.raw_bytes.as_slice();
        assert(data@ == raw);
        // the length, which fits in a usize, bounds the offsets below
        let _len = data.len();
        let base = read_u32_le(data, dir_offset + 16);
        let num_funcs = read_u32_le(data, dir_offset + 20);
        let num_names = read_u32_le(data, dir_offset + 24);
        let addr_table_rva = read_u32_le(data, dir_offset + 28);
        let name_table_rva = read_u32_le(data, dir_offset + 32);
        let ordinal_table_rva = read_u32_le(data, dir_offset + 36);

        let mut exports: Vec<ExportEntry> = Vec::new();
        let addr_offset = match self.rva_to_offset(addr_table_rva) {
            Some(o) => o,
            None => return Err("Invalid Address Table RVA"),
        };
        let name_offset = match self.rva_to_offset(name_table_rva) {
            Some(o) => o,
            None => return Err("Invalid Name Table RVA"),
        };
        let ordinal_offset = match self.rva_to_offset(ordinal_table_rva) {
            Some(o) => o,
            None => return Err("Invalid Ordinal Table RVA"),
        };

        assert(data_directory(raw, 0) == Some((dir_rva, dir_size)));
        assert(self.rva_offset(dir_rva) == Some(dir_offset as int));
        assert(self.rva_offset(u32_at(raw, dir_offset + 28)) == Some(addr_offset as int));
        assert(self.rva_offset(u32_at(raw, dir_offset + 32)) == Some(name_offset as int));
        assert(self.rva_offset(u32_at(raw, dir_offset + 36)) == Some(ordinal_offset as int));
        assert(num_names == u32_at(raw, dir_offset + 24));
        assert forall|j: int|
            0 <= j < num_names && !self.export_name_unresolved(name_offset as int, j) implies #[trigger] self.export_name_defined(
            name_offset as int,
            ordinal_offset as int,
            j,
        ) by {
            let d = dir_offset as int;
            let a = self.rva_offset(u32_at(raw, d + 28));
            let n = self.rva_offset(u32_at(raw, d + 32));
            let o = self.rva_offset(u32_at(raw, d + 36));
            assert(a is Some && n is Some && o is Some);
            assert(n->0 == name_offset as int && o->0 == ordinal_offset as int);
            assert(self.export_name_defined(n->0, o->0, j));
        }
        let ghost outcome = self.exports();
        assert(self.export_name_unresolved(name_offset as int, num_names as int) ==> outcome == Err::<
            Seq<(Seq<char>, u32, u16, Option<Seq<char>>)>,
            Seq<char>,
        >("Invalid Name String RVA"@));
        assert(!self.export_name_unresolved(name_offset as int, num_names as int) ==> outcome == Ok::<
            Seq<(Seq<char>, u32, u16, Option<Seq<char>>)>,
            Seq<char>,
        >(
            self.export_entries(
                dir_rva,
                dir_size,
                base,
                addr_offset as int,
                self.export_names(name_offset as int, ordinal_offset as int, num_names as int),
                num_funcs as int,
            ),
        ));

        // the named exports, by the index the ordinal table gives them
        let mut name_map: HashMap<u16, String> = HashMap::new();
        let mut i: u32 = 0;
        while i < num_names
            invariant
                data@ == raw,
                raw == self.raw(),
                raw.len() <= usize::MAX,
                self.exports_defined(),
                outcome == self.exports(),
                self.export_name_unresolved(name_offset as int, num_names as int) ==> outcome == Err::<
                    Seq<(Seq<char>, u32, u16, Option<Seq<char>>)>,
                    Seq<char>,
                >("Invalid Name String RVA"@),
                i <= num_names,
                !self.export_name_unresolved(name_offset as int, i as int),
                forall|j: int|
                    0 <= j < num_names && !self.export_name_unresolved(name_offset as int, j)
                        ==> #[trigger] self.export_name_defined(name_offset as int, ordinal_offset as int, j),
                forall|k: u16|
                    name_map@.contains_key(k) <==> self.export_names(
                        name_offset as int,
                        ordinal_offset as int,
                        i as int,
                    ).contains_key(k),
                forall|k: u16|
                    #![trigger name_map@[k]]
                    name_map@.contains_key(k) ==> name_map@[k]@ == self.export_names(
                        name_offset as int,
                        ordinal_offset as int,
                        i as int,
                    )[k],
            decreases num_names - i,
        {
            assert(self.export_name_defined(name_offset as int, ordinal_offset as int, i as int));
            let name_rva_ptr = name_offset + (i as usize) * 4;
            let name_ptr_rva = read_u32_le(data, name_rva_ptr);
            let name_str_offset = match self.rva_to_offset(name_ptr_rva) {
                Some(o) => o,
                None => {
                    assert(self.rva_offset(self.export_name_rva(name_offset as int, i as int)) is None);
                    assert(self.export_name_unresolved(name_offset as int, num_names as int));
                    return Err("Invalid Name String RVA");
                },
            };
            let name = self.read_cstring(name_str_offset);
            let ord_ptr = ordinal_offset + (i as usize) * 2;
            let ordinal = read_u16_le(data, ord_ptr);
            name_map.insert(ordinal, name);
            proof {
                assert forall|j: int| 0 <= j < i + 1 implies !(#[trigger] self.rva_offset(self.export_name_rva(name_offset as int, j)) is None) by {
                    if j < i {
                        assert(!self.export_name_unresolved(name_offset as int, i as int));
                    }
                }
            }
            i += 1;
        }
        let ghost names = self.export_names(name_offset as int, ordinal_offset as int, num_names as int);
        assert(!self.export_name_unresolved(name_offset as int, num_names as int));

        // every function of the address table
        let mut i: u32 = 0;
        while i < num_funcs
            invariant
                data@ == raw,
                raw == self.raw(),
                raw.len() <= usize::MAX,
                outcome == self.exports(),
                outcome == Ok::<Seq<(Seq<char>, u32, u16, Option<Seq<char>>)>, Seq<char>>(
                    self.export_entries(dir_rva, dir_size, base, addr_offset as int, names, num_funcs as int),
                ),
                i <= num_funcs,
                forall|k: int|
                    0 <= k < num_funcs ==> #[trigger] self.export_address_defined(
                        dir_rva,
                        dir_size,
                        base,
                        addr_offset as int,
                        k,
                    ),
                forall|k: u16| name_map@.contains_key(k) <==> names.contains_key(k),
                forall|k: u16| #![trigger name_map@[k]] name_map@.contains_key(k) ==> name_map@[k]@ == names[k],
                exports@.map_values(|e: ExportEntry| export_view(e)) == self.export_entries(
                    dir_rva,
                    dir_size,
                    base,
                    addr_offset as int,
                    names,
                    i as int,
                ),
            decreases num_funcs - i,
        {
            assert(self.export_address_defined(dir_rva, dir_size, base, addr_offset as int, i as int));
            let func_rva_ptr = addr_offset + (i as usize) * 4;
            let func_rva = read_u32_le(data, func_rva_ptr);
            if func_rva != 0 {
                let ordinal = #[verifier::truncate] ((i + base) as u16);
                let key = #[verifier::truncate] (i as u16);
                let name = match name_map.get(&key) {
                    Some(n) => n.clone(),
                    None => hash_number(ordinal as u64),
                };
                let mut forwarder: Option<String> = None;
                if func_rva >= dir_rva && func_rva < dir_rva + dir_size {
                    if let Some(fwd_offset) = self.rva_to_offset(func_rva) {
                        forwarder = Some(self.read_cstring(fwd_offset));
                    }
                }
                let ghost before = exports@;
                exports.push(ExportEntry { name, rva: func_rva, ordinal, forwarder });
                assert(exports@.map_values(|e: ExportEntry| export_view(e)) =~= before.map_values(
                    |e: ExportEntry| export_view(e),
                ).push(export_view(exports@.last())));
            }
            i += 1;
        }
        Ok(exports)
    }

    /// The name of the function that the thunk value `d` imports: `#` and its
    /// ordinal when bit 63 is set, else the string after the 2-byte hint at the
    /// relative address in its low 31 bits; none when that address has no
    /// file offset.
    pub closed spec fn thunk_name(&self, d: u64) -> Option<Seq<char>> {
        if d & 0x8000_0000_0000_0000 != 0 {
            Some(seq!['#'] + decimal((d & 0xFFFF) as nat))
        } else {
            match self.rva_offset((d & 0x7FFF_FFFF) as u32) {
                Some(x) => Some(cstring(self.raw(), x + 2)),
                None => None,
            }
        }
    }

    /// The functions of the lookup table at `t`, whose address-table slots
    /// start at `iat`: up to the first zero entry, each entry 8 bytes.
    pub closed spec fn import_thunks(&self, t: u32, iat: u32) -> Result<Seq<(Seq<char>, u32)>, Seq<char>>
        decreases u32::MAX - t,
    {
        match self.rva_offset(t) {
            None => Err("Invalid Thunk RVA"@),
            Some(o) => {
                let d = u64_at(self.raw(), o);
                if d == 0 {
                    Ok(Seq::empty())
                } else {
                    match self.thunk_name(d) {
                        None => Err("Invalid Hint/Name RVA"@),
                        Some(name) => if t + 8 <= u32::MAX && iat + 8 <= u32::MAX {
                            match self.import_thunks((t + 8) as u32, (iat + 8) as u32) {
                                Ok(rest) => Ok(seq![(name, iat)] + rest),
                                Err(e) => Err(e),
                            }
                        } else {
                            Ok(seq![(name, iat)])
                        },
                    }
                }
            },
        }
    }

    /// Reading the lookup table at `t` stays inside the file and its addresses
    /// do not overflow.
    pub closed spec fn import_thunks_defined(&self, t: u32, iat: u32) -> bool
        decreases u32::MAX - t,
    {
        &&& self.rva_offset_defined(t)
        &&& self.rva_offset(t) matches Some(o) ==> {
            let d = u64_at(self.raw(), o);
            &&& o + 8 <= self.raw().len()
            &&& d != 0 ==> {
                &&& d & 0x8000_0000_0000_0000 == 0 ==> {
                    &&& self.rva_offset_defined((d & 0x7FFF_FFFF) as u32)
                    &&& self.rva_offset((d & 0x7FFF_FFFF) as u32) matches Some(x) ==> x + 2 <= self.raw().len()
                }
                &&& self.thunk_name(d) is Some ==> {
                    &&& t + 8 <= u32::MAX
                    &&& iat + 8 <= u32::MAX
                    &&& self.import_thunks_defined((t + 8) as u32, (iat + 8) as u32)
                }
            }
        }
    }

    /// The imports of the descriptors from file offset `off` on, each 20
    /// bytes, up to the one whose lookup table and name are both zero.
    pub closed spec fn imports_from(&self, off: int) -> Result<Seq<(Seq<char>, Seq<(Seq<char>, u32)>)>, Seq<char>>
        decreases self.raw().len() - off,
    {
        let raw = self.raw();
        if off < 0 || off + 20 > raw.len() {
            Ok(Seq::empty())
        } else {
            let original_first_thunk = u32_at(raw, off);
            let name_rva = u32_at(raw, off + 12);
            let first_thunk = u32_at(raw, off + 16);
            if original_first_thunk == 0 && name_rva == 0 {
                Ok(Seq::empty())
            } else {
                match self.rva_offset(name_rva) {
                    None => Err("Invalid Import Name RVA"@),
                    Some(x) => {
                        let t = if original_first_thunk != 0 { original_first_thunk } else { first_thunk };
                        match self.import_thunks(t, first_thunk) {
                            Err(e) => Err(e),
                            Ok(fs) => match self.imports_from(off + 20) {
                                Ok(rest) => Ok(seq![(cstring(raw, x), fs)] + rest),
                                Err(e) => Err(e),
                            },
                        }
                    },
                }
            }
        }
    }

    /// Reading the descriptors from `off` on stays inside the file.
    pub closed spec fn imports_defined_from(&self, off: int) -> bool
        decreases self.raw().len() - off,
    {
        let raw = self.raw();
        &&& 0 <= off
        &&& off + 20 <= raw.len()
        &&& {
            let original_first_thunk = u32_at(raw, off);
            let name_rva = u32_at(raw, off + 12);
            let first_thunk = u32_at(raw, off + 16);
            let t = if original_first_thunk != 0 { original_first_thunk } else { first_thunk };
            !(original_first_thunk == 0 && name_rva == 0) ==> {
                &&& self.rva_offset_defined(name_rva)
                &&& self.rva_offset(name_rva) matches Some(x) ==> {
                    &&& x <= raw.len()
                    &&& self.import_thunks_defined(t, first_thunk)
                    &&& self.import_thunks(t, first_thunk) is Ok ==> self.imports_defined_from(off + 20)
                }
            }
        }
    }

    /// Reading the import descriptors from `off` on gives one entry per
    /// descriptor before the all-zero terminator, in order: entry `i` is the
    /// module named by descriptor `i`, the one at `off + 20 * i`, with the
    /// functions of that descriptor's lookup table (its address table when
    /// the lookup table is zero), bound to slots of its address table.
    pub proof fn lemma_imports_one_per_descriptor(&self, off: int, i: int)
        ensures
            self.imports_from(off) matches Ok(v) ==> {
                &&& v.len() == import_descriptor_count(self.raw(), off)
                &&& 0 <= i < v.len() ==> {
                    let d = off + 20 * i;
                    let lookup = u32_at(self.raw(), d);
                    let iat = u32_at(self.raw(), d + 16);
                    &&& self.rva_offset(u32_at(self.raw(), d + 12)) matches Some(x)
                    &&& v[i].0 == cstring(self.raw(), x)
                    &&& self.import_thunks(if lookup != 0 { lookup } else { iat }, iat) == Ok::<
                        Seq<(Seq<char>, u32)>,
                        Seq<char>,
                    >(v[i].1)
                }
            },
        decreases self.raw().len() - off,
    {
        let raw = self.raw();
        if off < 0 || off + 20 > raw.len() {
        } else if u32_at(raw, off) == 0 && u32_at(raw, off + 12) == 0 {
        } else {
            self.lemma_imports_one_per_descriptor(off + 20, i - 1);
            assert(off + 20 + 20 * (i - 1) == off + 20 * i);
            assert(i == 0 ==> off + 20 * i == off);
        }
    }

    /// What `get_imports` gives: the imports, or the message of the first
    /// check that fails.
    pub closed spec fn imports(&self) -> Result<Seq<(Seq<char>, Seq<(Seq<char>, u32)>)>, Seq<char>> {
        match data_directory(self.raw(), 1) {
            None => Err("Data Directory out of bounds"@),
            Some((dir_rva, _)) => if dir_rva == 0 {
                Ok(Seq::empty())
            } else {
                match self.rva_offset(dir_rva) {
                    None => Err("Invalid Import RVA"@),
                    Some(d) => self.imports_from(d),
                }
            },
        }
    }

    /// `get_imports` reads only bytes of the file and does no overflowing
    /// arithmetic.
    pub closed spec fn imports_defined(&self) -> bool {
        &&& self.raw().len() >= 0x40
        &&& match data_directory(self.raw(), 1) {
            None => true,
            Some((dir_rva, _)) => dir_rva != 0 ==> {
                &&& self.rva_offset_defined(dir_rva)
                &&& self.rva_offset(dir_rva) matches Some(d) ==> self.imports_defined_from(d)
            },
        }
    }

    /// Whether reading the lookup table at `t0` (address-table slots from
    /// `iat0`) stays inside the file, and, if so, whether every function it
    /// lists is found.
    fn import_thunks_checked(&self, t0: u32, iat0: u32) -> (r: (bool, bool))
        ensures
            r.0 == self.import_thunks_defined(t0, iat0),
            r.0 ==> r.1 == self.import_thunks(t0, iat0) is Ok,
    {
        let data = self.raw_bytes.as_slice();
        let len = data.len();
        let mut t = t0;
        let mut iat = iat0;
        loop
            invariant
                data@ == self.raw(),
                len == data@.len(),
                self.import_thunks_defined(t0, iat0) == self.import_thunks_defined(t, iat),
                self.import_thunks_defined(t, iat) ==> (self.import_thunks(t0, iat0) is Ok == self.import_thunks(t, iat) is Ok),
            decreases u32::MAX - t,
        {
            if !self.rva_offset_checked(t) {
                return (false, false);
            }
            let o = match self.rva_to_offset(t) {
                Some(o) => o,
                None => return (true, false),
            };
            if o > len || len - o < 8 {
                return (false, false);
            }
            let dv = read_u64_le(data, o);
            assert(dv == u64_at(self.raw(), o as int));
            if dv == 0 {
                return (true, true);
            }
            if dv & 0x8000_0000_0000_0000 == 0 {
                let name_rva = (dv & 0x7FFF_FFFF) as u32;
                if !self.rva_offset_checked(name_rva) {
                    return (false, false);
                }
                match self.rva_to_offset(name_rva) {
                    None => return (true, false),
                    Some(x) => {
                        if x > len || len - x < 2 {
                            return (false, false);
                        }
                    },
                }
            }
            if t as u64 + 8 > u32::MAX as u64 || iat as u64 + 8 > u32::MAX as u64 {
                return (false, false);
            }
            t = t + 8;
            iat = iat + 8;
        }
    }

    /// Whether `get_imports` can read this image: its reads stay inside the
    /// file and its sums do not overflow (what it requires).
    #[verifier::loop_isolation(false)]
    pub fn imports_readable(&self) -> (r: bool)
        ensures
            r == self.imports_defined(),
    {
        let data = self.raw_bytes.as_slice();
        let len = data.len();
        if len < 0x40 {
            return false;
        }
        let (dir_rva, _dir_size) = match self.get_data_directory(1) {
            Ok(d) => d,
            Err(_) => return true,
        };
        if dir_rva == 0 {
            return true;
        }
        if !self.rva_offset_checked(dir_rva) {
            return false;
        }
        let mut off = match self.rva_to_offset(dir_rva) {
            Some(o) => o,
            None => return true,
        };
        assert(self.imports_defined() == self.imports_defined_from(off as int));
        loop
            invariant
                data@ == self.raw(),
                len == data@.len(),
                self.imports_defined() == self.imports_defined_from(off as int),
            decreases len - off,
        {
            if off > len || len - off < 20 {
                return false;
            }
            let original_first_thunk = read_u32_le(data, off);
            let name_rva = read_u32_le(data, off + 12);
            let first_thunk = read_u32_le(data, off + 16);
            assert(original_first_thunk == u32_at(self.raw(), off as int));
            assert(name_rva == u32_at(self.raw(), off + 12));
            assert(first_thunk == u32_at(self.raw(), off + 16));
            if original_first_thunk == 0 && name_rva == 0 {
                return true;
            }
            if !self.rva_offset_checked(name_rva) {
                return false;
            }
            let x = match self.rva_to_offset(name_rva) {
                Some(x) => x,
                None => return true,
            };
            if x > len {
                return false;
            }
            let t = if original_first_thunk != 0 { original_first_thunk } else { first_thunk };
            let (defined, found) = self.import_thunks_checked(t, first_thunk);
            if !defined {
                return false;
            }
            if !found {
                return true;
            }
            off = off + 20;
        }
    }

    /// The functions of one import descriptor.
    fn import_functions(&self, original_first_thunk: u32, first_thunk: u32) -> (r: Result<
        Vec<ImportFunction>,
        &'static str,
    >)
        requires
            self.import_thunks_defined(
                if original_first_thunk != 0 { original_first_thunk } else { first_thunk },
                first_thunk,
            ),
        ensures
            match self.import_thunks(
                if original_first_thunk != 0 { original_first_thunk } else { first_thunk },
                first_thunk,
            ) {
                Ok(fs) => r matches Ok(v) && v@.map_values(|f: ImportFunction| (f.name@, f.iat_rva)) == fs,
                Err(m) => r matches Err(e) && e@ == m,
            },
    {
        let data = self.raw_bytes.as_slice();
        // the length, which fits in a usize, bounds the offsets below
        let _len = data.len();
        let mut functions: Vec<ImportFunction> = Vec::new();
        let mut thunk_rva = if original_first_thunk != 0 { original_first_thunk } else { first_thunk };
        let mut iat_rva_curr = first_thunk;
        let ghost whole = self.import_thunks(thunk_rva, iat_rva_curr);
        loop
            invariant
                data@ == self.raw(),
                data@.len() <= usize::MAX,
                self.import_thunks_defined(thunk_rva, iat_rva_curr),
                whole == self.import_thunks(
                    if original_first_thunk != 0 { original_first_thunk } else { first_thunk },
                    first_thunk,
                ),
                whole == match self.import_thunks(thunk_rva, iat_rva_curr) {
                    Ok(rest) => Ok(functions@.map_values(|f: ImportFunction| (f.name@, f.iat_rva)) + rest),
                    Err(e) => Err(e),
                },
            ensures
                whole == Ok::<Seq<(Seq<char>, u32)>, Seq<char>>(
                    functions@.map_values(|f: ImportFunction| (f.name@, f.iat_rva)),
                ),
            decreases u32::MAX - thunk_rva,
        {
            let thunk_offset = match self.rva_to_offset(thunk_rva) {
                Some(o) => o,
                None => return Err("Invalid Thunk RVA"),
            };
            let thunk_data = read_u64_le(data, thunk_offset);
            if thunk_data == 0 {
                assert(functions@.map_values(|f: ImportFunction| (f.name@, f.iat_rva)) + Seq::<(Seq<char>, u32)>::empty()
                    =~= functions@.map_values(|f: ImportFunction| (f.name@, f.iat_rva)));
                break;
            }
            let func_name = if (thunk_data & 0x8000_0000_0000_0000) != 0 {
                hash_number(thunk_data & 0xFFFF)
            } else {
                let name_rva = (thunk_data & 0x7FFF_FFFF) as u32;
                assert(thunk_data & 0x7FFF_FFFF <= u32::MAX) by (bit_vector);
                let name_offset = match self.rva_to_offset(name_rva) {
                    Some(o) => o + 2,
                    None => return Err("Invalid Hint/Name RVA"),
                };
                self.read_cstring(name_offset)
            };
            let ghost before = functions@.map_values(|f: ImportFunction| (f.name@, f.iat_rva));
            functions.push(ImportFunction { name: func_name, iat_rva: iat_rva_curr });
            assert(functions@.map_values(|f: ImportFunction| (f.name@, f.iat_rva)) =~= before.push(
                (func_name@, iat_rva_curr),
            ));
            proof {
                let rest = self.import_thunks((thunk_rva + 8) as u32, (iat_rva_curr + 8) as u32);
                if let Ok(tail) = rest {
                    assert(before + (seq![(func_name@, iat_rva_curr)] + tail) =~= before.push(
                        (func_name@, iat_rva_curr),
                    ) + tail);
                }
            }
            thunk_rva += 8;
            iat_rva_curr += 8;
        }
        Ok(functions)
    }

    /// The imports of the image, read from its import directory; no directory
    /// gives none. Fails when the directory entry lies past the end of the
    /// file or one of its addresses is not in a section. Requires that its
    /// reads stay inside the file, which `imports_readable` tells.
    pub fn get_imports(&self) -> (r: Result<Vec<ImportEntry>, &'static str>)
        requires
            self.imports_defined(),
        ensures
            match self.imports() {
                Ok(es) => r matches Ok(v) && v@.map_values(|e: ImportEntry| import_view(e)) == es,
                Err(m) => r matches Err(e) && e@ == m,
            },
    {
        let (dir_rva, _dir_size) = self.get_data_directory(1)?;
        if dir_rva == 0 {
            let v: Vec<ImportEntry> = Vec::new();
            assert(v@.map_values(|e: ImportEntry| import_view(e)) =~= Seq::empty());
            return Ok(v);
        }
        let mut imports: Vec<ImportEntry> = Vec::new();
        let mut dir_offset = match self.rva_to_offset(dir_rva) {
            Some(o) => o,
            None => return Err("Invalid Import RVA"),
        };
        let data = self.raw_bytes.as_slice();
        // the length, which fits in a usize, bounds the offsets below
        let _len = data.len();
        let ghost whole = self.imports();
        loop
            invariant
                data@ == self.raw(),
                data@.len() <= usize::MAX,
                self.imports_defined_from(dir_offset as int),
                whole == self.imports(),
                whole == match self.imports_from(dir_offset as int) {
                    Ok(rest) => Ok(imports@.map_values(|e: ImportEntry| import_view(e)) + rest),
                    Err(e) => Err(e),
                },
            ensures
                whole == Ok::<Seq<(Seq<char>, Seq<(Seq<char>, u32)>)>, Seq<char>>(
                    imports@.map_values(|e: ImportEntry| import_view(e)),
                ),
            decreases data@.len() - dir_offset,
        {
            let original_first_thunk = read_u32_le(data, dir_offset);
            let _time_date = read_u32_le(data, dir_offset + 4);
            let _forwarder_chain = read_u32_le(data, dir_offset + 8);
            let name_rva = read_u32_le(data, dir_offset + 12);
            let first_thunk = read_u32_le(data, dir_offset + 16);

            if original_first_thunk == 0 && name_rva == 0 {
                assert(imports@.map_values(|e: ImportEntry| import_view(e)) + Seq::<(Seq<char>, Seq<(Seq<char>, u32)>)>::empty()
                    =~= imports@.map_values(|e: ImportEntry| import_view(e)));
                break;
            }
            let dll_name_offset = match self.rva_to_offset(name_rva) {
                Some(o) => o,
                None => return Err("Invalid Import Name RVA"),
            };
            let dll_name = self.read_cstring(dll_name_offset);
            let functions = self.import_functions(original_first_thunk, first_thunk)?;
            let ghost before = imports@.map_values(|e: ImportEntry| import_view(e));
            let ghost entry = (dll_name@, functions@.map_values(|f: ImportFunction| (f.name@, f.iat_rva)));
            imports.push(ImportEntry { dll_name, functions });
            assert(imports@.map_values(|e: ImportEntry| import_view(e)) =~= before.push(entry));
            proof {
                let rest = self.imports_from(dir_offset + 20);
                if let Ok(tail) = rest {
                    assert(before + (seq![entry] + tail) =~= before.push(entry) + tail);
                }
            }
            dir_offset += 20;
        }
        Ok(imports)
    }

    /// Whether `apply_relocation` can walk the `.reloc` section for an image
    /// loaded at physical `p_base`: every block it reads has a size of at
    /// least 8 and no 64-bit entry's target address overflows (what it
    /// requires when the base moves). Without a `.reloc` section it can.
    pub fn relocations_readable(&self, p_base: u64) -> (r: bool)
        ensures
            r == match self.reloc_data() {
                Some(data) => reloc_blocks_defined(data, 0, p_base),
                None => true,
            },
    {
        let reloc_name = String::from_str(".reloc");
        let mut k: usize = 0;
        while k < self.sections.len()
            invariant
                k <= self.sections@.len(),
                reloc_name@ == ".reloc"@,
                first_named(self.sections@, ".reloc"@, 0) == first_named(self.sections@, ".reloc"@, k as int),
            ensures
                k <= self.sections@.len(),
                first_named(self.sections@, ".reloc"@, 0) == first_named(self.sections@, ".reloc"@, k as int),
                k < self.sections@.len() ==> self.sections@[k as int].name@ == ".reloc"@,
            decreases self.sections@.len() - k,
        {
            if self.sections[k].name == reloc_name {
                break;
            }
            k += 1;
        }
        if k == self.sections.len() {
            return true;
        }
        let data = self.sections[k].raw_data.as_slice();
        assert(self.reloc_data() == Some(data@));
        let len = data.len();
        let mut offset: u64 = 0;
        loop
            invariant
                self.reloc_data() == Some(data@),
                len == data@.len(),
                offset <= len,
                reloc_blocks_defined(data@, 0, p_base) == reloc_blocks_defined(data@, offset as int, p_base),
            decreases len - offset,
        {
            if len < 8 || offset > (len - 8) as u64 {
                return true;
            }
            let off = offset as usize;
            let page_rva = read_u32_le(data, off);
            let block_size = read_u32_le(data, off + 4);
            assert(page_rva == u32_at(data@, off as int) && block_size == u32_at(data@, off + 4));
            if block_size == 0 {
                return true;
            }
            if block_size < 8 {
                return false;
            }
            let by_size = ((block_size - 8) / 2) as usize;
            let room = (len - off - 8) / 2;
            let count = if by_size < room { by_size } else { room };
            assert(count == reloc_entry_count(data@, off as int));
            let mut j: usize = 0;
            while j < count
                invariant
                    j <= count,
                    len == data@.len(),
                    off + 8 <= len,
                    count <= (len - off - 8) / 2,
                    count == reloc_entry_count(data@, off as int),
                    page_rva == u32_at(data@, off as int),
                    block_size == u32_at(data@, off + 4),
                    block_size >= 8,
                    self.reloc_data() == Some(data@),
                    reloc_blocks_defined(data@, 0, p_base) == reloc_blocks_defined(data@, off as int, p_base),
                    forall|i: int|
                        0 <= i < j && #[trigger] u16_at(data@, off + 8 + 2 * i) >> 12 == 10
                            ==> p_base + page_rva + (u16_at(data@, off + 8 + 2 * i) & 0x0FFF) <= u64::MAX,
                decreases count - j,
            {
                let entry = read_u16_le(data, off + 8 + 2 * j);
                assert(entry == u16_at(data@, off + 8 + 2 * j));
                if entry >> 12 == 10 {
                    let reach = page_rva as u64 + (entry & 0x0FFF) as u64;
                    if p_base > u64::MAX - reach {
                        return false;
                    }
                }
                j += 1;
            }
            if block_size as u64 > len as u64 - offset {
                return true;
            }
            offset = offset + block_size as u64;
        }
    }

    /// Applies the 64-bit base relocations of the `.reloc` section to the
    /// image loaded at physical `p_base`, for a new virtual base `v_new`.
    /// Nothing is done when the base does not move; fails, changing nothing,
    /// when there is no `.reloc` section. When the base moves, requires that
    /// the relocation blocks can be walked, which `relocations_readable` tells.
    pub fn apply_relocation(&self, vm: &mut Vm, p_base: u64, v_new: u64) -> (r: Result<(), &'static str>)
        requires
            v_new.wrapping_sub(self.base()) != 0 ==> match self.reloc_data() {
                Some(data) => reloc_blocks_defined(data, 0, p_base),
                None => true,
            },
        ensures
            v_new.wrapping_sub(self.base()) == 0 ==> r is Ok && final(vm)@ == old(vm)@,
            v_new.wrapping_sub(self.base()) != 0 ==> match self.reloc_data() {
                Some(data) => r is Ok && final(vm)@ == apply_reloc_blocks(
                    old(vm)@,
                    data,
                    0,
                    p_base,
                    v_new.wrapping_sub(self.base()),
                ),
                None => (r matches Err(e) && e@ == "Relocation failed: No .reloc section"@) && final(vm)@
                    == old(vm)@,
            },
    {
        let delta = v_new.wrapping_sub(self.image_base);
        if delta == 0 {
            return Ok(());
        }
        let reloc_name = String::from_str(".reloc");
        let mut k: usize = 0;
        while k < self.sections.len()
            invariant
                k <= self.sections@.len(),
                reloc_name@ == ".reloc"@,
                first_named(self.sections@, ".reloc"@, 0) == first_named(self.sections@, ".reloc"@, k as int),
            ensures
                k <= self.sections@.len(),
                first_named(self.sections@, ".reloc"@, 0) == first_named(self.sections@, ".reloc"@, k as int),
                k < self.sections@.len() ==> self.sections@[k as int].name@ == ".reloc"@,
            decreases self.sections@.len() - k,
        {
            if self.sections[k].name == reloc_name {
                break;
            }
            k += 1;
        }
        if k == self.sections.len() {
            return Err("Relocation failed: No .reloc section");
        }
        let data = self.sections[k].raw_data.as_slice();
        assert(self.reloc_data() == Some(data@));
        // the length, which fits in a usize, bounds the offsets below
        let _len = data.len();
        let ghost mem0 = vm@;
        let mut offset: u64 = 0;
        while data.len() >= 8 && offset <= (data.len() - 8) as u64
            invariant_except_break
                reloc_blocks_defined(data@, offset as int, p_base),
                apply_reloc_blocks(mem0, data@, 0, p_base, delta) == apply_reloc_blocks(vm@, data@, offset as int, p_base, delta),
            invariant
                data@.len() <= usize::MAX,
                offset <= data@.len(),
            ensures
                vm@ == apply_reloc_blocks(mem0, data@, 0, p_base, delta),
            decreases data@.len() - offset,
        {
            let off = offset as usize;
            let page_rva = read_u32_le(data, off);
            let block_size = read_u32_le(data, off + 4);
            if block_size == 0 {
                break;
            }
            let entry_count = (block_size - 8) / 2;
            let ghost count = reloc_entry_count(data@, off as int);
            let ghost start = vm@;
            let mut i: u32 = 0;
            while i < entry_count
                invariant_except_break
                    i <= entry_count,
                    i <= count,
                    vm@ == apply_reloc_entries(start, data@, off as int, i as int, p_base, delta),
                invariant
                    count == reloc_entry_count(data@, off as int),
                    entry_count == (block_size - 8) / 2,
                    off + 8 <= data@.len() <= usize::MAX,
                    page_rva == u32_at(data@, off as int),
                    block_size == u32_at(data@, off as int + 4),
                    block_size >= 8,
                    forall|j: int|
                        0 <= j < count && #[trigger] u16_at(data@, off + 8 + 2 * j) >> 12 == 10
                            ==> p_base + page_rva + (u16_at(data@, off + 8 + 2 * j) & 0x0FFF) <= u64::MAX,
                ensures
                    vm@ == apply_reloc_entries(start, data@, off as int, count, p_base, delta),
                decreases entry_count - i,
            {
                // an entry that would run past the end of the data ends the block
                let room = (data.len() - off - 8) / 2;
                if i as usize >= room {
                    break;
                }
                let entry_pos = off + 8 + (i as usize) * 2;
                let entry = read_u16_le(data, entry_pos);
                assert(entry == u16_at(data@, off + 8 + 2 * i));
                let reloc_type = entry >> 12;
                let reloc_offset = entry & 0x0FFF;
                if reloc_type == 10 {
                    let target_rva = page_rva as u64 + reloc_offset as u64;
                    let target_paddr = p_base + target_rva;
                    let size = vm.mem_size() as u64;
                    if size >= 8 && target_paddr <= size - 8 {
                        let mut buf: Vec<u8> = vec![0u8; 8];
                        let _ = vm.read_memory_at(target_paddr, buf.as_mut_slice());
                        let current = crate::bytes::read_u64_le(buf.as_slice(), 0);
                        assert(buf@.subrange(0, 8) =~= vm@.subrange(target_paddr as int, target_paddr + 8));
                        let new_value = current.wrapping_add(delta);
                        let _ = vm.write_memory_at(target_paddr, &u64_le(new_value));
                    }
                }
                i += 1;
            }
            if block_size as u64 > data.len() as u64 - offset {
                break;
            }
            offset = offset + block_size as u64;
        }
        Ok(())
    }

    /// Parses a PE image with the `object` crate: entry point, architecture,
    /// image base, PDB information and the sections that have a name and a
    /// nonzero size. Fails when the bytes cannot be parsed, are not a PE
    /// image, or a kept section's data cannot be read.
    pub fn from_bytes(bytes: &[u8]) -> (r: Result<Self, &'static str>)
        ensures
            object_format_of(bytes@) == ObjectFormat::Unparsable ==> (r matches Err(e) && e@
                == "Failed to parse PE file"@),
            object_format_of(bytes@) == ObjectFormat::Other ==> (r matches Err(e) && e@ == "Not a valid PE file"@),
            (object_format_of(bytes@) == ObjectFormat::Pe32 || object_format_of(bytes@) == ObjectFormat::Pe64)
                ==> match kept_sections(reported_sections(bytes@), reported_sections(bytes@).len() as int) {
                Err(()) => r matches Err(e) && e@ == "Failed to read section data"@,
                Ok(secs) => r matches Ok(pe) && {
                    &&& pe.raw() == bytes@
                    &&& pe.entry() == (u32_at(bytes@, nt_offset(bytes@) + 40) as u64).wrapping_add(pe.base())
                    &&& pe.base() == pe_image_base(bytes@, object_format_of(bytes@))
                    &&& pe.section_views() == secs
                    &&& pe.header() == Seq::<u8>::empty()
                    &&& pe.pdb() == (pdb_name_of(bytes@), pdb_guid_age_of(bytes@))
                    &&& pe.arch() == machine_architecture(u16_at(bytes@, nt_offset(bytes@) + 4))
                },
            },
    {
        let format = object_format(bytes);
        if format == ObjectFormat::Unparsable {
            return Err("Failed to parse PE file");
        }
        let (pdb_name, pdb_guid_age) = match object_pdb_info(bytes) {
            Some((path, guid, age)) => (lossy_string(path.as_slice()), pdb_signature(guid, age)),
            None => (String::from_str("Unknown"), String::from_str("Unknown")),
        };
        if format == ObjectFormat::Other {
            return Err("Not a valid PE file");
        }
        let count = match object_section_count(bytes) {
            Some(n) => n,
            None => return Err("Failed to parse PE file"),
        };
        let mut found: Vec<ReportedSection> = Vec::new();
        let mut i: usize = 0;
        while i < count
            invariant
                object_section_count_of(bytes@) == Some(count as nat),
                i <= count,
                found@.len() == i,
                forall|k: int| 0 <= k < i ==> #[trigger] object_section_view(found@[k]) == object_section_of(bytes@, k as nat)->0,
            decreases count - i,
        {
            match object_section(bytes, i) {
                Some(s) => found.push(s),
                None => return Err("Failed to parse PE file"),
            }
            i += 1;
        }
        assert(found@.map_values(|s: ReportedSection| object_section_view(s)) =~= reported_sections(bytes@));
        let sections = collect_sections(found)?;
        let image_base = match object_image_base(bytes) {
            Some(b) => b,
            None => return Err("Not a valid PE file"),
        };
        let entry_point = match object_entry(bytes) {
            Some(e) => e,
            None => return Err("Failed to parse PE file"),
        };
        let architecture = match object_architecture(bytes) {
            Some(a) => a,
            None => return Err("Failed to parse PE file"),
        };
        let pe = PeFile {
            entry_point,
            architecture,
            image_base,
            sections,
            header_data: Vec::new(),
            pdb_name,
            pdb_guid_age,
            raw_bytes: vstd::slice::slice_to_vec(bytes),
        };
        Ok(pe)
    }
}

} // verus!
