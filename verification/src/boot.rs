//! The boot-time structures that link the loader block together: the kernel
//! module lists, the HAL extension list, the memory descriptor list, the boot
//! GDT and KUSER_SHARED_DATA.
use vstd::prelude::*;
use crate::bytes::{le32, le64, lemma_le32_roundtrip, lemma_le64_roundtrip, put, u32_le, u64_le, zeroed, zeros};
use crate::pe::u64_at;
use crate::layout::{KUSER_PBASE, LPB_PBASE, LPB_VBASE, SYSTEM_BASE};
use crate::loaderblock::{LoaderParameterBlock, LoaderParameterExtension};
use crate::pe::u32_at;
use crate::text::{contains_seq, contains_text, lowercase, lowercase_of};
use crate::vm::{
    write_refused,
    disjoint_writes, in_bounds, lemma_try_writes_read, lemma_try_writes_read_range, misses, spec_write,
    try_write, try_writes, Vm, MEM_SIZE,
};

verus! {

/// Writes a little-endian 64-bit value at `addr`, skipped when it does not fit.
fn try_write_u64(vm: &mut Vm, addr: u64, value: u64)
    ensures
        final(vm)@ == try_write(old(vm)@, addr as int, le64(value)),
{
    let _ = vm.write_memory_at(addr, &u64_le(value));
}

/// Applying one more write is applying it to the memory after the others.
proof fn lemma_try_writes_push(mem: Seq<u8>, ws: Seq<(int, Seq<u8>)>, w: (int, Seq<u8>))
    ensures
        try_writes(mem, ws.push(w)) == try_write(try_writes(mem, ws), w.0, w.1),
{
    assert(ws.push(w).drop_last() =~= ws);
}

/// The page of KUSER_SHARED_DATA as the loader leaves it: zero but for the
/// NT build number 19041 at 0x26C and the major version 10 at 0x270.
pub open spec fn kuser_image() -> Seq<u8> {
    spec_write(spec_write(zeros(4096), 0x26c, le32(19041)), 0x270, le32(10))
}

/// Writes the page of KUSER_SHARED_DATA at its physical address; skipped when
/// it does not fit.
pub fn init_kuser_shared_data(vm: &mut Vm)
    ensures
        final(vm)@ == try_write(old(vm)@, KUSER_PBASE as int, kuser_image()),
{
    let mut kuser_data = zeroed(4096);
    put(kuser_data.as_mut_slice(), 0x26c, &u32_le(19041));
    put(kuser_data.as_mut_slice(), 0x270, &u32_le(10));
    let _ = vm.write_memory_at(KUSER_PBASE, kuser_data.as_slice());
}

/// Entry `i` of the boot GDT for the GDT at virtual `gdt_v`: kernel code at
/// 0x10, kernel data at 0x18, user code at 0x20 and 0x30, user data at 0x28
/// and 0x50, and the TSS 0x1000 bytes after the GDT at 0x40.
pub open spec fn boot_gdt_entry(gdt_v: u64, i: int) -> u64 {
    let tss_v = (gdt_v + 0x1000) as u64;
    if i == 2 {
        0x00AF9A000000FFFF
    } else if i == 3 {
        0x00CF92000000FFFF
    } else if i == 4 || i == 6 {
        0x00AFFA000000FFFF
    } else if i == 5 {
        0x00CFF2000000FFFF
    } else if i == 10 {
        0x00CFF3000000FFFF
    } else if i == 8 {
        (0x89u64 << 40) | ((tss_v & 0xFFFFFF) << 16) | 0x67
    } else if i == 9 {
        tss_v >> 32
    } else {
        0
    }
}

/// The writes of the boot GDT: its 32 entries at `SYSTEM_BASE`, in order.
pub open spec fn boot_gdt_writes(gdt_v: u64) -> Seq<(int, Seq<u8>)> {
    Seq::new(32, |i: int| (SYSTEM_BASE + 8 * i, le64(boot_gdt_entry(gdt_v, i))))
}

/// Clears the 104-byte TSS 0x1000 bytes after the GDT, then writes the 32
/// entries of the boot GDT at `SYSTEM_BASE`, each skipped when it does not
/// fit. Fails, writing nothing, when the TSS does not fit.
pub fn write_boot_gdt(vm: &mut Vm, gdt_v: u64) -> (r: Result<(), &'static str>)
    requires
        gdt_v + 0x1000 <= u64::MAX,
    ensures
        in_bounds(old(vm)@.len(), SYSTEM_BASE + 0x1000, 104) ==> r is Ok && final(vm)@ == try_writes(
            spec_write(old(vm)@, SYSTEM_BASE + 0x1000, zeros(104)),
            boot_gdt_writes(gdt_v),
        ),
        !in_bounds(old(vm)@.len(), SYSTEM_BASE + 0x1000, 104) ==> write_refused(r) && final(vm)@ == old(vm)@,
{
    let tss = zeroed(104);
    vm.write_memory_at(SYSTEM_BASE + 0x1000, tss.as_slice())?;
    let ghost start = vm@;
    let tss_v_gdt: u64 = gdt_v + 0x1000;
    let mut i: u64 = 0;
    while i < 32
        invariant
            i <= 32,
            gdt_v + 0x1000 <= u64::MAX,
            tss_v_gdt == gdt_v + 0x1000,
            vm@ == try_writes(start, boot_gdt_writes(gdt_v).take(i as int)),
        decreases 32 - i,
    {
        let entry: u64 = if i == 2 {
            0x00AF9A000000FFFF
        } else if i == 3 {
            0x00CF92000000FFFF
        } else if i == 4 || i == 6 {
            0x00AFFA000000FFFF
        } else if i == 5 {
            0x00CFF2000000FFFF
        } else if i == 10 {
            0x00CFF3000000FFFF
        } else if i == 8 {
            (0x89u64 << 40) | ((tss_v_gdt & 0xFFFFFF) << 16) | 0x67
        } else if i == 9 {
            tss_v_gdt >> 32
        } else {
            0
        };
        try_write_u64(vm, SYSTEM_BASE + i * 8, entry);
        proof {
            let ws = boot_gdt_writes(gdt_v);
            lemma_try_writes_push(start, ws.take(i as int), ws[i as int]);
            assert(ws.take(i as int).push(ws[i as int]) =~= ws.take(i + 1));
        }
        i += 1;
    }
    assert(boot_gdt_writes(gdt_v).take(32) =~= boot_gdt_writes(gdt_v));
    Ok(())
}

/// A kernel module's entry in the loader block: virtual and physical address.
pub open spec fn node_v(nodes: Seq<(u64, u64)>, i: int) -> u64 {
    nodes[i].0
}

/// The physical address of node `i`.
pub open spec fn node_p(nodes: Seq<(u64, u64)>, i: int) -> u64 {
    nodes[i].1
}

/// Head of the load-order module list, inside the loader parameter block.
pub open spec fn load_order_head_v() -> u64 {
    (LPB_VBASE + 0x10) as u64
}

/// Write `idx` of linking the module lists: the load-order list head
/// (Flink, Blink), the boot driver list head linked to itself, then for
/// each module its load-order links (to the neighbours, the head at either
/// end) and its memory-order links (a ring through the modules' second
/// links, 0x10 into each entry).
pub open spec fn module_list_write(nodes: Seq<(u64, u64)>, idx: int) -> (int, Seq<u8>) {
    let n = nodes.len() as int;
    let head_v = load_order_head_v();
    if idx == 0 {
        (LPB_PBASE + 0x10, le64(node_v(nodes, 0)))
    } else if idx == 1 {
        (LPB_PBASE + 0x18, le64(node_v(nodes, n - 1)))
    } else if idx == 2 {
        (LPB_PBASE + 0x30, le64((LPB_VBASE + 0x30) as u64))
    } else if idx == 3 {
        (LPB_PBASE + 0x38, le64((LPB_VBASE + 0x30) as u64))
    } else {
        let i = (idx - 4) / 4;
        let f = (idx - 4) % 4;
        let p = node_p(nodes, i) as int;
        if f == 0 {
            (p, le64(if i == n - 1 { head_v } else { node_v(nodes, i + 1) }))
        } else if f == 1 {
            (p + 8, le64(if i == 0 { head_v } else { node_v(nodes, i - 1) }))
        } else if f == 2 {
            (p + 0x10, le64((if i == n - 1 { node_v(nodes, 0) } else { node_v(nodes, i + 1) } + 0x10) as u64))
        } else {
            (p + 0x18, le64((if i == 0 { node_v(nodes, n - 1) } else { node_v(nodes, i - 1) } + 0x10) as u64))
        }
    }
}

/// All the writes of linking the module lists, in order.
pub open spec fn module_list_writes(nodes: Seq<(u64, u64)>) -> Seq<(int, Seq<u8>)> {
    Seq::new((4 + 4 * nodes.len()) as nat, |idx: int| module_list_write(nodes, idx))
}

/// Links the loader block's module lists through the module entries
/// `nodes` (virtual, physical), each write skipped when it does not fit.
pub fn link_module_lists(vm: &mut Vm, nodes: &Vec<(u64, u64)>)
    requires
        nodes@.len() >= 1,
        forall|i: int| 0 <= i < nodes@.len() ==> #[trigger] nodes@[i].0 + 0x10 <= u64::MAX && nodes@[i].1 + 0x18 <= u64::MAX,
    ensures
        final(vm)@ == try_writes(old(vm)@, module_list_writes(nodes@)),
{
    let ghost start = vm@;
    let ghost ws = module_list_writes(nodes@);
    let n = nodes.len();
    let head_v1: u64 = LPB_VBASE + 0x10;
    try_write_u64(vm, LPB_PBASE + 0x10, nodes[0].0);
    proof { lemma_try_writes_push(start, ws.take(0), ws[0]); assert(ws.take(0).push(ws[0]) =~= ws.take(1)); }
    try_write_u64(vm, LPB_PBASE + 0x18, nodes[n - 1].0);
    proof { lemma_try_writes_push(start, ws.take(1), ws[1]); assert(ws.take(1).push(ws[1]) =~= ws.take(2)); }
    let boot_ldr_head_v: u64 = LPB_VBASE + 0x30;
    try_write_u64(vm, LPB_PBASE + 0x30, boot_ldr_head_v);
    proof { lemma_try_writes_push(start, ws.take(2), ws[2]); assert(ws.take(2).push(ws[2]) =~= ws.take(3)); }
    try_write_u64(vm, LPB_PBASE + 0x38, boot_ldr_head_v);
    proof { lemma_try_writes_push(start, ws.take(3), ws[3]); assert(ws.take(3).push(ws[3]) =~= ws.take(4)); }
    let mut i: usize = 0;
    while i < n
        invariant
            n == nodes@.len(),
            n >= 1,
            i <= n,
            head_v1 == load_order_head_v(),
            ws == module_list_writes(nodes@),
            forall|k: int| 0 <= k < nodes@.len() ==> #[trigger] nodes@[k].0 + 0x10 <= u64::MAX && nodes@[k].1 + 0x18 <= u64::MAX,
            vm@ == try_writes(start, ws.take(4 + 4 * i)),
        decreases n - i,
    {
        let (v_i, p_i) = nodes[i];
        assert(nodes@[i as int].0 + 0x10 <= u64::MAX && nodes@[i as int].1 + 0x18 <= u64::MAX);
        let next_v1 = if i == n - 1 { head_v1 } else { nodes[i + 1].0 };
        let prev_v1 = if i == 0 { head_v1 } else { nodes[i - 1].0 };
        let ghost k: int = 4 + 4 * i;
        try_write_u64(vm, p_i, next_v1);
        proof { lemma_try_writes_push(start, ws.take(k), ws[k]); assert(ws.take(k).push(ws[k]) =~= ws.take(k + 1)); }
        try_write_u64(vm, p_i + 8, prev_v1);
        proof { lemma_try_writes_push(start, ws.take(k + 1), ws[k + 1]); assert(ws.take(k + 1).push(ws[k + 1]) =~= ws.take(k + 2)); }
        let next_v2 = if i == n - 1 { nodes[0].0 } else { nodes[i + 1].0 };
        let prev_v2 = if i == 0 { nodes[n - 1].0 } else { nodes[i - 1].0 };
        assert(nodes@[0].0 + 0x10 <= u64::MAX && nodes@[n - 1].0 + 0x10 <= u64::MAX);
        assert(i + 1 < n ==> nodes@[i + 1].0 + 0x10 <= u64::MAX);
        assert(i >= 1 ==> nodes@[i - 1].0 + 0x10 <= u64::MAX);
        try_write_u64(vm, p_i + 0x10, next_v2 + 0x10);
        proof { lemma_try_writes_push(start, ws.take(k + 2), ws[k + 2]); assert(ws.take(k + 2).push(ws[k + 2]) =~= ws.take(k + 3)); }
        try_write_u64(vm, p_i + 0x18, prev_v2 + 0x10);
        proof { lemma_try_writes_push(start, ws.take(k + 3), ws[k + 3]); assert(ws.take(k + 3).push(ws[k + 3]) =~= ws.take(k + 4)); }
        i += 1;
    }
    assert(ws.take(4 + 4 * n) =~= ws);
}

/// Module entries placed as the loader places them: ascending physical
/// addresses at least 0x20 bytes apart, above the list heads of the loader
/// parameter block, all inside memory of `mem_len` bytes.
pub open spec fn nodes_well_placed(mem_len: nat, nodes: Seq<(u64, u64)>) -> bool {
    &&& nodes.len() >= 1
    &&& forall|i: int| #![trigger nodes[i]] 0 <= i < nodes.len() ==> nodes[i].0 + 0x10 <= u64::MAX && nodes[i].1 + 0x20 <= mem_len
    &&& LPB_PBASE + 0x40 <= nodes[0].1
    &&& LPB_PBASE + 0x40 <= mem_len
    &&& forall|i: int, j: int| 0 <= i < j < nodes.len() ==> #[trigger] nodes[i].1 + 0x20 <= #[trigger] nodes[j].1
}

/// Index arithmetic of the per-module writes: write `j` belongs to module
/// `(j - 4) / 4`, link `(j - 4) % 4` of it.
proof fn lemma_module_index(j: int, n: int)
    requires
        4 <= j < 4 + 4 * n,
    ensures
        0 <= (j - 4) / 4 < n,
        0 <= (j - 4) % 4 < 4,
        j - 4 == 4 * ((j - 4) / 4) + (j - 4) % 4,
{
    assert(0 <= (j - 4) / 4 < n) by (nonlinear_arith)
        requires
            4 <= j < 4 + 4 * n,
    ;
}

/// Later writes never go back to an earlier module.
proof fn lemma_module_order(k: int, j: int)
    requires
        4 <= k < j,
    ensures
        (k - 4) / 4 <= (j - 4) / 4,
        (k - 4) / 4 == (j - 4) / 4 ==> (k - 4) % 4 < (j - 4) % 4,
{
    assert((k - 4) / 4 <= (j - 4) / 4) by (nonlinear_arith)
        requires
            4 <= k < j,
    ;
}

/// Each write of linking the module lists reads back afterwards.
proof fn lemma_module_write_reads_back(mem: Seq<u8>, nodes: Seq<(u64, u64)>, k: int)
    requires
        nodes_well_placed(mem.len(), nodes),
        0 <= k < 4 + 4 * nodes.len(),
    ensures
        try_writes(mem, module_list_writes(nodes)).subrange(
            module_list_write(nodes, k).0,
            module_list_write(nodes, k).0 + 8,
        ) == module_list_write(nodes, k).1,
{
    let ws = module_list_writes(nodes);
    let n = nodes.len() as int;
    assert(nodes[0].1 >= LPB_PBASE + 0x40);
    assert forall|j: int| k < j < ws.len() implies #[trigger] disjoint_writes(ws[j], ws[k]) by {
        if j >= 4 {
            lemma_module_index(j, n);
            let i2 = (j - 4) / 4;
            assert(nodes[i2].1 >= nodes[0].1) by {
                if i2 > 0 {
                    assert(nodes[0].1 + 0x20 <= nodes[i2].1);
                }
            }
            if k >= 4 {
                lemma_module_index(k, n);
                lemma_module_order(k, j);
                let i1 = (k - 4) / 4;
                if i1 < i2 {
                    assert(nodes[i1].1 + 0x20 <= nodes[i2].1);
                }
            }
        }
    }
    assert(ws[k] == module_list_write(nodes, k));
    if k >= 4 {
        lemma_module_index(k, n);
        let i1 = (k - 4) / 4;
        assert(nodes[i1].1 + 0x20 <= mem.len());
    }
    lemma_try_writes_read(mem, ws, k);
}

/// After `link_module_lists` with entries placed as the loader places them,
/// the module lists are well formed: the load-order list runs from its head
/// through every entry in order and back to the head in both directions, the
/// memory-order links form a ring through all entries 0x10 into each, and
/// the boot driver list is empty (its head points at itself).
pub proof fn lemma_module_lists_linked(mem: Seq<u8>, nodes: Seq<(u64, u64)>, i: int)
    requires
        nodes_well_placed(mem.len(), nodes),
        0 <= i < nodes.len(),
    ensures
        ({
            let m = try_writes(mem, module_list_writes(nodes));
            let n = nodes.len() as int;
            let head = load_order_head_v();
            let p = nodes[i].1 as int;
            &&& u64_at(m, LPB_PBASE + 0x10) == nodes[0].0
            &&& u64_at(m, LPB_PBASE + 0x18) == nodes[n - 1].0
            &&& u64_at(m, LPB_PBASE + 0x30) == LPB_VBASE + 0x30
            &&& u64_at(m, LPB_PBASE + 0x38) == LPB_VBASE + 0x30
            &&& u64_at(m, p) == if i == n - 1 { head } else { nodes[i + 1].0 }
            &&& u64_at(m, p + 8) == if i == 0 { head } else { nodes[i - 1].0 }
            &&& u64_at(m, p + 0x10) == (if i == n - 1 { nodes[0].0 } else { nodes[i + 1].0 }) + 0x10
            &&& u64_at(m, p + 0x18) == (if i == 0 { nodes[n - 1].0 } else { nodes[i - 1].0 }) + 0x10
        }),
{
    let n = nodes.len() as int;
    let k = 4 + 4 * i;
    assert((k - 4) / 4 == i && (k - 4) % 4 == 0);
    assert((k + 1 - 4) / 4 == i && (k + 1 - 4) % 4 == 1);
    assert((k + 2 - 4) / 4 == i && (k + 2 - 4) % 4 == 2);
    assert((k + 3 - 4) / 4 == i && (k + 3 - 4) % 4 == 3);
    lemma_module_write_reads_back(mem, nodes, 0);
    lemma_module_write_reads_back(mem, nodes, 1);
    lemma_module_write_reads_back(mem, nodes, 2);
    lemma_module_write_reads_back(mem, nodes, 3);
    lemma_module_write_reads_back(mem, nodes, k);
    lemma_module_write_reads_back(mem, nodes, k + 1);
    lemma_module_write_reads_back(mem, nodes, k + 2);
    lemma_module_write_reads_back(mem, nodes, k + 3);
    lemma_le64_roundtrip(nodes[0].0);
    lemma_le64_roundtrip(nodes[n - 1].0);
    lemma_le64_roundtrip((LPB_VBASE + 0x30) as u64);
    lemma_le64_roundtrip(load_order_head_v());
    if i + 1 < n {
        lemma_le64_roundtrip(nodes[i + 1].0);
        lemma_le64_roundtrip((nodes[i + 1].0 + 0x10) as u64);
    }
    if i > 0 {
        lemma_le64_roundtrip(nodes[i - 1].0);
        lemma_le64_roundtrip((nodes[i - 1].0 + 0x10) as u64);
    }
    lemma_le64_roundtrip((nodes[0].0 + 0x10) as u64);
    lemma_le64_roundtrip((nodes[n - 1].0 + 0x10) as u64);
}

/// The SYSTEM hive's size rounded up to whole 4 KiB pages.
pub open spec fn hive_span(hive_size: u32) -> u64 {
    ((hive_size as u64 + 0xFFF) as u64) & !0xFFFu64
}

/// Start of region `i` of the physical memory map handed to the kernel:
/// the first page, low memory, the kernel, the HAL, the loader block, the
/// SYSTEM hive and the free memory above it.
pub open spec fn md_base(hive_size: u32, i: int) -> u64 {
    if i == 0 {
        0
    } else if i == 1 {
        0x1000
    } else if i == 2 {
        0x200000
    } else if i == 3 {
        0x2000000
    } else if i == 4 {
        0x4000000
    } else if i == 5 {
        0x4200000
    } else {
        (0x4200000 + hive_span(hive_size)) as u64
    }
}

/// Size in bytes of region `i` of the memory map.
pub open spec fn md_size(hive_size: u32, i: int) -> u64 {
    if i == 0 {
        0x1000
    } else if i == 1 {
        0x1FF000
    } else if i == 2 {
        0x1E00000
    } else if i == 3 {
        0x2000000
    } else if i == 4 {
        0x200000
    } else if i == 5 {
        hive_size as u64
    } else {
        (MEM_SIZE - (0x4200000 + hive_span(hive_size))) as u64
    }
}

/// Memory type of region `i`: bad (1) for the first page, free (0), system
/// code (7) for the kernel, HAL code (8), memory data (15) for the loader
/// block and the SYSTEM hive, free (0) above.
pub open spec fn md_type(i: int) -> u32 {
    if i == 0 {
        1
    } else if i == 2 || i == 3 {
        if i == 2 { 7 } else { 8 }
    } else if i == 4 || i == 5 {
        15
    } else {
        0
    }
}

/// Virtual address of memory descriptor `i`, in the loader block's area.
pub open spec fn md_v(i: int) -> u64 {
    (LPB_VBASE + 0x20000 + 0x1000 * i) as u64
}

/// Physical address of memory descriptor `i`.
pub open spec fn md_p(i: int) -> int {
    LPB_PBASE + 0x20000 + 0x1000 * i
}

/// Head of the memory descriptor list, inside the loader parameter block.
pub open spec fn memory_head_v() -> u64 {
    (LPB_VBASE + 0x20) as u64
}

/// The bytes of a memory descriptor with zero links: type at 0x10, first
/// page at 0x18, page count at 0x20.
pub open spec fn descriptor_image(base: u64, size: u64, mem_type: u32) -> Seq<u8> {
    zeros(0x10) + le32(mem_type) + zeros(4) + le64(base >> 12) + le64(size >> 12)
}

/// Write `idx` of building the memory descriptor list: per descriptor its
/// image, then its forward and backward links (to the neighbours, the list
/// head at either end); last the head's two links.
pub open spec fn memory_map_write(hive_size: u32, idx: int) -> (int, Seq<u8>) {
    if idx < 21 {
        let i = idx / 3;
        let f = idx % 3;
        if f == 0 {
            (md_p(i), descriptor_image(md_base(hive_size, i), md_size(hive_size, i), md_type(i)))
        } else if f == 1 {
            (md_p(i), le64(if i == 6 { memory_head_v() } else { md_v(i + 1) }))
        } else {
            (md_p(i) + 8, le64(if i == 0 { memory_head_v() } else { md_v(i - 1) }))
        }
    } else if idx == 21 {
        (LPB_PBASE + 0x20, le64(md_v(0)))
    } else {
        (LPB_PBASE + 0x28, le64(md_v(6)))
    }
}

/// All the writes of building the memory descriptor list, in order.
pub open spec fn memory_map_writes(hive_size: u32) -> Seq<(int, Seq<u8>)> {
    Seq::new(23, |idx: int| memory_map_write(hive_size, idx))
}

/// Start, size and type of region `i` of the memory map.
fn memory_region(hive_span_v: u64, hive_size: u32, i: usize) -> (r: (u64, u64, u32))
    requires
        i < 7,
        hive_span_v == hive_span(hive_size),
        hive_span_v <= 0x1_0000_0000,
    ensures
        r == (md_base(hive_size, i as int), md_size(hive_size, i as int), md_type(i as int)),
{
    if i == 0 {
        (0, 0x1000, 1)
    } else if i == 1 {
        (0x1000, 0x1FF000, 0)
    } else if i == 2 {
        (0x200000, 0x1E00000, 7)
    } else if i == 3 {
        (0x2000000, 0x2000000, 8)
    } else if i == 4 {
        (0x4000000, 0x200000, 15)
    } else if i == 5 {
        (0x4200000, hive_size as u64, 15)
    } else {
        (0x4200000 + hive_span_v, MEM_SIZE - (0x4200000 + hive_span_v), 0)
    }
}

/// Writes the memory descriptor list of the loader block: seven descriptors
/// 0x1000 apart from `LPB_PBASE + 0x20000`, linked into a ring through the
/// list head at `LPB_PBASE + 0x20`. Each write is skipped when it does not fit.
pub fn setup_memory_descriptors(vm: &mut Vm, hive_size: u32)
    ensures
        final(vm)@ == try_writes(old(vm)@, memory_map_writes(hive_size)),
{
    let ghost start = vm@;
    let ghost ws = memory_map_writes(hive_size);
    let h: u64 = hive_size as u64;
    let span: u64 = (h + 0xFFF) & !0xFFFu64;
    assert(span <= 0x1_0000_0000) by (bit_vector)
        requires
            span == ((h + 0xFFF) as u64) & !0xFFFu64,
            h < 0x1_0000_0000,
    ;
    let mem_head: u64 = LPB_VBASE + 0x20;
    let mut i: usize = 0;
    while i < 7
        invariant
            i <= 7,
            span == hive_span(hive_size),
            span <= 0x1_0000_0000,
            mem_head == memory_head_v(),
            ws == memory_map_writes(hive_size),
            vm@ == try_writes(start, ws.take(3 * i)),
        decreases 7 - i,
    {
        let (base, size, ty) = memory_region(span, hive_size, i);
        let entry_v: u64 = LPB_VBASE + 0x20000 + 0x1000 * (i as u64);
        let entry_p: u64 = LPB_PBASE + 0x20000 + 0x1000 * (i as u64);
        let ghost k: int = 3 * i;
        assert(k / 3 == i && k % 3 == 0);
        assert((k + 1) / 3 == i && (k + 1) % 3 == 1);
        assert((k + 2) / 3 == i && (k + 2) % 3 == 2);
        assert(descriptor_image(base, size, ty).len() == 0x28);
        let _ = LoaderParameterBlock::add_memory(vm, LPB_VBASE, LPB_PBASE, entry_v, entry_p, base, size, ty);
        proof { lemma_try_writes_push(start, ws.take(k), ws[k]); assert(ws.take(k).push(ws[k]) =~= ws.take(k + 1)); }
        let next_v: u64 = if i == 6 { mem_head } else { LPB_VBASE + 0x20000 + 0x1000 * (i as u64 + 1) };
        let prev_v: u64 = if i == 0 { mem_head } else { LPB_VBASE + 0x20000 + 0x1000 * (i as u64 - 1) };
        try_write_u64(vm, entry_p, next_v);
        proof { lemma_try_writes_push(start, ws.take(k + 1), ws[k + 1]); assert(ws.take(k + 1).push(ws[k + 1]) =~= ws.take(k + 2)); }
        try_write_u64(vm, entry_p + 8, prev_v);
        proof { lemma_try_writes_push(start, ws.take(k + 2), ws[k + 2]); assert(ws.take(k + 2).push(ws[k + 2]) =~= ws.take(k + 3)); }
        i += 1;
    }
    try_write_u64(vm, LPB_PBASE + 0x20, LPB_VBASE + 0x20000);
    proof { lemma_try_writes_push(start, ws.take(21), ws[21]); assert(ws.take(21).push(ws[21]) =~= ws.take(22)); }
    try_write_u64(vm, LPB_PBASE + 0x28, LPB_VBASE + 0x26000);
    proof { lemma_try_writes_push(start, ws.take(22), ws[22]); assert(ws.take(22).push(ws[22]) =~= ws.take(23)); }
    assert(ws.take(23) =~= ws);
}

/// The memory map covers physical memory in ascending order without
/// overlap: each region ends where the next begins, the SYSTEM hive's region
/// is followed by free memory from the next page boundary, and the last
/// region ends at the end of guest memory.
pub proof fn lemma_memory_map_ordered(hive_size: u32, i: int)
    requires
        0 <= i < 6,
    ensures
        i < 5 ==> md_base(hive_size, i) + md_size(hive_size, i) == md_base(hive_size, i + 1),
        md_base(hive_size, i) + md_size(hive_size, i) <= md_base(hive_size, i + 1),
        md_base(hive_size, 6) + md_size(hive_size, 6) == MEM_SIZE,
{
    let h = hive_size as u64;
    assert(((h + 0xFFF) as u64) & !0xFFFu64 >= h && ((h + 0xFFF) as u64) & !0xFFFu64 <= 0x1_0000_0000) by (bit_vector)
        requires
            h < 0x1_0000_0000,
    ;
}

/// Later descriptor writes never go back to an earlier descriptor.
proof fn lemma_descriptor_order(k: int, j: int)
    requires
        0 <= k < j < 21,
    ensures
        0 <= k / 3 <= j / 3 < 7,
        k / 3 == j / 3 ==> k % 3 < j % 3,
{
}

/// Each write of the memory descriptor list touches only its descriptor,
/// or the list head for the last two.
proof fn lemma_descriptor_write_place(hive_size: u32, j: int)
    requires
        0 <= j < 23,
    ensures
        j < 21 ==> md_p(j / 3) <= memory_map_write(hive_size, j).0,
        j < 21 ==> memory_map_write(hive_size, j).0 + memory_map_write(hive_size, j).1.len() <= md_p(j / 3) + 0x28,
        j < 21 && j % 3 != 0 ==> memory_map_write(hive_size, j).0 + memory_map_write(hive_size, j).1.len() <= md_p(j / 3) + 0x10,
        j >= 21 ==> LPB_PBASE + 0x20 <= memory_map_write(hive_size, j).0,
        j >= 21 ==> memory_map_write(hive_size, j).0 + memory_map_write(hive_size, j).1.len() <= LPB_PBASE + 0x30,
        memory_map_write(hive_size, j).1.len() <= 0x28,
{
}

/// After `setup_memory_descriptors` on guest memory that holds all the
/// descriptors, the memory descriptor list is well formed: the head points
/// at the first and the last descriptor, each descriptor links to its
/// neighbours (the head at either end), and holds the type, first page and
/// page count of its region.
pub proof fn lemma_memory_list_linked(mem: Seq<u8>, hive_size: u32, i: int)
    requires
        LPB_PBASE + 0x27000 <= mem.len(),
        0 <= i < 7,
    ensures
        ({
            let m = try_writes(mem, memory_map_writes(hive_size));
            let p = md_p(i);
            &&& u64_at(m, LPB_PBASE + 0x20) == md_v(0)
            &&& u64_at(m, LPB_PBASE + 0x28) == md_v(6)
            &&& u64_at(m, p) == if i == 6 { memory_head_v() } else { md_v(i + 1) }
            &&& u64_at(m, p + 8) == if i == 0 { memory_head_v() } else { md_v(i - 1) }
            &&& u32_at(m, p + 0x10) == md_type(i)
            &&& u64_at(m, p + 0x18) == md_base(hive_size, i) >> 12
            &&& u64_at(m, p + 0x20) == md_size(hive_size, i) >> 12
        }),
{
    let ws = memory_map_writes(hive_size);
    let p = md_p(i);
    // the list head's writes come last
    assert(ws[21] == memory_map_write(hive_size, 21));
    assert(ws[22] == memory_map_write(hive_size, 22));
    lemma_try_writes_read(mem, ws, 22);
    assert forall|j: int| 21 < j < ws.len() implies #[trigger] disjoint_writes(ws[j], ws[21]) by {}
    lemma_try_writes_read(mem, ws, 21);
    // the links of descriptor i
    let k = 3 * i;
    assert(k / 3 == i && k % 3 == 0);
    assert((k + 1) / 3 == i && (k + 1) % 3 == 1);
    assert((k + 2) / 3 == i && (k + 2) % 3 == 2);
    assert forall|j: int| k + 1 < j < ws.len() implies #[trigger] disjoint_writes(ws[j], ws[k + 1]) by {
        lemma_descriptor_write_place(hive_size, j);
        if j < 21 {
            lemma_descriptor_order(k + 1, j);
        }
    }
    lemma_try_writes_read(mem, ws, k + 1);
    assert forall|j: int| k + 2 < j < ws.len() implies #[trigger] disjoint_writes(ws[j], ws[k + 2]) by {
        lemma_descriptor_write_place(hive_size, j);
        if j < 21 {
            lemma_descriptor_order(k + 2, j);
        }
    }
    lemma_try_writes_read(mem, ws, k + 2);
    // the fields of descriptor i, which its links do not touch
    assert forall|j: int| k < j < ws.len() implies misses(#[trigger] ws[j], p + 0x10, p + 0x28) by {
        lemma_descriptor_write_place(hive_size, j);
        if j < 21 {
            lemma_descriptor_order(k, j);
        }
    }
    let img = descriptor_image(md_base(hive_size, i), md_size(hive_size, i), md_type(i));
    assert(ws[k].1 == img);
    lemma_try_writes_read_range(mem, ws, k, p + 0x10, p + 0x14);
    lemma_try_writes_read_range(mem, ws, k, p + 0x18, p + 0x20);
    lemma_try_writes_read_range(mem, ws, k, p + 0x20, p + 0x28);
    assert(img.subrange(0x10, 0x14) =~= le32(md_type(i)));
    assert(img.subrange(0x18, 0x20) =~= le64(md_base(hive_size, i) >> 12));
    assert(img.subrange(0x20, 0x28) =~= le64(md_size(hive_size, i) >> 12));
    lemma_le32_roundtrip(md_type(i));
    lemma_le64_roundtrip(md_base(hive_size, i) >> 12);
    lemma_le64_roundtrip(md_size(hive_size, i) >> 12);
    lemma_le64_roundtrip(md_v(0));
    lemma_le64_roundtrip(md_v(6));
    lemma_le64_roundtrip(memory_head_v());
    if i < 6 {
        lemma_le64_roundtrip(md_v(i + 1));
    }
    if i > 0 {
        lemma_le64_roundtrip(md_v(i - 1));
    }
}

/// A module is a HAL extension when its name, in lower case, contains "halext".
pub open spec fn is_hal_extension_name(name: Seq<char>) -> bool {
    contains_seq(lowercase_of(name), "halext"@)
}

/// Whether the module named `name` is a HAL extension.
pub fn is_hal_extension(name: &str) -> (r: bool)
    ensures
        r == is_hal_extension_name(name@),
{
    let lower = lowercase(name);
    contains_text(lower.as_str(), "halext")
}

/// The entries of the modules whose names mark them as HAL extensions, in
/// load order.
pub open spec fn hal_extension_entries(names: Seq<Seq<char>>, nodes: Seq<(u64, u64)>) -> Seq<(u64, u64)>
    decreases nodes.len(),
{
    if nodes.len() == 0 || names.len() == 0 {
        Seq::empty()
    } else {
        let rest = hal_extension_entries(names.drop_last(), nodes.drop_last());
        if is_hal_extension_name(names.last()) {
            rest.push(nodes.last())
        } else {
            rest
        }
    }
}

/// Picks, from the module entries `nodes` (virtual, physical) of the modules
/// named `names`, those of the HAL extensions, in load order.
pub fn select_hal_extensions(names: &Vec<String>, nodes: &Vec<(u64, u64)>) -> (r: Vec<(u64, u64)>)
    requires
        names@.len() == nodes@.len(),
    ensures
        r@ == hal_extension_entries(names@.map_values(|s: String| s@), nodes@),
{
    let ghost all_names = names@.map_values(|s: String| s@);
    let mut out: Vec<(u64, u64)> = Vec::new();
    let mut i: usize = 0;
    while i < nodes.len()
        invariant
            names@.len() == nodes@.len(),
            all_names == names@.map_values(|s: String| s@),
            i <= nodes@.len(),
            out@ == hal_extension_entries(all_names.take(i as int), nodes@.take(i as int)),
        decreases nodes@.len() - i,
    {
        proof {
            assert(all_names.take(i + 1).drop_last() =~= all_names.take(i as int));
            assert(nodes@.take(i + 1).drop_last() =~= nodes@.take(i as int));
            assert(all_names.take(i + 1).last() == names@[i as int]@);
        }
        if is_hal_extension(names[i].as_str()) {
            out.push(nodes[i]);
        }
        i += 1;
    }
    assert(all_names.take(nodes@.len() as int) =~= all_names);
    assert(nodes@.take(nodes@.len() as int) =~= nodes@);
    out
}

/// Write `idx` of linking the HAL extension list whose head is at
/// `ext_p + 0xA18` (virtual `ext_v + 0xA18`): the head's links to the
/// first and the last entry, then each entry's forward and backward links,
/// 0x20 into its module entry.
pub open spec fn hal_extension_write(ext_p: u64, ext_v: u64, nodes: Seq<(u64, u64)>, idx: int) -> (int, Seq<u8>) {
    let n = nodes.len() as int;
    let head_v = (ext_v + 0xA18) as u64;
    if idx == 0 {
        (ext_p + 0xA18, le64((nodes[0].0 + 0x20) as u64))
    } else if idx == 1 {
        (ext_p + 0xA20, le64((nodes[n - 1].0 + 0x20) as u64))
    } else {
        let i = (idx - 2) / 2;
        let p = nodes[i].1 + 0x20;
        if (idx - 2) % 2 == 0 {
            (p, le64(if i == n - 1 { head_v } else { (nodes[i + 1].0 + 0x20) as u64 }))
        } else {
            (p + 8, le64(if i == 0 { head_v } else { (nodes[i - 1].0 + 0x20) as u64 }))
        }
    }
}

/// All the writes of linking the HAL extension list; none when it is empty.
pub open spec fn hal_extension_writes(ext_p: u64, ext_v: u64, nodes: Seq<(u64, u64)>) -> Seq<(int, Seq<u8>)> {
    if nodes.len() == 0 {
        Seq::empty()
    } else {
        Seq::new((2 + 2 * nodes.len()) as nat, |idx: int| hal_extension_write(ext_p, ext_v, nodes, idx))
    }
}

/// Links the HAL extension entries `nodes` (virtual, physical module entry
/// addresses) into the list at `ext_p + 0xA18` of the loader parameter
/// extension; leaves the list as it is when there are none. Each write is
/// skipped when it does not fit.
pub fn link_hal_extensions(vm: &mut Vm, ext_p: u64, ext_v: u64, nodes: &Vec<(u64, u64)>)
    requires
        ext_p + 0xA20 <= u64::MAX,
        ext_v + 0xA18 <= u64::MAX,
        forall|i: int| #![trigger nodes@[i]] 0 <= i < nodes@.len() ==> nodes@[i].0 + 0x20 <= u64::MAX && nodes@[i].1 + 0x28 <= u64::MAX,
    ensures
        final(vm)@ == try_writes(old(vm)@, hal_extension_writes(ext_p, ext_v, nodes@)),
{
    if nodes.len() == 0 {
        return;
    }
    let ghost start = vm@;
    let ghost ws = hal_extension_writes(ext_p, ext_v, nodes@);
    let n = nodes.len();
    let head_v: u64 = ext_v + 0xA18;
    assert(nodes@[0].0 + 0x20 <= u64::MAX && nodes@[n - 1].0 + 0x20 <= u64::MAX);
    try_write_u64(vm, ext_p + 0xA18, nodes[0].0 + 0x20);
    proof { lemma_try_writes_push(start, ws.take(0), ws[0]); assert(ws.take(0).push(ws[0]) =~= ws.take(1)); }
    try_write_u64(vm, ext_p + 0xA20, nodes[n - 1].0 + 0x20);
    proof { lemma_try_writes_push(start, ws.take(1), ws[1]); assert(ws.take(1).push(ws[1]) =~= ws.take(2)); }
    let mut i: usize = 0;
    while i < n
        invariant
            n == nodes@.len(),
            n >= 1,
            i <= n,
            head_v == ext_v + 0xA18,
            ws == hal_extension_writes(ext_p, ext_v, nodes@),
            forall|k: int| #![trigger nodes@[k]] 0 <= k < nodes@.len() ==> nodes@[k].0 + 0x20 <= u64::MAX && nodes@[k].1 + 0x28 <= u64::MAX,
            vm@ == try_writes(start, ws.take(2 + 2 * i)),
        decreases n - i,
    {
        let (_v_i, p_i) = nodes[i];
        assert(nodes@[i as int].1 + 0x28 <= u64::MAX);
        assert(i + 1 < n ==> nodes@[i + 1].0 + 0x20 <= u64::MAX);
        assert(i >= 1 ==> nodes@[i - 1].0 + 0x20 <= u64::MAX);
        let next_v: u64 = if i == n - 1 { head_v } else { nodes[i + 1].0 + 0x20 };
        let prev_v: u64 = if i == 0 { head_v } else { nodes[i - 1].0 + 0x20 };
        let ghost k: int = 2 + 2 * i;
        assert((k - 2) / 2 == i && (k - 2) % 2 == 0);
        assert((k + 1 - 2) / 2 == i && (k + 1 - 2) % 2 == 1);
        try_write_u64(vm, p_i + 0x20, next_v);
        proof { lemma_try_writes_push(start, ws.take(k), ws[k]); assert(ws.take(k).push(ws[k]) =~= ws.take(k + 1)); }
        try_write_u64(vm, p_i + 0x28, prev_v);
        proof { lemma_try_writes_push(start, ws.take(k + 1), ws[k + 1]); assert(ws.take(k + 1).push(ws[k + 1]) =~= ws.take(k + 2)); }
        i += 1;
    }
    assert(ws.take(2 + 2 * n) =~= ws);
}

/// HAL extension entries placed as the loader places module entries:
/// ascending physical addresses at least 0x10 bytes apart, above the list
/// head in the loader parameter extension, all inside memory of `mem_len`
/// bytes.
pub open spec fn hal_nodes_well_placed(mem_len: nat, ext_p: u64, ext_v: u64, nodes: Seq<(u64, u64)>) -> bool {
    &&& nodes.len() >= 1
    &&& ext_v + 0xA18 <= u64::MAX
    &&& forall|i: int| #![trigger nodes[i]] 0 <= i < nodes.len() ==> nodes[i].0 + 0x20 <= u64::MAX && nodes[i].1 + 0x30 <= mem_len
    &&& ext_p + 0xA28 <= nodes[0].1 + 0x20
    &&& forall|i: int, j: int| 0 <= i < j < nodes.len() ==> #[trigger] nodes[i].1 + 0x10 <= #[trigger] nodes[j].1
}

/// Index arithmetic of the per-entry writes of the HAL extension list.
proof fn lemma_pair_index(k: int, j: int, n: int)
    requires
        2 <= k < j < 2 + 2 * n,
    ensures
        0 <= (k - 2) / 2 <= (j - 2) / 2 < n,
        (k - 2) / 2 == (j - 2) / 2 ==> (k - 2) % 2 == 0 && (j - 2) % 2 == 1,
{
    assert((j - 2) / 2 < n) by (nonlinear_arith)
        requires
            2 <= j < 2 + 2 * n,
    ;
    assert((k - 2) / 2 <= (j - 2) / 2) by (nonlinear_arith)
        requires
            2 <= k < j,
    ;
}

/// Write `j` of the HAL extension list past the head belongs to entry `(j - 2) / 2`.
proof fn lemma_pair_bound(j: int, n: int)
    requires
        2 <= j < 2 + 2 * n,
    ensures
        0 <= (j - 2) / 2 < n,
{
    assert((j - 2) / 2 < n) by (nonlinear_arith)
        requires
            2 <= j < 2 + 2 * n,
    ;
}

/// Each write of linking the HAL extension list reads back afterwards.
proof fn lemma_hal_write_reads_back(mem: Seq<u8>, ext_p: u64, ext_v: u64, nodes: Seq<(u64, u64)>, k: int)
    requires
        hal_nodes_well_placed(mem.len(), ext_p, ext_v, nodes),
        0 <= k < 2 + 2 * nodes.len(),
    ensures
        try_writes(mem, hal_extension_writes(ext_p, ext_v, nodes)).subrange(
            hal_extension_write(ext_p, ext_v, nodes, k).0,
            hal_extension_write(ext_p, ext_v, nodes, k).0 + 8,
        ) == hal_extension_write(ext_p, ext_v, nodes, k).1,
{
    let ws = hal_extension_writes(ext_p, ext_v, nodes);
    let n = nodes.len() as int;
    assert forall|j: int| k < j < ws.len() implies #[trigger] disjoint_writes(ws[j], ws[k]) by {
        if j >= 2 {
            lemma_pair_bound(j, n);
            let i2 = (j - 2) / 2;
            assert(nodes[i2].1 >= nodes[0].1) by {
                if i2 > 0 {
                    assert(nodes[0].1 + 0x10 <= nodes[i2].1);
                }
            }
            if k >= 2 {
                lemma_pair_index(k, j, n);
                let i1 = (k - 2) / 2;
                if i1 < i2 {
                    assert(nodes[i1].1 + 0x10 <= nodes[i2].1);
                }
            }
        }
    }
    assert(ws[k] == hal_extension_write(ext_p, ext_v, nodes, k));
    if k >= 2 {
        lemma_pair_bound(k, n);
        let i1 = (k - 2) / 2;
        assert(nodes[i1].1 + 0x30 <= mem.len());
    } else {
        assert(nodes[0].1 + 0x30 <= mem.len());
    }
    lemma_try_writes_read(mem, ws, k);
}

/// After `link_hal_extensions` with entries placed as the loader places
/// them, the HAL extension list is well formed: the head points at the first
/// and the last entry, and each entry links to its neighbours, the head at
/// either end.
pub proof fn lemma_hal_extensions_linked(mem: Seq<u8>, ext_p: u64, ext_v: u64, nodes: Seq<(u64, u64)>, i: int)
    requires
        hal_nodes_well_placed(mem.len(), ext_p, ext_v, nodes),
        0 <= i < nodes.len(),
    ensures
        ({
            let m = try_writes(mem, hal_extension_writes(ext_p, ext_v, nodes));
            let n = nodes.len() as int;
            let head = (ext_v + 0xA18) as u64;
            let p = nodes[i].1 + 0x20;
            &&& u64_at(m, ext_p + 0xA18) == nodes[0].0 + 0x20
            &&& u64_at(m, ext_p + 0xA20) == nodes[n - 1].0 + 0x20
            &&& u64_at(m, p) == if i == n - 1 { head as int } else { nodes[i + 1].0 + 0x20 }
            &&& u64_at(m, p + 8) == if i == 0 { head as int } else { nodes[i - 1].0 + 0x20 }
        }),
{
    let n = nodes.len() as int;
    let k = 2 + 2 * i;
    assert((k - 2) / 2 == i && (k - 2) % 2 == 0);
    assert((k + 1 - 2) / 2 == i && (k + 1 - 2) % 2 == 1);
    lemma_hal_write_reads_back(mem, ext_p, ext_v, nodes, 0);
    lemma_hal_write_reads_back(mem, ext_p, ext_v, nodes, 1);
    lemma_hal_write_reads_back(mem, ext_p, ext_v, nodes, k);
    lemma_hal_write_reads_back(mem, ext_p, ext_v, nodes, k + 1);
    lemma_le64_roundtrip((nodes[0].0 + 0x20) as u64);
    lemma_le64_roundtrip((nodes[n - 1].0 + 0x20) as u64);
    lemma_le64_roundtrip((ext_v + 0xA18) as u64);
    if i + 1 < n {
        lemma_le64_roundtrip((nodes[i + 1].0 + 0x20) as u64);
    }
    if i > 0 {
        lemma_le64_roundtrip((nodes[i - 1].0 + 0x20) as u64);
    }
}

/// Physical address of the SYSTEM registry hive.
pub const HIVE_PBASE: u64 = 0x4200000;

/// Kernel virtual address of the SYSTEM registry hive.
pub const HIVE_VBASE: u64 = 0xFFFFF80045000000;

/// The signature that opens a registry hive file: "regf".
pub open spec fn regf_signature() -> Seq<u8> {
    seq![0x72u8, 0x65u8, 0x67u8, 0x66u8]
}

/// Copies the SYSTEM hive to `HIVE_PBASE` and checks that the copy in guest
/// memory begins with the "regf" signature. Fails, writing nothing, when
/// the hive does not fit.
pub fn load_system_hive(vm: &mut Vm, hive: &[u8]) -> (r: Result<bool, &'static str>)
    ensures
        in_bounds(old(vm)@.len(), HIVE_PBASE as int, hive@.len() as int) ==> r is Ok && final(vm)@ == spec_write(
            old(vm)@,
            HIVE_PBASE as int,
            hive@,
        ) && r->Ok_0 == (in_bounds(final(vm)@.len(), HIVE_PBASE as int, 4) && final(vm)@.subrange(
            HIVE_PBASE as int,
            HIVE_PBASE + 4,
        ) == regf_signature()),
        !in_bounds(old(vm)@.len(), HIVE_PBASE as int, hive@.len() as int) ==> write_refused(r) && final(vm)@ == old(vm)@,
{
    vm.write_memory_at(HIVE_PBASE, hive)?;
    let mut sig: [u8; 4] = [0u8; 4];
    let read = vm.read_memory_at(HIVE_PBASE, &mut sig);
    if read.is_err() {
        return Ok(false);
    }
    let ok = sig[0] == 0x72 && sig[1] == 0x65 && sig[2] == 0x67 && sig[3] == 0x66;
    proof {
        if ok {
            assert(sig@ =~= regf_signature());
        } else {
            assert(sig@ != regf_signature());
        }
    }
    Ok(ok)
}

/// Physical address at which the API set schema file is placed.
pub const APISET_PBASE: u64 = 0x4060000;

/// Virtual address of the API set schema file.
pub const APISET_VBASE: u64 = 0xFFFFF80004060000;

/// Places the API set schema file at `APISET_PBASE` (skipped when it does
/// not fit) and points the loader parameter extension at `ext_p` to the
/// schema, which starts 0x2000 bytes into the file and runs to its end.
pub fn load_apiset(vm: &mut Vm, ext_p: u64, apiset: &[u8]) -> (r: Result<(), &'static str>)
    requires
        ext_p + 0xA88 <= u64::MAX,
        apiset@.len() as u32 >= 0x2000,
    ensures
        ({
            let m1 = try_write(old(vm)@, APISET_PBASE as int, apiset@);
            let size = (apiset@.len() as u32 - 0x2000) as u32;
            &&& !in_bounds(m1.len(), ext_p + 0xA80, 8) ==> write_refused(r) && final(vm)@ == m1
            &&& in_bounds(m1.len(), ext_p + 0xA80, 8) && !in_bounds(m1.len(), ext_p + 0xA88, 4) ==> write_refused(r)
                && final(vm)@ == spec_write(m1, ext_p + 0xA80, le64((APISET_VBASE + 0x2000) as u64))
            &&& in_bounds(m1.len(), ext_p + 0xA88, 4) ==> r is Ok && final(vm)@ == spec_write(
                spec_write(m1, ext_p + 0xA80, le64((APISET_VBASE + 0x2000) as u64)),
                ext_p + 0xA88,
                le32(size),
            )
        }),
{
    let _ = vm.write_memory_at(APISET_PBASE, apiset);
    let len32: u32 = apiset.len() as u32;
    LoaderParameterExtension::set_apiset(vm, ext_p, APISET_VBASE + 0x2000, len32 - 0x2000)
}

} // verus!
