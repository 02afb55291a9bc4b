//! The kernel's initial four-level page tables and the page-table walk that
//! translates a guest virtual address.
use vstd::prelude::*;
use crate::bytes::{from_le64, le64, lemma_le64_roundtrip, read_u64_le, u64_le};
use crate::layout::{HAL_PBASE, KUSER_PBASE, KUSER_VBASE, K_VIRT_ANY, STACK_PBASE, STACK_VBASE};
use crate::vm::{write_refused, in_bounds, spec_write, Vm};

verus! {

/// Physical base of the page-table area.
pub const PAGING_PBASE: u64 = 0x8100000;

/// Size in bytes of the page-table area.
pub const PAGING_SIZE: u64 = 0x80000;

/// Physical address of the PML4, the value loaded into CR3.
pub const PML4_P: u64 = 0x8102000;

/// Page directory pointer table of the high half (kernel, HAL, MMIO).
pub const PDPT_HIGH_P: u64 = 0x8103000;

/// Page directory pointer table of the stack area.
pub const PDPT_STACK_P: u64 = 0x8104000;

/// Page directory pointer table of KUSER_SHARED_DATA.
pub const PDPT_USER_P: u64 = 0x8105000;

/// Page directory pointer table of the low half; left empty.
pub const PDPT_LOW_P: u64 = 0x8106000;

/// Page directory of the stack area.
pub const PD_STACK_P: u64 = 0x810B000;

/// Page directory of KUSER_SHARED_DATA.
pub const PD_USER_P: u64 = 0x810C000;

/// Page directory of the kernel: the first GiB of physical memory.
pub const PD_KERNEL_P: u64 = 0x810D000;

/// Page directory of the HAL.
pub const PD_HAL_P: u64 = 0x8114000;

/// Page table holding KUSER_SHARED_DATA.
pub const PT_USER_P: u64 = 0x8115000;

/// Page directory of the MMIO area.
pub const PD_MMIO_P: u64 = 0x8160000;

/// Page table of the I/O APIC.
pub const PT_IOAPIC_P: u64 = 0x8161000;

/// Page table of the HPET.
pub const PT_HPET_P: u64 = 0x8161800;

/// Page table of the local APIC.
pub const PT_APIC_P: u64 = 0x8162000;

/// Execute-disable bit of a page-table entry.
pub const NX: u64 = 0x8000_0000_0000_0000;

/// Bits of an entry that hold the physical address of the next table.
pub const ADDR_MASK: u64 = 0x000F_FFFF_FFFF_F000;

/// Index of the PML4 slot among the 8-byte slots of the page-table area.
pub open spec fn slot_of(p: u64) -> int {
    (p - PAGING_PBASE) / 8
}

/// The page-directory index of `hal_base`, where the HAL's 2 MiB pages begin.
pub open spec fn hal_pd_index(hal_base: u64) -> int {
    ((hal_base >> 21) & 0x1ff) as int
}

/// The 64-bit value that `setup_kernel_paging` leaves in 8-byte slot `s` of
/// the page-table area, for a HAL whose page-directory index is `h`.
pub open spec fn slot_value(h: int, s: int) -> u64 {
    if s == slot_of(PT_USER_P) {
        KUSER_PBASE | 0x7
    } else if slot_of(PD_HAL_P) + h <= s < slot_of(PD_HAL_P) + h + 32 {
        (HAL_PBASE + (s - slot_of(PD_HAL_P) - h) * 0x200000) as u64 | 0x83
    } else if slot_of(PD_KERNEL_P) <= s < slot_of(PD_KERNEL_P) + 512 {
        ((s - slot_of(PD_KERNEL_P)) * 0x200000) as u64 | 0x83
    } else if slot_of(PD_STACK_P) <= s < slot_of(PD_STACK_P) + 512 {
        (STACK_PBASE + (s - slot_of(PD_STACK_P)) * 0x200000) as u64 | 0x83 | NX
    } else if s == slot_of(PML4_P) + 496 || s == slot_of(PML4_P) + 511 {
        PDPT_HIGH_P | 0x3
    } else if s == slot_of(PML4_P) {
        PDPT_LOW_P | 0x3
    } else if s == slot_of(PML4_P) + 509 {
        PDPT_STACK_P | 0x3 | NX
    } else if s == slot_of(PML4_P) + 495 {
        PDPT_USER_P | 0x7
    } else if s == slot_of(PML4_P) + 493 {
        PML4_P | 0x3 | NX
    } else if s == slot_of(PDPT_HIGH_P) {
        PD_KERNEL_P | 0x3
    } else if s == slot_of(PDPT_HIGH_P) + 1 {
        PD_HAL_P | 0x3
    } else if s == slot_of(PDPT_HIGH_P) + 3 {
        PD_MMIO_P | 0x3
    } else if s == slot_of(PD_MMIO_P) + 502 {
        PT_IOAPIC_P | 0x3
    } else if s == slot_of(PD_MMIO_P) + 503 {
        PT_HPET_P | 0x3
    } else if s == slot_of(PD_MMIO_P) + 504 {
        PT_APIC_P | 0x3
    } else if s == slot_of(PT_IOAPIC_P) {
        0xFEC00000u64 | 0x1B | NX
    } else if s == slot_of(PT_HPET_P) {
        0xFED00000u64 | 0x1B | NX
    } else if s == slot_of(PT_APIC_P) {
        0xFEE00000u64 | 0x1B | NX
    } else if s == slot_of(PDPT_STACK_P) {
        PD_STACK_P | 0x3 | NX
    } else if s == slot_of(PDPT_USER_P) {
        PD_USER_P | 0x7
    } else if s == slot_of(PD_USER_P) {
        PT_USER_P | 0x7
    } else if s == 0xA000 {
        // the bytes 0F 01 C1 (vmcall) at PAGING_PBASE + 0x50000
        0xC1010F
    } else {
        0
    }
}

/// The whole page-table area as bytes: each slot's value, little endian.
pub open spec fn paging_region(h: int) -> Seq<u8> {
    Seq::new(PAGING_SIZE as nat, |k: int| le64(slot_value(h, k / 8))[k % 8])
}

/// The eight bytes of memory at `addr`, read as a little-endian value, or
/// `None` when they lie outside memory.
pub open spec fn read_entry(mem: Seq<u8>, addr: int) -> Option<u64> {
    if 0 <= addr && addr + 8 <= mem.len() {
        Some(from_le64(mem.subrange(addr, addr + 8)))
    } else {
        None
    }
}

/// The physical address that the page tables rooted at `cr3` map `vaddr` to,
/// following 1 GiB, 2 MiB and 4 KiB pages; `vaddr` itself where an entry is
/// not present or lies outside memory.
pub open spec fn translate(mem: Seq<u8>, cr3: u64, vaddr: u64) -> u64 {
    let pml4_base = cr3 & ADDR_MASK;
    match read_entry(mem, pml4_base + ((vaddr >> 39) & 0x1FF) * 8) {
        None => vaddr,
        Some(pml4e) => if pml4e & 1 == 0 {
            vaddr
        } else {
            match read_entry(mem, (pml4e & ADDR_MASK) + ((vaddr >> 30) & 0x1FF) * 8) {
                None => vaddr,
                Some(pdpte) => if pdpte & 1 == 0 {
                    vaddr
                } else if pdpte & 0x80 != 0 {
                    (pdpte & 0x000F_FFFF_C000_0000) | (vaddr & 0x3FFF_FFFF)
                } else {
                    match read_entry(mem, (pdpte & ADDR_MASK) + ((vaddr >> 21) & 0x1FF) * 8) {
                        None => vaddr,
                        Some(pde) => if pde & 1 == 0 {
                            vaddr
                        } else if pde & 0x80 != 0 {
                            (pde & 0x000F_FFFF_FFE0_0000) | (vaddr & 0x1F_FFFF)
                        } else {
                            match read_entry(
                                mem,
                                (pde & ADDR_MASK) + ((vaddr >> 12) & 0x1FF) * 8,
                            ) {
                                None => vaddr,
                                Some(pte) => if pte & 1 == 0 {
                                    vaddr
                                } else {
                                    (pte & ADDR_MASK) | (vaddr & 0xFFF)
                                },
                            }
                        },
                    }
                },
            }
        },
    }
}

/// The little-endian bytes of all values of `v`, in order.
pub fn u64s_to_le_bytes(v: &Vec<u64>) -> (out: Vec<u8>)
    requires
        v@.len() * 8 <= usize::MAX,
    ensures
        out@.len() == v@.len() * 8,
        forall|k: int| 0 <= k < out@.len() ==> #[trigger] out@[k] == le64(v@[k / 8])[k % 8],
{
    let mut out: Vec<u8> = Vec::new();
    let mut i: usize = 0;
    while i < v.len()
        invariant
            i <= v@.len(),
            out@.len() == i * 8,
            forall|k: int| 0 <= k < out@.len() ==> #[trigger] out@[k] == le64(v@[k / 8])[k % 8],
        decreases v@.len() - i,
    {
        let b = u64_le(v[i]);
        let ghost before = out@;
        out.extend_from_slice(&b);
        assert forall|k: int| 0 <= k < out@.len() implies #[trigger] out@[k] == le64(v@[k / 8])[k
            % 8] by {
            if k >= before.len() {
                assert(k / 8 == i as int);
                assert(k % 8 == k - before.len());
            }
        }
        i += 1;
    }
    out
}

/// The values of all 8-byte slots of the page-table area, in order.
fn build_paging_slots(hal_base: u64) -> (t: Vec<u64>)
    ensures
        t@ == Seq::new(0x10000, |s: int| slot_value(hal_pd_index(hal_base), s)),
{
    let ghost h = hal_pd_index(hal_base);
    let hal_idx = ((hal_base >> 21) & 0x1ff) as usize;
    assert(((hal_base >> 21) & 0x1ff) <= 0x1ff) by (bit_vector);
    let mut t: Vec<u64> = vec![0u64; 0x10000];
    assert forall|s: int| 0 <= s < 0x10000 implies t@[s] == 0u64 by {
        assert(vstd::pervasive::cloned(0u64, t@[s]));
    }
    // the HAL's 2 MiB pages
    let mut j: usize = 0;
    while j < 32
        invariant
            hal_idx == h,
            h <= 0x1ff,
            j <= 32,
            t@.len() == 0x10000,
            forall|s: int|
                #![trigger t@[s]]
                0 <= s < 0x10000 ==> t@[s] == (if 0x2800 + h <= s < 0x2800 + h + j {
                    (HAL_PBASE + (s - 0x2800 - h) * 0x200000) as u64 | 0x83
                } else {
                    0u64
                }),
        decreases 32 - j,
    {
        let phys = HAL_PBASE + (j as u64) * 0x200000;
        t.set(0x2800 + hal_idx + j, phys | 0x83);
        j += 1;
    }
    // the kernel's first GiB in 2 MiB pages
    let ghost before = t@;
    let mut j: usize = 0;
    while j < 512
        invariant
            j <= 512,
            t@.len() == 0x10000,
            before.len() == 0x10000,
            forall|s: int|
                #![trigger t@[s]]
                0 <= s < 0x10000 ==> t@[s] == (if 0x1A00 <= s < 0x1A00 + j {
                    ((s - 0x1A00) * 0x200000) as u64 | 0x83
                } else {
                    before[s]
                }),
        decreases 512 - j,
    {
        let phys = (j as u64) * 0x200000;
        t.set(0x1A00 + j, phys | 0x83);
        j += 1;
    }
    // the stack area in 2 MiB pages, not executable
    let ghost before2 = t@;
    let mut j: usize = 0;
    while j < 512
        invariant
            j <= 512,
            t@.len() == 0x10000,
            before2.len() == 0x10000,
            forall|s: int|
                #![trigger t@[s]]
                0 <= s < 0x10000 ==> t@[s] == (if 0x1600 <= s < 0x1600 + j {
                    (STACK_PBASE + (s - 0x1600) * 0x200000) as u64 | 0x83 | NX
                } else {
                    before2[s]
                }),
        decreases 512 - j,
    {
        let phys = STACK_PBASE + (j as u64) * 0x200000;
        t.set(0x1600 + j, phys | 0x83 | NX);
        j += 1;
    }
    let ghost before3 = t@;
    // PML4
    t.set(0x400 + 496, PDPT_HIGH_P | 0x3);
    t.set(0x400 + 511, PDPT_HIGH_P | 0x3);
    t.set(0x400, PDPT_LOW_P | 0x3);
    t.set(0x400 + 509, PDPT_STACK_P | 0x3 | NX);
    t.set(0x400 + 495, PDPT_USER_P | 0x7);
    t.set(0x400 + 493, PML4_P | 0x3 | NX);
    // high half
    t.set(0x600, PD_KERNEL_P | 0x3);
    t.set(0x600 + 1, PD_HAL_P | 0x3);
    // MMIO
    t.set(0x600 + 3, PD_MMIO_P | 0x3);
    t.set(0xC000 + 502, PT_IOAPIC_P | 0x3);
    t.set(0xC000 + 503, PT_HPET_P | 0x3);
    t.set(0xC000 + 504, PT_APIC_P | 0x3);
    t.set(0xC200, 0xFEC00000u64 | 0x1B | NX);
    t.set(0xC300, 0xFED00000u64 | 0x1B | NX);
    t.set(0xC400, 0xFEE00000u64 | 0x1B | NX);
    // stack
    t.set(0x800, PD_STACK_P | 0x3 | NX);
    // the bridge code bytes
    t.set(0xA000, 0xC1010F);
    // KUSER_SHARED_DATA
    t.set(0xA00, PD_USER_P | 0x7);
    t.set(0x1800, PT_USER_P | 0x7);
    t.set(0x2A00, KUSER_PBASE | 0x7);
    assert(t@ =~= Seq::new(0x10000, |s: int| slot_value(h, s)));
    t
}

/// Builds the kernel's page tables in the page-table area: the first GiB of
/// physical memory at K_VIRT_ANY and again at the top of the address space,
/// 32 MiB of HAL pages at the HAL's page-directory index, the local APIC,
/// I/O APIC and HPET pages, 1 GiB of stack and KUSER_SHARED_DATA. Fails,
/// writing nothing, when the area does not fit in guest memory.
pub fn setup_kernel_paging(vm: &mut Vm, _krnl_base: u64, hal_base: u64) -> (r: Result<
    (),
    &'static str,
>)
    ensures
        in_bounds(old(vm)@.len(), PAGING_PBASE as int, PAGING_SIZE as int) ==> r is Ok && final(vm)@
            == spec_write(old(vm)@, PAGING_PBASE as int, paging_region(hal_pd_index(hal_base))),
        !in_bounds(old(vm)@.len(), PAGING_PBASE as int, PAGING_SIZE as int) ==> write_refused(r) && final(vm)@
            == old(vm)@,
{
    let slots = build_paging_slots(hal_base);
    let region = u64s_to_le_bytes(&slots);
    assert(region@ =~= paging_region(hal_pd_index(hal_base)));
    vm.write_memory_at(PAGING_PBASE, region.as_slice())
}

/// Reads the 64-bit little-endian entry at physical `addr`.
fn read_entry_at(vm: &Vm, addr: u64) -> (r: Option<u64>)
    ensures
        r == read_entry(vm@, addr as int),
{
    let mut buf: Vec<u8> = vec![0u8; 8];
    match vm.read_memory_at(addr, buf.as_mut_slice()) {
        Ok(()) => {
            let v = read_u64_le(buf.as_slice(), 0);
            assert(buf@.subrange(0, 8) =~= vm@.subrange(addr as int, addr + 8));
            Some(v)
        },
        Err(_) => None,
    }
}

/// Translates a guest virtual address with the page tables rooted at `cr3`,
/// as the processor would; an address that is not mapped, or whose tables
/// cannot be read, is returned unchanged.
pub fn virt_to_phys(vm: &Vm, cr3: u64, vaddr: u64) -> (r: u64)
    ensures
        r == translate(vm@, cr3, vaddr),
{
    let pml4_base = cr3 & ADDR_MASK;
    let pml4_idx = (vaddr >> 39) & 0x1FF;
    assert(pml4_base <= ADDR_MASK && pml4_idx <= 0x1FF) by (bit_vector)
        requires pml4_base == cr3 & ADDR_MASK, pml4_idx == (vaddr >> 39) & 0x1FF;
    let pml4e = match read_entry_at(vm, pml4_base + pml4_idx * 8) {
        Some(e) => e,
        None => return vaddr,
    };
    if pml4e & 1 == 0 {
        return vaddr;
    }
    let pdpt_base = pml4e & ADDR_MASK;
    let pdpt_idx = (vaddr >> 30) & 0x1FF;
    assert(pdpt_base <= ADDR_MASK && pdpt_idx <= 0x1FF) by (bit_vector)
        requires pdpt_base == pml4e & ADDR_MASK, pdpt_idx == (vaddr >> 30) & 0x1FF;
    let pdpte = match read_entry_at(vm, pdpt_base + pdpt_idx * 8) {
        Some(e) => e,
        None => return vaddr,
    };
    if pdpte & 1 == 0 {
        return vaddr;
    }
    if pdpte & 0x80 != 0 {
        return (pdpte & 0x000F_FFFF_C000_0000) | (vaddr & 0x3FFF_FFFF);
    }
    let pd_base = pdpte & ADDR_MASK;
    let pd_idx = (vaddr >> 21) & 0x1FF;
    assert(pd_base <= ADDR_MASK && pd_idx <= 0x1FF) by (bit_vector)
        requires pd_base == pdpte & ADDR_MASK, pd_idx == (vaddr >> 21) & 0x1FF;
    let pde = match read_entry_at(vm, pd_base + pd_idx * 8) {
        Some(e) => e,
        None => return vaddr,
    };
    if pde & 1 == 0 {
        return vaddr;
    }
    if pde & 0x80 != 0 {
        return (pde & 0x000F_FFFF_FFE0_0000) | (vaddr & 0x1F_FFFF);
    }
    let pt_base = pde & ADDR_MASK;
    let pt_idx = (vaddr >> 12) & 0x1FF;
    assert(pt_base <= ADDR_MASK && pt_idx <= 0x1FF) by (bit_vector)
        requires pt_base == pde & ADDR_MASK, pt_idx == (vaddr >> 12) & 0x1FF;
    let pte = match read_entry_at(vm, pt_base + pt_idx * 8) {
        Some(e) => e,
        None => return vaddr,
    };
    if pte & 1 == 0 {
        return vaddr;
    }
    (pte & ADDR_MASK) | (vaddr & 0xFFF)
}

/// Memory after `setup_kernel_paging` for a HAL at `hal_base`.
pub open spec fn paged_memory(mem: Seq<u8>, hal_base: u64) -> Seq<u8> {
    spec_write(mem, PAGING_PBASE as int, paging_region(hal_pd_index(hal_base)))
}

/// After `setup_kernel_paging`, the entry read from slot `s` of the
/// page-table area is that slot's value.
pub proof fn lemma_read_slot(mem: Seq<u8>, hal_base: u64, s: int)
    requires
        in_bounds(mem.len(), PAGING_PBASE as int, PAGING_SIZE as int),
        0 <= s < 0x10000,
    ensures
        read_entry(paged_memory(mem, hal_base), PAGING_PBASE + 8 * s) == Some(
            slot_value(hal_pd_index(hal_base), s),
        ),
{
    let m = paged_memory(mem, hal_base);
    let v = slot_value(hal_pd_index(hal_base), s);
    let a = PAGING_PBASE + 8 * s;
    assert forall|k: int| 0 <= k < 8 implies #[trigger] m.subrange(a, a + 8)[k] == le64(v)[k] by {
        assert((8 * s + k) / 8 == s);
        assert((8 * s + k) % 8 == k);
    }
    assert(m.subrange(a, a + 8) =~= le64(v));
    lemma_le64_roundtrip(v);
}

/// After `setup_kernel_paging`, with CR3 at the PML4, the first GiB of
/// physical memory is mapped at K_VIRT_ANY: `K_VIRT_ANY + x` translates to `x`.
pub proof fn lemma_kernel_window(mem: Seq<u8>, hal_base: u64, x: u64)
    requires
        in_bounds(mem.len(), PAGING_PBASE as int, PAGING_SIZE as int),
        x < 0x4000_0000,
    ensures
        translate(paged_memory(mem, hal_base), PML4_P, (K_VIRT_ANY + x) as u64) == x,
{
    let va = (K_VIRT_ANY + x) as u64;
    let j = x >> 21;
    assert(va == 0xFFFFF80000000000u64 + x);
    assert((va >> 39) & 0x1FF == 496 && (va >> 30) & 0x1FF == 0 && (va >> 21) & 0x1FF == j && j
        < 512 && (((j * 0x200000) as u64 | 0x83) & 0x000F_FFFF_FFE0_0000) | (va & 0x1F_FFFF) == x)
        by (bit_vector)
        requires
            va == 0xFFFFF80000000000u64 + x,
            x < 0x4000_0000,
            j == x >> 21,
    ;
    assert(PML4_P & ADDR_MASK == PML4_P) by (bit_vector);
    let pml4e = PDPT_HIGH_P | 0x3;
    let pdpte = PD_KERNEL_P | 0x3;
    assert(pml4e & 1 == 1 && pml4e & ADDR_MASK == PDPT_HIGH_P && pdpte & 1 == 1 && pdpte & 0x80
        == 0 && pdpte & ADDR_MASK == PD_KERNEL_P) by (bit_vector)
        requires
            pml4e == PDPT_HIGH_P | 0x3,
            pdpte == PD_KERNEL_P | 0x3,
    ;
    let pde = (j * 0x200000) as u64 | 0x83;
    assert(pde & 1 == 1 && pde & 0x80 != 0) by (bit_vector)
        requires
            pde == (j * 0x200000) as u64 | 0x83,
    ;
    lemma_read_slot(mem, hal_base, 0x400int + 496);
    lemma_read_slot(mem, hal_base, 0x600int);
    lemma_read_slot(mem, hal_base, 0x1A00 + j as int);
}

/// After `setup_kernel_paging`, with CR3 at the PML4, the stack area's first
/// GiB is mapped at STACK_VBASE: `STACK_VBASE + x` translates to
/// `STACK_PBASE + x`.
pub proof fn lemma_stack_window(mem: Seq<u8>, hal_base: u64, x: u64)
    requires
        in_bounds(mem.len(), PAGING_PBASE as int, PAGING_SIZE as int),
        x < 0x4000_0000,
    ensures
        translate(paged_memory(mem, hal_base), PML4_P, (STACK_VBASE + x) as u64) == STACK_PBASE
            + x,
{
    let va = (STACK_VBASE + x) as u64;
    let j = x >> 21;
    let pde = (STACK_PBASE + j * 0x200000) as u64 | 0x83 | NX;
    assert((va >> 39) & 0x1FF == 509 && (va >> 30) & 0x1FF == 0 && (va >> 21) & 0x1FF == j && j
        < 512 && pde & 1 == 1 && pde & 0x80 != 0 && (pde & 0x000F_FFFF_FFE0_0000) | (va
        & 0x1F_FFFF) == 0x0A000000u64 + x) by (bit_vector)
        requires
            va == 0xFFFFFE8000000000u64 + x,
            x < 0x4000_0000,
            j == x >> 21,
            pde == (0x0A000000u64 + j * 0x200000) as u64 | 0x83 | 0x8000_0000_0000_0000u64,
    ;
    assert(PML4_P & ADDR_MASK == PML4_P) by (bit_vector);
    let pml4e = PDPT_STACK_P | 0x3 | NX;
    let pdpte = PD_STACK_P | 0x3 | NX;
    assert(pml4e & 1 == 1 && pml4e & ADDR_MASK == PDPT_STACK_P && pdpte & 1 == 1 && pdpte & 0x80
        == 0 && pdpte & ADDR_MASK == PD_STACK_P) by (bit_vector)
        requires
            pml4e == PDPT_STACK_P | 0x3 | NX,
            pdpte == PD_STACK_P | 0x3 | NX,
    ;
    lemma_read_slot(mem, hal_base, 0x400int + 509);
    lemma_read_slot(mem, hal_base, 0x800int);
    lemma_read_slot(mem, hal_base, 0x1600 + j as int);
}

/// After `setup_kernel_paging`, with CR3 at the PML4, the page of
/// KUSER_SHARED_DATA is mapped at its kernel address: `KUSER_VBASE + x`
/// translates to `KUSER_PBASE + x` within the page.
pub proof fn lemma_kuser_page(mem: Seq<u8>, hal_base: u64, x: u64)
    requires
        in_bounds(mem.len(), PAGING_PBASE as int, PAGING_SIZE as int),
        x < 0x1000,
    ensures
        translate(paged_memory(mem, hal_base), PML4_P, (KUSER_VBASE + x) as u64) == KUSER_PBASE
            + x,
{
    let va = (KUSER_VBASE + x) as u64;
    assert((va >> 39) & 0x1FF == 495 && (va >> 30) & 0x1FF == 0 && (va >> 21) & 0x1FF == 0 && (va
        >> 12) & 0x1FF == 0 && va & 0xFFF == x) by (bit_vector)
        requires
            va == 0xFFFFF78000000000u64 + x,
            x < 0x1000,
    ;
    assert(PML4_P & ADDR_MASK == PML4_P) by (bit_vector);
    let e0 = PDPT_USER_P | 0x7;
    let e1 = PD_USER_P | 0x7;
    let e2 = PT_USER_P | 0x7;
    let e3 = KUSER_PBASE | 0x7;
    assert(e0 & 1 == 1 && e0 & ADDR_MASK == PDPT_USER_P && e1 & 1 == 1 && e1 & 0x80 == 0 && e1
        & ADDR_MASK == PD_USER_P && e2 & 1 == 1 && e2 & 0x80 == 0 && e2 & ADDR_MASK == PT_USER_P
        && e3 & 1 == 1 && (e3 & ADDR_MASK) | x == KUSER_PBASE + x) by (bit_vector)
        requires
            e0 == PDPT_USER_P | 0x7,
            e1 == PD_USER_P | 0x7,
            e2 == PT_USER_P | 0x7,
            e3 == KUSER_PBASE | 0x7,
            x < 0x1000,
    ;
    lemma_read_slot(mem, hal_base, 0x400int + 495);
    lemma_read_slot(mem, hal_base, 0xA00int);
    lemma_read_slot(mem, hal_base, 0x1800int);
    lemma_read_slot(mem, hal_base, 0x2A00int);
}

/// After `setup_kernel_paging`, with CR3 at the PML4, the HAL's 32 large pages
/// are mapped in the second GiB of the high half from its page-directory
/// index on: `K_VIRT_ANY + 1 GiB + (idx + j) * 2 MiB + off` translates to
/// `HAL_PBASE + j * 2 MiB + off`, for every page that stays inside the
/// directory.
pub proof fn lemma_hal_window(mem: Seq<u8>, hal_base: u64, j: u64, off: u64)
    requires
        in_bounds(mem.len(), PAGING_PBASE as int, PAGING_SIZE as int),
        j < 32,
        hal_pd_index(hal_base) + j < 512,
        off < 0x20_0000,
    ensures
        translate(
            paged_memory(mem, hal_base),
            PML4_P,
            (K_VIRT_ANY + 0x4000_0000 + (hal_pd_index(hal_base) + j) * 0x20_0000 + off) as u64,
        ) == HAL_PBASE + j * 0x20_0000 + off,
{
    let h = hal_pd_index(hal_base);
    let i = (h + j) as u64;
    let va = (K_VIRT_ANY + 0x4000_0000 + (h + j) * 0x20_0000 + off) as u64;
    let pde = (HAL_PBASE + j * 0x200000) as u64 | 0x83;
    assert((va >> 39) & 0x1FF == 496 && (va >> 30) & 0x1FF == 1 && (va >> 21) & 0x1FF == i && pde
        & 1 == 1 && pde & 0x80 != 0 && (pde & 0x000F_FFFF_FFE0_0000) | (va & 0x1F_FFFF)
        == 0x2000000u64 + j * 0x20_0000 + off) by (bit_vector)
        requires
            va == 0xFFFFF80040000000u64 + i * 0x20_0000 + off,
            i < 512,
            j < 32,
            off < 0x20_0000,
            pde == (0x2000000u64 + j * 0x200000) as u64 | 0x83,
    ;
    assert(PML4_P & ADDR_MASK == PML4_P) by (bit_vector);
    let pml4e = PDPT_HIGH_P | 0x3;
    let pdpte = PD_HAL_P | 0x3;
    assert(pml4e & 1 == 1 && pml4e & ADDR_MASK == PDPT_HIGH_P && pdpte & 1 == 1 && pdpte & 0x80
        == 0 && pdpte & ADDR_MASK == PD_HAL_P) by (bit_vector)
        requires
            pml4e == PDPT_HIGH_P | 0x3,
            pdpte == PD_HAL_P | 0x3,
    ;
    lemma_read_slot(mem, hal_base, 0x400int + 496);
    lemma_read_slot(mem, hal_base, 0x601int);
    lemma_read_slot(mem, hal_base, 0x2800 + h + j as int);
}

/// After `setup_kernel_paging`, with CR3 at the PML4, the interrupt
/// controllers and the HPET are reachable through the third GiB of the high
/// half: the I/O APIC's page at `K_VIRT_ANY + 3 GiB + 502 * 2 MiB` maps to
/// 0xFEC00000, the HPET's entry, which lies 0x800 bytes into the same 4 KiB
/// table, maps the page 1 MiB above it to 0xFED00000, and the local APIC's
/// page at directory slot 504 maps to 0xFEE00000; each page keeps its offset.
pub proof fn lemma_mmio_pages(mem: Seq<u8>, hal_base: u64, x: u64)
    requires
        in_bounds(mem.len(), PAGING_PBASE as int, PAGING_SIZE as int),
        x < 0x1000,
    ensures
        translate(paged_memory(mem, hal_base), PML4_P, (0xFFFFF800FEC00000u64 + x) as u64) == 0xFEC00000 + x,
        translate(paged_memory(mem, hal_base), PML4_P, (0xFFFFF800FED00000u64 + x) as u64) == 0xFED00000 + x,
        translate(paged_memory(mem, hal_base), PML4_P, (0xFFFFF800FF000000u64 + x) as u64) == 0xFEE00000 + x,
{
    assert(((hal_base >> 21) & 0x1ff) <= 0x1ff) by (bit_vector);
    let io = (0xFFFFF800FEC00000u64 + x) as u64;
    let hp = (0xFFFFF800FED00000u64 + x) as u64;
    let ap = (0xFFFFF800FF000000u64 + x) as u64;
    assert((io >> 39) & 0x1FF == 496 && (io >> 30) & 0x1FF == 3 && (io >> 21) & 0x1FF == 502 && (io >> 12)
        & 0x1FF == 0 && io & 0xFFF == x) by (bit_vector)
        requires
            io == 0xFFFFF800FEC00000u64 + x,
            x < 0x1000,
    ;
    assert((hp >> 39) & 0x1FF == 496 && (hp >> 30) & 0x1FF == 3 && (hp >> 21) & 0x1FF == 502 && (hp >> 12)
        & 0x1FF == 256 && hp & 0xFFF == x) by (bit_vector)
        requires
            hp == 0xFFFFF800FED00000u64 + x,
            x < 0x1000,
    ;
    assert((ap >> 39) & 0x1FF == 496 && (ap >> 30) & 0x1FF == 3 && (ap >> 21) & 0x1FF == 504 && (ap >> 12)
        & 0x1FF == 0 && ap & 0xFFF == x) by (bit_vector)
        requires
            ap == 0xFFFFF800FF000000u64 + x,
            x < 0x1000,
    ;
    assert(PML4_P & ADDR_MASK == PML4_P) by (bit_vector);
    let e0 = PDPT_HIGH_P | 0x3;
    let e1 = PD_MMIO_P | 0x3;
    let e2 = PT_IOAPIC_P | 0x3;
    let e3 = PT_APIC_P | 0x3;
    let f_io = 0xFEC00000u64 | 0x1B | NX;
    let f_hp = 0xFED00000u64 | 0x1B | NX;
    let f_ap = 0xFEE00000u64 | 0x1B | NX;
    assert(e0 & 1 == 1 && e0 & ADDR_MASK == PDPT_HIGH_P && e1 & 1 == 1 && e1 & 0x80 == 0 && e1 & ADDR_MASK
        == PD_MMIO_P && e2 & 1 == 1 && e2 & 0x80 == 0 && e2 & ADDR_MASK == PT_IOAPIC_P && e3 & 1 == 1 && e3
        & 0x80 == 0 && e3 & ADDR_MASK == PT_APIC_P && f_io & 1 == 1 && (f_io & ADDR_MASK) | x == 0xFEC00000u64
        + x && f_hp & 1 == 1 && (f_hp & ADDR_MASK) | x == 0xFED00000u64 + x && f_ap & 1 == 1 && (f_ap
        & ADDR_MASK) | x == 0xFEE00000u64 + x) by (bit_vector)
        requires
            e0 == PDPT_HIGH_P | 0x3,
            e1 == PD_MMIO_P | 0x3,
            e2 == PT_IOAPIC_P | 0x3,
            e3 == PT_APIC_P | 0x3,
            f_io == 0xFEC00000u64 | 0x1B | NX,
            f_hp == 0xFED00000u64 | 0x1B | NX,
            f_ap == 0xFEE00000u64 | 0x1B | NX,
            x < 0x1000,
    ;
    lemma_read_slot(mem, hal_base, 0x400int + 496);
    lemma_read_slot(mem, hal_base, 0x600int + 3);
    lemma_read_slot(mem, hal_base, 0xC000int + 502);
    lemma_read_slot(mem, hal_base, 0xC000int + 504);
    lemma_read_slot(mem, hal_base, 0xC200int);
    lemma_read_slot(mem, hal_base, 0xC300int);
    lemma_read_slot(mem, hal_base, 0xC400int);
}

/// After `setup_kernel_paging`, with CR3 at the PML4, directory slot 503 of
/// the MMIO window links the HPET's table at `PT_HPET_P`, which is not 4 KiB
/// aligned: the processor drops its low 12 bits and walks the I/O APIC's
/// table page, so the page at `K_VIRT_ANY + 3 GiB + 503 * 2 MiB` maps to the
/// I/O APIC, 0xFEC00000.
pub proof fn lemma_hpet_directory_slot(mem: Seq<u8>, hal_base: u64, x: u64)
    requires
        in_bounds(mem.len(), PAGING_PBASE as int, PAGING_SIZE as int),
        x < 0x1000,
    ensures
        translate(paged_memory(mem, hal_base), PML4_P, (0xFFFFF800FEE00000u64 + x) as u64) == 0xFEC00000 + x,
{
    assert(((hal_base >> 21) & 0x1ff) <= 0x1ff) by (bit_vector);
    let va = (0xFFFFF800FEE00000u64 + x) as u64;
    assert((va >> 39) & 0x1FF == 496 && (va >> 30) & 0x1FF == 3 && (va >> 21) & 0x1FF == 503 && (va >> 12)
        & 0x1FF == 0 && va & 0xFFF == x) by (bit_vector)
        requires
            va == 0xFFFFF800FEE00000u64 + x,
            x < 0x1000,
    ;
    assert(PML4_P & ADDR_MASK == PML4_P) by (bit_vector);
    let e0 = PDPT_HIGH_P | 0x3;
    let e1 = PD_MMIO_P | 0x3;
    let e2 = PT_HPET_P | 0x3;
    let f_io = 0xFEC00000u64 | 0x1B | NX;
    assert(e0 & 1 == 1 && e0 & ADDR_MASK == PDPT_HIGH_P && e1 & 1 == 1 && e1 & 0x80 == 0 && e1 & ADDR_MASK
        == PD_MMIO_P && e2 & 1 == 1 && e2 & 0x80 == 0 && e2 & ADDR_MASK == PT_IOAPIC_P && f_io & 1 == 1 && (
        f_io & ADDR_MASK) | x == 0xFEC00000u64 + x) by (bit_vector)
        requires
            e0 == PDPT_HIGH_P | 0x3,
            e1 == PD_MMIO_P | 0x3,
            e2 == PT_HPET_P | 0x3,
            f_io == 0xFEC00000u64 | 0x1B | NX,
            x < 0x1000,
    ;
    lemma_read_slot(mem, hal_base, 0x400int + 496);
    lemma_read_slot(mem, hal_base, 0x600int + 3);
    lemma_read_slot(mem, hal_base, 0xC000int + 503);
    lemma_read_slot(mem, hal_base, 0xC200int);
}

/// A present page-directory-pointer entry with the page-size bit set maps a
/// whole 1 GiB page: the walk stops there, the page begins at the entry's
/// address bits from bit 30 up, and every address `x` bytes into the page,
/// for any `x` below 1 GiB, translates to that base plus `x`.
pub proof fn lemma_huge_page_keeps_offset(
    mem: Seq<u8>,
    cr3: u64,
    va: u64,
    x: u64,
    pml4e: u64,
    pdpte: u64,
)
    requires
        read_entry(mem, (cr3 & ADDR_MASK) + ((va >> 39) & 0x1FF) * 8) == Some(pml4e),
        pml4e & 1 == 1,
        read_entry(mem, (pml4e & ADDR_MASK) + ((va >> 30) & 0x1FF) * 8) == Some(pdpte),
        pdpte & 1 == 1,
        pdpte & 0x80 != 0,
        va & 0x3FFF_FFFF == 0,
        x < 0x4000_0000,
    ensures
        translate(mem, cr3, va) == pdpte & 0x000F_FFFF_C000_0000,
        translate(mem, cr3, (va + x) as u64) == translate(mem, cr3, va) + x,
{
    let w = (va + x) as u64;
    assert(w == va + x && (w >> 39) & 0x1FF == (va >> 39) & 0x1FF && (w >> 30) & 0x1FF == (va
        >> 30) & 0x1FF && w & 0x3FFF_FFFF == x && (pdpte & 0x000F_FFFF_C000_0000) | (va
        & 0x3FFF_FFFF) == pdpte & 0x000F_FFFF_C000_0000 && (pdpte & 0x000F_FFFF_C000_0000) | x
        == (pdpte & 0x000F_FFFF_C000_0000) + x) by (bit_vector)
        requires
            va & 0x3FFF_FFFF == 0,
            x < 0x4000_0000,
            w == (va + x) as u64,
    ;
}

/// A present page-directory entry with the page-size bit set, under present
/// upper entries, maps a whole 2 MiB page: the page begins at the entry's
/// address bits from bit 21 up, and every address `x` bytes into the page,
/// for any `x` below 2 MiB, translates to that base plus `x`.
pub proof fn lemma_large_page_keeps_offset(
    mem: Seq<u8>,
    cr3: u64,
    va: u64,
    x: u64,
    pml4e: u64,
    pdpte: u64,
    pde: u64,
)
    requires
        read_entry(mem, (cr3 & ADDR_MASK) + ((va >> 39) & 0x1FF) * 8) == Some(pml4e),
        pml4e & 1 == 1,
        read_entry(mem, (pml4e & ADDR_MASK) + ((va >> 30) & 0x1FF) * 8) == Some(pdpte),
        pdpte & 1 == 1,
        pdpte & 0x80 == 0,
        read_entry(mem, (pdpte & ADDR_MASK) + ((va >> 21) & 0x1FF) * 8) == Some(pde),
        pde & 1 == 1,
        pde & 0x80 != 0,
        va & 0x1F_FFFF == 0,
        x < 0x20_0000,
    ensures
        translate(mem, cr3, va) == pde & 0x000F_FFFF_FFE0_0000,
        translate(mem, cr3, (va + x) as u64) == translate(mem, cr3, va) + x,
{
    let w = (va + x) as u64;
    assert(w == va + x && (w >> 39) & 0x1FF == (va >> 39) & 0x1FF && (w >> 30) & 0x1FF == (va
        >> 30) & 0x1FF && (w >> 21) & 0x1FF == (va >> 21) & 0x1FF && w & 0x1F_FFFF == x && (pde
        & 0x000F_FFFF_FFE0_0000) | (va & 0x1F_FFFF) == pde & 0x000F_FFFF_FFE0_0000 && (pde
        & 0x000F_FFFF_FFE0_0000) | x == (pde & 0x000F_FFFF_FFE0_0000) + x) by (bit_vector)
        requires
            va & 0x1F_FFFF == 0,
            x < 0x20_0000,
            w == (va + x) as u64,
    ;
}

/// A present page-table entry, under present upper entries without the
/// page-size bit, maps a 4 KiB page: the page begins at the entry's address
/// bits, and every address `x` bytes into the page, for any `x` below 4 KiB,
/// translates to that base plus `x`.
pub proof fn lemma_small_page_keeps_offset(
    mem: Seq<u8>,
    cr3: u64,
    va: u64,
    x: u64,
    pml4e: u64,
    pdpte: u64,
    pde: u64,
    pte: u64,
)
    requires
        read_entry(mem, (cr3 & ADDR_MASK) + ((va >> 39) & 0x1FF) * 8) == Some(pml4e),
        pml4e & 1 == 1,
        read_entry(mem, (pml4e & ADDR_MASK) + ((va >> 30) & 0x1FF) * 8) == Some(pdpte),
        pdpte & 1 == 1,
        pdpte & 0x80 == 0,
        read_entry(mem, (pdpte & ADDR_MASK) + ((va >> 21) & 0x1FF) * 8) == Some(pde),
        pde & 1 == 1,
        pde & 0x80 == 0,
        read_entry(mem, (pde & ADDR_MASK) + ((va >> 12) & 0x1FF) * 8) == Some(pte),
        pte & 1 == 1,
        va & 0xFFF == 0,
        x < 0x1000,
    ensures
        translate(mem, cr3, va) == pte & ADDR_MASK,
        translate(mem, cr3, (va + x) as u64) == translate(mem, cr3, va) + x,
{
    let w = (va + x) as u64;
    assert(w == va + x && (w >> 39) & 0x1FF == (va >> 39) & 0x1FF && (w >> 30) & 0x1FF == (va
        >> 30) & 0x1FF && (w >> 21) & 0x1FF == (va >> 21) & 0x1FF && (w >> 12) & 0x1FF == (va >> 12)
        & 0x1FF && w & 0xFFF == x && (pte & ADDR_MASK) | (va & 0xFFF) == pte & ADDR_MASK && (pte
        & ADDR_MASK) | x == (pte & ADDR_MASK) + x) by (bit_vector)
        requires
            va & 0xFFF == 0,
            x < 0x1000,
            w == (va + x) as u64,
    ;
}

/// An address whose PML4 entry is not present is not mapped: it translates
/// to itself.
pub proof fn lemma_unmapped_unchanged(mem: Seq<u8>, cr3: u64, va: u64, pml4e: u64)
    requires
        read_entry(mem, (cr3 & ADDR_MASK) + ((va >> 39) & 0x1FF) * 8) == Some(pml4e),
        pml4e & 1 == 0,
    ensures
        translate(mem, cr3, va) == va,
{
}

/// After `setup_kernel_paging`, with CR3 at the PML4, the first GiB of
/// physical memory is mapped a second time at the top of the address space:
/// `0xFFFFFF8000000000 + x` translates to `x`.
pub proof fn lemma_top_window(mem: Seq<u8>, hal_base: u64, x: u64)
    requires
        in_bounds(mem.len(), PAGING_PBASE as int, PAGING_SIZE as int),
        x < 0x4000_0000,
    ensures
        translate(paged_memory(mem, hal_base), PML4_P, (0xFFFFFF8000000000u64 + x) as u64) == x,
{
    let va = (0xFFFFFF8000000000u64 + x) as u64;
    let j = x >> 21;
    assert((va >> 39) & 0x1FF == 511 && (va >> 30) & 0x1FF == 0 && (va >> 21) & 0x1FF == j && j
        < 512 && (((j * 0x200000) as u64 | 0x83) & 0x000F_FFFF_FFE0_0000) | (va & 0x1F_FFFF) == x)
        by (bit_vector)
        requires
            va == 0xFFFFFF8000000000u64 + x,
            x < 0x4000_0000,
            j == x >> 21,
    ;
    let pml4e = PDPT_HIGH_P | 0x3;
    let pdpte = PD_KERNEL_P | 0x3;
    let pde = (j * 0x200000) as u64 | 0x83;
    assert(PML4_P & ADDR_MASK == PML4_P && pml4e & 1 == 1 && pml4e & ADDR_MASK == PDPT_HIGH_P
        && pdpte & 1 == 1 && pdpte & 0x80 == 0 && pdpte & ADDR_MASK == PD_KERNEL_P && pde & 1 == 1
        && pde & 0x80 != 0) by (bit_vector)
        requires
            pml4e == PDPT_HIGH_P | 0x3,
            pdpte == PD_KERNEL_P | 0x3,
            pde == (j * 0x200000) as u64 | 0x83,
    ;
    lemma_read_slot(mem, hal_base, 0x400int + 511);
    lemma_read_slot(mem, hal_base, 0x600int);
    lemma_read_slot(mem, hal_base, 0x1A00 + j as int);
}

} // verus!
