//! The ACPI tables that the guest firmware would provide: RSDP, XSDT, MADT,
//! FADT, HPET and a minimal DSDT, each with a valid checksum.
use vstd::prelude::*;
use crate::bytes::{
    put, zeroed, zeros, byte_sum, from_le32, from_le64, le16, le32, le64, lemma_le32_roundtrip,
    lemma_le64_roundtrip, sums_to_zero, u16_le, u32_le, u64_le, wrapping_byte_sum,
};
use crate::paging::{lemma_mmio_pages, paged_memory, translate, PAGING_PBASE, PAGING_SIZE, PML4_P};
use crate::vm::{write_refused, spec_write, in_bounds, Vm};

verus! {

/// The byte that makes a table whose other bytes sum to `sum` sum to zero
/// modulo 256.
pub open spec fn checksum_byte(sum: nat) -> u8 {
    ((256 - sum % 256) % 256) as u8
}

/// OEM identifier written into every table header.
pub open spec fn oem_id() -> Seq<u8> {
    seq![0x49u8, 0x4E, 0x54, 0x45, 0x4C, 0x20]
}

/// OEM table identifier written into every table header.
pub open spec fn oem_table_id() -> Seq<u8> {
    seq![0x44u8, 0x45, 0x4C, 0x4C, 0x20, 0x20, 0x20, 0x20]
}

/// `data` with the common table header written over its first 24 bytes:
/// signature, length, revision, OEM id and OEM table id; byte 9, the checksum,
/// is left as it was.
pub open spec fn spec_header(data: Seq<u8>, sig: Seq<u8>, len: u32, rev: u8) -> Seq<u8> {
    spec_write(
        spec_write(
            spec_write(spec_write(spec_write(data, 0, sig), 4, le32(len)), 8, seq![rev]),
            10,
            oem_id(),
        ),
        16,
        oem_table_id(),
    )
}

/// `data` with byte 9 set so that the whole of `data` sums to zero.
pub open spec fn with_checksum(data: Seq<u8>) -> Seq<u8> {
    data.update(9, checksum_byte(byte_sum(data.update(9, 0))))
}

/// The DSDT: a bare header.
pub open spec fn dsdt_table() -> Seq<u8> {
    with_checksum(spec_header(zeros(36), seq![0x44u8, 0x53, 0x44, 0x54], 36, 1))
}

/// The MADT entries that follow its fixed part: a local APIC, an I/O APIC at
/// 0xFEC00000, an override of ISA IRQ 0 to GSI 2 and a local APIC NMI on LINT1.
pub open spec fn madt_entries() -> Seq<u8> {
    seq![0u8, 8, 0, 0, 1, 0, 0, 0] + seq![1u8, 12, 1, 0, 0, 0, 0, 0, 0x00, 0x00, 0xC0, 0xFE]
        + seq![2u8, 10, 0, 0, 2, 0, 0, 0, 0x05, 0x00] + seq![4u8, 6, 0xFF, 0x05, 0x00, 1]
}

/// The MADT: local APIC base 0xFEE00000, PC-AT compatible, then its entries.
pub open spec fn madt_table() -> Seq<u8> {
    with_checksum(
        spec_write(
            spec_write(
                spec_header(zeros(44), seq![0x41u8, 0x50, 0x49, 0x43], 80, 2),
                36,
                le32(0xFEE00000),
            ),
            40,
            le32(1),
        ) + madt_entries(),
    )
}

/// The FADT, pointing at the DSDT at virtual address `dsdt_v`.
pub open spec fn fadt_table(dsdt_v: u64) -> Seq<u8> {
    let h = spec_header(zeros(276), seq![0x46u8, 0x41, 0x43, 0x50], 276, 3);
    let a = spec_write(spec_write(h, 40, le32(dsdt_v as u32)), 45, seq![1u8]);
    let b = spec_write(spec_write(a, 76, le32(0x408)), 91, seq![4u8]);
    let c = spec_write(spec_write(b, 109, le16(3)), 112, le32(0x100));
    let d = spec_write(c, 140, le64(dsdt_v));
    let e = spec_write(d, 208, seq![1u8, 32, 0, 3]);
    with_checksum(spec_write(e, 212, le64(0x408)))
}

/// The HPET table: event timer block at 0xFED00000.
pub open spec fn hpet_table() -> Seq<u8> {
    let h = spec_header(zeros(56), seq![0x48u8, 0x50, 0x45, 0x54], 56, 1);
    let a = spec_write(spec_write(h, 36, le32(0x8086a201)), 40, seq![0u8, 64, 0, 0]);
    let b = spec_write(spec_write(a, 44, le64(0xFED00000)), 52, seq![0u8]);
    with_checksum(spec_write(b, 53, le16(0x0080)))
}

/// The XSDT, listing the FADT, the MADT and the HPET table.
pub open spec fn xsdt_table(fadt_v: u64, madt_v: u64, hpet_v: u64) -> Seq<u8> {
    let h = spec_header(zeros(60), seq![0x58u8, 0x53, 0x44, 0x54], 60, 1);
    with_checksum(spec_write(spec_write(spec_write(h, 36, le64(fadt_v)), 44, le64(madt_v)), 52, le64(hpet_v)))
}

/// The RSDP before its two checksums are filled in.
pub open spec fn rsdp_unsummed(xsdt_v: u64) -> Seq<u8> {
    let a = spec_write(zeros(36), 0, seq![0x52u8, 0x53, 0x44, 0x20, 0x50, 0x54, 0x52, 0x20]);
    let b = spec_write(spec_write(a, 10, seq![0x56u8, 0x57, 0x46, 0x4C, 0x20, 0x20]), 15, seq![2u8]);
    spec_write(spec_write(b, 20, le32(36)), 24, le64(xsdt_v))
}

/// The RSDP (revision 2) pointing at the XSDT at `xsdt_v`: byte 8 makes the
/// first 20 bytes sum to zero, byte 32 makes all 36 bytes sum to zero.
pub open spec fn rsdp_table(xsdt_v: u64) -> Seq<u8> {
    let r0 = rsdp_unsummed(xsdt_v);
    let r1 = r0.update(8, checksum_byte(byte_sum(r0.subrange(0, 20))));
    r1.update(32, checksum_byte(byte_sum(r1)))
}

/// Guest memory after `setup` has written all tables: the layout starting at
/// physical `p` and virtual `v` is RSDP +0, XSDT +0x100, MADT +0x200,
/// FADT +0x300, HPET +0x450, DSDT +0x500.
pub open spec fn acpi_image(mem: Seq<u8>, p: int, v: u64) -> Seq<u8> {
    let m1 = spec_write(mem, p + 0x500, dsdt_table());
    let m2 = spec_write(m1, p + 0x200, madt_table());
    let m3 = spec_write(m2, p + 0x300, fadt_table((v + 0x500) as u64));
    let m4 = spec_write(m3, p + 0x450, hpet_table());
    let m5 = spec_write(
        m4,
        p + 0x100,
        xsdt_table((v + 0x300) as u64, (v + 0x200) as u64, (v + 0x450) as u64),
    );
    spec_write(m5, p, rsdp_table((v + 0x100) as u64))
}

/// Changing one byte changes the sum by the difference of the two values.
pub proof fn lemma_byte_sum_update(s: Seq<u8>, i: int, x: u8)
    requires
        0 <= i < s.len(),
    ensures
        byte_sum(s.update(i, x)) + s[i] == byte_sum(s) + x,
    decreases s.len(),
{
    if i == s.len() - 1 {
        assert(s.update(i, x).drop_last() =~= s.drop_last());
    } else {
        lemma_byte_sum_update(s.drop_last(), i, x);
        assert(s.update(i, x).drop_last() =~= s.drop_last().update(i, x));
    }
}

/// Setting a byte that was zero to the checksum of the rest makes the whole
/// sequence sum to zero.
pub proof fn lemma_checksum_zeroes_sum(s: Seq<u8>, i: int)
    requires
        0 <= i < s.len(),
        s[i] == 0,
    ensures
        sums_to_zero(s.update(i, checksum_byte(byte_sum(s)))),
{
    lemma_byte_sum_update(s, i, checksum_byte(byte_sum(s)));
}

/// Every table with a header checksum sums to zero once the checksum is set.
pub proof fn lemma_with_checksum_sums_to_zero(data: Seq<u8>)
    requires
        data.len() > 9,
    ensures
        sums_to_zero(with_checksum(data)),
        with_checksum(data).len() == data.len(),
{
    let d0 = data.update(9, 0);
    lemma_checksum_zeroes_sum(d0, 9);
    assert(d0.update(9, checksum_byte(byte_sum(d0))) =~= with_checksum(data));
}

/// The RSDP's 20-byte prefix and all its 36 bytes each sum to zero.
pub proof fn lemma_rsdp_checksums(xsdt_v: u64)
    ensures
        rsdp_table(xsdt_v).len() == 36,
        sums_to_zero(rsdp_table(xsdt_v).subrange(0, 20)),
        sums_to_zero(rsdp_table(xsdt_v)),
{
    let r0 = rsdp_unsummed(xsdt_v);
    let p0 = r0.subrange(0, 20);
    assert(p0[8] == 0);
    lemma_checksum_zeroes_sum(p0, 8);
    let r1 = r0.update(8, checksum_byte(byte_sum(p0)));
    assert(r1.subrange(0, 20) =~= p0.update(8, checksum_byte(byte_sum(p0))));
    assert(r1[32] == 0);
    lemma_checksum_zeroes_sum(r1, 32);
    let r2 = rsdp_table(xsdt_v);
    assert(r2.subrange(0, 20) =~= r1.subrange(0, 20));
}

/// Every table that `setup` writes sums to zero, as ACPI demands, and its
/// length is the length its header states.
pub proof fn lemma_tables_valid(base_vaddr: u64)
    ensures
        sums_to_zero(dsdt_table()),
        dsdt_table().len() == 36,
        sums_to_zero(madt_table()),
        madt_table().len() == 80,
        sums_to_zero(fadt_table(base_vaddr)),
        fadt_table(base_vaddr).len() == 276,
        sums_to_zero(hpet_table()),
        hpet_table().len() == 56,
        sums_to_zero(xsdt_table(base_vaddr, base_vaddr, base_vaddr)),
        xsdt_table(base_vaddr, base_vaddr, base_vaddr).len() == 60,
{
    lemma_with_checksum_sums_to_zero(spec_header(zeros(36), seq![0x44u8, 0x53, 0x44, 0x54], 36, 1));
    let m = spec_write(
        spec_write(
            spec_header(zeros(44), seq![0x41u8, 0x50, 0x49, 0x43], 80, 2),
            36,
            le32(0xFEE00000),
        ),
        40,
        le32(1),
    ) + madt_entries();
    lemma_with_checksum_sums_to_zero(m);
    let v = base_vaddr;
    let h = spec_header(zeros(276), seq![0x46u8, 0x41, 0x43, 0x50], 276, 3);
    let a = spec_write(spec_write(h, 40, le32(v as u32)), 45, seq![1u8]);
    let b = spec_write(spec_write(a, 76, le32(0x408)), 91, seq![4u8]);
    let c = spec_write(spec_write(b, 109, le16(3)), 112, le32(0x100));
    let d = spec_write(c, 140, le64(v));
    let e = spec_write(d, 208, seq![1u8, 32, 0, 3]);
    lemma_with_checksum_sums_to_zero(spec_write(e, 212, le64(0x408)));
    let hh = spec_header(zeros(56), seq![0x48u8, 0x50, 0x45, 0x54], 56, 1);
    let ha = spec_write(spec_write(hh, 36, le32(0x8086a201)), 40, seq![0u8, 64, 0, 0]);
    let hb = spec_write(spec_write(ha, 44, le64(0xFED00000)), 52, seq![0u8]);
    lemma_with_checksum_sums_to_zero(spec_write(hb, 53, le16(0x0080)));
    let xh = spec_header(zeros(60), seq![0x58u8, 0x53, 0x44, 0x54], 60, 1);
    lemma_with_checksum_sums_to_zero(spec_write(spec_write(spec_write(xh, 36, le64(v)), 44, le64(v)), 52, le64(v)));
}

/// Writes the common header of an ACPI table: signature, length, revision,
/// OEM id "INTEL " and OEM table id "DELL    ".
pub fn write_header(data: &mut [u8], sig: &[u8; 4], len: u32, rev: u8)
    requires
        old(data)@.len() >= 24,
    ensures
        final(data)@ == spec_header(old(data)@, sig@, len, rev),
{
    put(data, 0, sig);
    put(data, 4, &u32_le(len));
    data[8] = rev;
    proof {
        assert(data@ =~= spec_write(spec_write(spec_write(old(data)@, 0, sig@), 4, le32(len)), 8, seq![rev]));
    }
    put(data, 10, &[0x49u8, 0x4E, 0x54, 0x45, 0x4C, 0x20]);
    put(data, 16, &[0x44u8, 0x45, 0x4C, 0x4C, 0x20, 0x20, 0x20, 0x20]);
    proof {
        assert(data@ =~= spec_header(old(data)@, sig@, len, rev));
    }
}

/// Sets byte 9 of a table so that all its bytes sum to zero.
pub fn update_checksum(data: &mut [u8])
    requires
        old(data)@.len() > 9,
    ensures
        final(data)@ == with_checksum(old(data)@),
        sums_to_zero(final(data)@),
{
    data[9] = 0;
    let sum = wrapping_byte_sum(data);
    data[9] = 0u8.wrapping_sub(sum);
    proof {
        lemma_with_checksum_sums_to_zero(old(data)@);
    }
}

/// Builds the DSDT.
fn build_dsdt() -> (t: Vec<u8>)
    ensures
        t@ == dsdt_table(),
{
    let mut t = zeroed(36);
    write_header(t.as_mut_slice(), &[0x44u8, 0x53, 0x44, 0x54], 36, 1);
    update_checksum(t.as_mut_slice());
    t
}

/// Builds the MADT.
fn build_madt() -> (t: Vec<u8>)
    ensures
        t@ == madt_table(),
{
    let mut t = zeroed(44);
    write_header(t.as_mut_slice(), &[0x41u8, 0x50, 0x49, 0x43], 80, 2);
    put(t.as_mut_slice(), 36, &u32_le(0xFEE00000));
    put(t.as_mut_slice(), 40, &u32_le(1));
    let ghost fixed = t@;
    let lapic_entry: [u8; 8] = [0, 8, 0, 0, 1, 0, 0, 0];
    t.extend_from_slice(&lapic_entry);
    let ioapic_entry: [u8; 12] = [1, 12, 1, 0, 0, 0, 0, 0, 0x00, 0x00, 0xC0, 0xFE];
    t.extend_from_slice(&ioapic_entry);
    let iso_entry: [u8; 10] = [2, 10, 0, 0, 2, 0, 0, 0, 0x05, 0x00];
    t.extend_from_slice(&iso_entry);
    let nmi_entry: [u8; 6] = [4, 6, 0xFF, 0x05, 0x00, 1];
    t.extend_from_slice(&nmi_entry);
    assert(t@ =~= fixed + madt_entries());
    update_checksum(t.as_mut_slice());
    t
}

/// Builds the FADT for a DSDT at virtual address `dsdt_v`.
fn build_fadt(dsdt_v: u64) -> (t: Vec<u8>)
    ensures
        t@ == fadt_table(dsdt_v),
{
    let b1: [u8; 1] = [1u8];
    let b4: [u8; 1] = [4u8];
    let tail: [u8; 4] = [1u8, 32, 0, 3];
    assert(b1@ =~= seq![1u8]);
    assert(b4@ =~= seq![4u8]);
    assert(tail@ =~= seq![1u8, 32, 0, 3]);
    let mut t = zeroed(276);
    write_header(t.as_mut_slice(), &[0x46u8, 0x41, 0x43, 0x50], 276, 3);
    put(t.as_mut_slice(), 40, &u32_le(#[verifier::truncate] (dsdt_v as u32)));
    put(t.as_mut_slice(), 45, &b1);
    put(t.as_mut_slice(), 76, &u32_le(0x408));
    put(t.as_mut_slice(), 91, &b4);
    put(t.as_mut_slice(), 109, &u16_le(3));
    put(t.as_mut_slice(), 112, &u32_le(0x100));
    put(t.as_mut_slice(), 140, &u64_le(dsdt_v));
    put(t.as_mut_slice(), 208, &tail);
    put(t.as_mut_slice(), 212, &u64_le(0x408));
    update_checksum(t.as_mut_slice());
    t
}

/// Builds the HPET table.
fn build_hpet() -> (t: Vec<u8>)
    ensures
        t@ == hpet_table(),
{
    let caps: [u8; 4] = [0u8, 64, 0, 0];
    let zero: [u8; 1] = [0u8];
    assert(caps@ =~= seq![0u8, 64, 0, 0]);
    assert(zero@ =~= seq![0u8]);
    let mut t = zeroed(56);
    write_header(t.as_mut_slice(), &[0x48u8, 0x50, 0x45, 0x54], 56, 1);
    put(t.as_mut_slice(), 36, &u32_le(0x8086a201));
    put(t.as_mut_slice(), 40, &caps);
    put(t.as_mut_slice(), 44, &u64_le(0xFED00000));
    put(t.as_mut_slice(), 52, &zero);
    put(t.as_mut_slice(), 53, &u16_le(0x0080));
    update_checksum(t.as_mut_slice());
    t
}

/// Builds the XSDT listing the three tables at the given virtual addresses.
fn build_xsdt(fadt_v: u64, madt_v: u64, hpet_v: u64) -> (t: Vec<u8>)
    ensures
        t@ == xsdt_table(fadt_v, madt_v, hpet_v),
{
    let mut t = zeroed(60);
    write_header(t.as_mut_slice(), &[0x58u8, 0x53, 0x44, 0x54], 60, 1);
    put(t.as_mut_slice(), 36, &u64_le(fadt_v));
    put(t.as_mut_slice(), 44, &u64_le(madt_v));
    put(t.as_mut_slice(), 52, &u64_le(hpet_v));
    update_checksum(t.as_mut_slice());
    t
}

/// Builds the RSDP pointing at the XSDT at `xsdt_v`.
fn build_rsdp(xsdt_v: u64) -> (t: Vec<u8>)
    ensures
        t@ == rsdp_table(xsdt_v),
{
    let sig: [u8; 8] = [0x52u8, 0x53, 0x44, 0x20, 0x50, 0x54, 0x52, 0x20];
    let oem: [u8; 6] = [0x56u8, 0x57, 0x46, 0x4C, 0x20, 0x20];
    let rev: [u8; 1] = [2u8];
    assert(sig@ =~= seq![0x52u8, 0x53, 0x44, 0x20, 0x50, 0x54, 0x52, 0x20]);
    assert(oem@ =~= seq![0x56u8, 0x57, 0x46, 0x4C, 0x20, 0x20]);
    assert(rev@ =~= seq![2u8]);
    let mut t = zeroed(36);
    put(t.as_mut_slice(), 0, &sig);
    put(t.as_mut_slice(), 10, &oem);
    put(t.as_mut_slice(), 15, &rev);
    put(t.as_mut_slice(), 20, &u32_le(36));
    put(t.as_mut_slice(), 24, &u64_le(xsdt_v));
    let ghost r0 = t@;
    assert(r0 == rsdp_unsummed(xsdt_v));
    let prefix = t.as_slice().split_at(20).0;
    assert(prefix@ =~= r0.subrange(0, 20));
    let sum1 = wrapping_byte_sum(prefix);
    t.set(8, 0u8.wrapping_sub(sum1));
    let ghost r1 = t@;
    assert(r1 == r0.update(8, checksum_byte(byte_sum(r0.subrange(0, 20)))));
    let sum2 = wrapping_byte_sum(t.as_slice());
    t.set(32, 0u8.wrapping_sub(sum2));
    assert(t@ == r1.update(32, checksum_byte(byte_sum(r1))));
    t
}

/// Writes the ACPI tables into guest memory at physical `base_paddr`, laid
/// out for the guest at virtual `base_vaddr`, and returns the virtual address
/// of the RSDP. Fails, writing nothing, when the tables do not fit in memory.
pub fn setup(vm: &mut Vm, base_paddr: u64, base_vaddr: u64) -> (r: Result<u64, &'static str>)
    requires
        base_paddr + 0x500 <= u64::MAX,
        base_vaddr + 0x500 <= u64::MAX,
    ensures
        in_bounds(old(vm)@.len(), base_paddr + 0x500, 36) ==> r == Ok::<u64, &'static str>(
            base_vaddr,
        ) && final(vm)@ == acpi_image(old(vm)@, base_paddr as int, base_vaddr),
        !in_bounds(old(vm)@.len(), base_paddr + 0x500, 36) ==> write_refused(r) && final(vm)@ == old(vm)@,
{
    let rsdp_p = base_paddr;
    let xsdt_p = base_paddr + 0x100;
    let madt_p = base_paddr + 0x200;
    let fadt_p = base_paddr + 0x300;
    let hpet_p = base_paddr + 0x450;
    let dsdt_p = base_paddr + 0x500;

    let rsdp_v = base_vaddr;
    let xsdt_v = base_vaddr + 0x100;
    let madt_v = base_vaddr + 0x200;
    let fadt_v = base_vaddr + 0x300;
    let hpet_v = base_vaddr + 0x450;
    let dsdt_v = base_vaddr + 0x500;

    let dsdt = build_dsdt();
    vm.write_memory_at(dsdt_p, dsdt.as_slice())?;
    let madt = build_madt();
    vm.write_memory_at(madt_p, madt.as_slice())?;
    let fadt = build_fadt(dsdt_v);
    vm.write_memory_at(fadt_p, fadt.as_slice())?;
    let hpet = build_hpet();
    vm.write_memory_at(hpet_p, hpet.as_slice())?;
    let xsdt = build_xsdt(fadt_v, madt_v, hpet_v);
    vm.write_memory_at(xsdt_p, xsdt.as_slice())?;
    let rsdp = build_rsdp(xsdt_v);
    vm.write_memory_at(rsdp_p, rsdp.as_slice())?;
    Ok(rsdp_v)
}

/// The MADT's interrupt controllers: at offset 36 the local APIC's base,
/// 0xFEE00000; at offset 44 the processor's local APIC structure (type 0,
/// length 8, enabled); at offset 52 the I/O APIC structure, of type 1,
/// length 12 and ID 1, whose four bytes at offset 56 are zero and whose last
/// four bytes, at offset 60, hold 0xFEC00000, the I/O APIC's registers; at
/// offset 64 the override of ISA IRQ 0 to global interrupt 2 (type 2, length
/// 10, flags 5); at offset 74 the NMI of every processor on LINT1 (type 4,
/// length 6, flags 5).
pub proof fn lemma_madt_controllers()
    ensures
        madt_table().len() == 80,
        madt_table()[44] == 0,
        madt_table()[45] == 8,
        madt_table()[48] == 1,
        madt_table()[52] == 1,
        madt_table()[53] == 12,
        madt_table()[54] == 1,
        madt_table()[64] == 2,
        madt_table()[65] == 10,
        madt_table()[66] == 0,
        madt_table()[67] == 0,
        madt_table().subrange(68, 72) == seq![2u8, 0, 0, 0],
        madt_table()[72] == 5,
        madt_table()[73] == 0,
        madt_table()[74] == 4,
        madt_table()[75] == 6,
        madt_table()[76] == 0xFF,
        madt_table()[77] == 5,
        madt_table()[78] == 0,
        madt_table()[79] == 1,
        from_le32(madt_table().subrange(36, 40)) == 0xFEE00000,
        from_le32(madt_table().subrange(56, 60)) == 0,
        from_le32(madt_table().subrange(60, 64)) == 0xFEC00000,
{
    let fixed = spec_write(
        spec_write(
            spec_header(zeros(44), seq![0x41u8, 0x50, 0x49, 0x43], 80, 2),
            36,
            le32(0xFEE00000),
        ),
        40,
        le32(1),
    );
    let whole = fixed + madt_entries();
    lemma_with_checksum_sums_to_zero(whole);
    let t = madt_table();
    assert(t == whole.update(9, t[9]));
    assert((0xFEE00000u32 as u8) == 0u8 && ((0xFEE00000u32 >> 8u32) as u8) == 0u8 && ((0xFEE00000u32
        >> 16u32) as u8) == 0xE0u8 && ((0xFEE00000u32 >> 24u32) as u8) == 0xFEu8 && (0xFEC00000u32
        as u8) == 0u8 && ((0xFEC00000u32 >> 8u32) as u8) == 0u8 && ((0xFEC00000u32 >> 16u32) as u8)
        == 0xC0u8 && ((0xFEC00000u32 >> 24u32) as u8) == 0xFEu8 && (0u32 as u8) == 0u8 && ((0u32
        >> 8u32) as u8) == 0u8 && ((0u32 >> 16u32) as u8) == 0u8 && ((0u32 >> 24u32) as u8) == 0u8)
        by (bit_vector);
    assert(t.subrange(36, 40) =~= le32(0xFEE00000));
    assert(t.subrange(56, 60) =~= le32(0));
    assert(t.subrange(60, 64) =~= le32(0xFEC00000));
    assert(t.subrange(68, 72) =~= seq![2u8, 0, 0, 0]);
    lemma_le32_roundtrip(0xFEE00000);
    lemma_le32_roundtrip(0);
    lemma_le32_roundtrip(0xFEC00000);
}

/// Every table that `setup` writes states its own length in its header: the
/// 32-bit value at offset 4 is the number of bytes of the table.
pub proof fn lemma_headers_state_lengths(dsdt_v: u64, fadt_v: u64, madt_v: u64, hpet_v: u64)
    ensures
        from_le32(dsdt_table().subrange(4, 8)) == dsdt_table().len(),
        from_le32(madt_table().subrange(4, 8)) == madt_table().len(),
        from_le32(fadt_table(dsdt_v).subrange(4, 8)) == fadt_table(dsdt_v).len(),
        from_le32(hpet_table().subrange(4, 8)) == hpet_table().len(),
        from_le32(xsdt_table(fadt_v, madt_v, hpet_v).subrange(4, 8)) == xsdt_table(
            fadt_v,
            madt_v,
            hpet_v,
        ).len(),
{
    lemma_tables_valid(dsdt_v);
    lemma_with_checksum_sums_to_zero(
        spec_write(
            spec_write(
                spec_write(
                    spec_header(zeros(60), seq![0x58u8, 0x53, 0x44, 0x54], 60, 1),
                    36,
                    le64(fadt_v),
                ),
                44,
                le64(madt_v),
            ),
            52,
            le64(hpet_v),
        ),
    );
    assert(dsdt_table().subrange(4, 8) =~= le32(36));
    assert(madt_table().subrange(4, 8) =~= le32(80));
    assert(fadt_table(dsdt_v).subrange(4, 8) =~= le32(276));
    assert(hpet_table().subrange(4, 8) =~= le32(56));
    assert(xsdt_table(fadt_v, madt_v, hpet_v).subrange(4, 8) =~= le32(60));
    lemma_le32_roundtrip(36);
    lemma_le32_roundtrip(80);
    lemma_le32_roundtrip(276);
    lemma_le32_roundtrip(56);
    lemma_le32_roundtrip(60);
}

/// After `setup`, the 80 bytes at 0x200 past the tables' physical base are
/// the MADT: no later table is written over it. So the I/O APIC structure
/// there, at MADT offset 52, announces the I/O APIC at 0xFEC00000.
pub proof fn lemma_setup_keeps_madt(mem: Seq<u8>, p: int, v: u64)
    requires
        0 <= p,
        in_bounds(mem.len(), p + 0x500, 36),
    ensures
        acpi_image(mem, p, v).subrange(p + 0x200, p + 0x250) == madt_table(),
        acpi_image(mem, p, v)[p + 0x200 + 52] == 1,
        acpi_image(mem, p, v)[p + 0x200 + 53] == 12,
        from_le32(acpi_image(mem, p, v).subrange(p + 0x200 + 60, p + 0x200 + 64)) == 0xFEC00000,
{
    let m1 = spec_write(mem, p + 0x500, dsdt_table());
    let m2 = spec_write(m1, p + 0x200, madt_table());
    let m3 = spec_write(m2, p + 0x300, fadt_table((v + 0x500) as u64));
    let m4 = spec_write(m3, p + 0x450, hpet_table());
    let x = xsdt_table((v + 0x300) as u64, (v + 0x200) as u64, (v + 0x450) as u64);
    let m5 = spec_write(m4, p + 0x100, x);
    let r = rsdp_table((v + 0x100) as u64);
    let m6 = spec_write(m5, p, r);
    lemma_tables_valid(v);
    lemma_rsdp_checksums((v + 0x100) as u64);
    lemma_with_checksum_sums_to_zero(
        spec_write(
            spec_write(
                spec_write(
                    spec_header(zeros(60), seq![0x58u8, 0x53, 0x44, 0x54], 60, 1),
                    36,
                    le64((v + 0x300) as u64),
                ),
                44,
                le64((v + 0x200) as u64),
            ),
            52,
            le64((v + 0x450) as u64),
        ),
    );
    assert(x.len() == 60);
    assert(m2.subrange(p + 0x200, p + 0x250) =~= madt_table());
    assert(m3.subrange(p + 0x200, p + 0x250) =~= madt_table());
    assert(m4.subrange(p + 0x200, p + 0x250) =~= madt_table());
    assert(m5.subrange(p + 0x200, p + 0x250) =~= madt_table());
    assert(m6.subrange(p + 0x200, p + 0x250) =~= madt_table());
    lemma_madt_controllers();
    assert(m6.subrange(p + 0x200 + 60, p + 0x200 + 64) =~= madt_table().subrange(60, 64));
}

/// The HPET table places the event timer block at 0xFED00000: the 64-bit
/// address at offset 44 of the table.
pub proof fn lemma_hpet_timer_block()
    ensures
        from_le64(hpet_table().subrange(44, 52)) == 0xFED00000,
{
    lemma_tables_valid(0);
    assert(hpet_table().subrange(44, 52) =~= le64(0xFED00000));
    lemma_le64_roundtrip(0xFED00000);
}

/// The ACPI tables and the kernel's page tables agree on the interrupt
/// controllers and the timer: the physical page behind the kernel's I/O APIC
/// window (`K_VIRT_ANY + 3 GiB + 502 * 2 MiB`) is the I/O APIC address of the
/// MADT, the page behind its local APIC window (directory slot 504) is the
/// MADT's local APIC base, and the page 1 MiB above the I/O APIC window is
/// the HPET table's event timer block, each offset by offset.
pub proof fn lemma_tables_match_page_tables(mem: Seq<u8>, hal_base: u64, x: u64)
    requires
        in_bounds(mem.len(), PAGING_PBASE as int, PAGING_SIZE as int),
        x < 0x1000,
    ensures
        translate(paged_memory(mem, hal_base), PML4_P, (0xFFFFF800FEC00000u64 + x) as u64)
            == from_le32(madt_table().subrange(60, 64)) + x,
        translate(paged_memory(mem, hal_base), PML4_P, (0xFFFFF800FF000000u64 + x) as u64)
            == from_le32(madt_table().subrange(36, 40)) + x,
        translate(paged_memory(mem, hal_base), PML4_P, (0xFFFFF800FED00000u64 + x) as u64)
            == from_le64(hpet_table().subrange(44, 52)) + x,
{
    lemma_mmio_pages(mem, hal_base, x);
    lemma_madt_controllers();
    lemma_hpet_timer_block();
}

} // verus!
