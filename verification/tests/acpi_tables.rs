use vwfl::acpi::{setup, update_checksum, write_header};
use vwfl::vm::Vm;

fn read(vm: &Vm, at: usize, len: usize) -> Vec<u8> {
    let mut buf = vec![0u8; len];
    assert!(vm.read_memory(at, &mut buf).is_ok());
    buf
}

fn sum(bytes: &[u8]) -> u8 {
    bytes.iter().fold(0u8, |a, &b| a.wrapping_add(b))
}

fn u32_at(b: &[u8], at: usize) -> u32 {
    u32::from_le_bytes(b[at..at + 4].try_into().unwrap())
}

fn u64_at(b: &[u8], at: usize) -> u64 {
    u64::from_le_bytes(b[at..at + 8].try_into().unwrap())
}

#[test]
fn header_fields_are_written() {
    let mut t = vec![0xAAu8; 30];
    write_header(&mut t, b"TEST", 0x1234, 7);
    assert_eq!(&t[0..4], b"TEST");
    assert_eq!(u32_at(&t, 4), 0x1234);
    assert_eq!(t[8], 7);
    assert_eq!(t[9], 0xAA);
    assert_eq!(&t[10..16], b"INTEL ");
    assert_eq!(&t[16..24], b"DELL    ");
    assert_eq!(&t[24..30], &[0xAAu8; 6]);
}

#[test]
fn checksum_makes_the_table_sum_to_zero() {
    let mut t = vec![1u8, 2, 3, 4, 5, 6, 7, 8, 9, 77, 11];
    update_checksum(&mut t);
    assert_eq!(sum(&t), 0);
    // 1 + ... + 9 + 11 = 56, so byte 9 is 256 - 56
    assert_eq!(t[9], 200);
}

#[test]
fn setup_returns_the_rsdp_address() {
    let mut vm = Vm::with_memory_size(0x1000);
    assert_eq!(setup(&mut vm, 0, 0xFFFF_8000_0000_0000), Ok(0xFFFF_8000_0000_0000));
}

#[test]
fn every_table_sums_to_zero() {
    let mut vm = Vm::with_memory_size(0x2000);
    let base_v: u64 = 0xFFFF_F800_0500_0000;
    assert!(setup(&mut vm, 0x100, base_v).is_ok());
    let rsdp = read(&vm, 0x100, 36);
    assert_eq!(&rsdp[0..8], b"RSD PTR ");
    assert_eq!(sum(&rsdp[0..20]), 0);
    assert_eq!(sum(&rsdp), 0);
    assert_eq!(rsdp[15], 2);
    assert_eq!(u32_at(&rsdp, 20), 36);
    assert_eq!(u64_at(&rsdp, 24), base_v + 0x100);
    let xsdt = read(&vm, 0x200, 60);
    assert_eq!(&xsdt[0..4], b"XSDT");
    assert_eq!(sum(&xsdt), 0);
    assert_eq!(u64_at(&xsdt, 36), base_v + 0x300);
    assert_eq!(u64_at(&xsdt, 44), base_v + 0x200);
    assert_eq!(u64_at(&xsdt, 52), base_v + 0x450);
    let madt = read(&vm, 0x300, 80);
    assert_eq!(&madt[0..4], b"APIC");
    assert_eq!(u32_at(&madt, 4), 80);
    assert_eq!(sum(&madt), 0);
    assert_eq!(u32_at(&madt, 36), 0xFEE00000);
    assert_eq!(&madt[44..52], &[0u8, 8, 0, 0, 1, 0, 0, 0]);
    let fadt = read(&vm, 0x400, 276);
    assert_eq!(&fadt[0..4], b"FACP");
    assert_eq!(sum(&fadt), 0);
    assert_eq!(u32_at(&fadt, 40), (base_v + 0x500) as u32);
    assert_eq!(u64_at(&fadt, 140), base_v + 0x500);
    let hpet = read(&vm, 0x550, 56);
    assert_eq!(&hpet[0..4], b"HPET");
    assert_eq!(sum(&hpet), 0);
    assert_eq!(u64_at(&hpet, 44), 0xFED00000);
    let dsdt = read(&vm, 0x600, 36);
    assert_eq!(&dsdt[0..4], b"DSDT");
    assert_eq!(sum(&dsdt), 0);
}

#[test]
fn setup_in_too_small_memory_writes_nothing() {
    let mut vm = Vm::with_memory_size(0x520);
    assert_eq!(setup(&mut vm, 0, 0x1000), Err("Memory write out of bounds"));
    assert_eq!(read(&vm, 0, 0x520), vec![0u8; 0x520]);
}
