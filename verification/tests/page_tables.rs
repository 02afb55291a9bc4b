use vwfl::layout::{HAL_PBASE, KUSER_PBASE, KUSER_VBASE, K_VIRT_ANY, STACK_PBASE, STACK_VBASE};
use vwfl::paging::{setup_kernel_paging, virt_to_phys, PAGING_PBASE, PAGING_SIZE, PML4_P};
use vwfl::vm::Vm;

fn paged_vm(hal_base: u64) -> Vm {
    let mut vm = Vm::with_memory_size((PAGING_PBASE + PAGING_SIZE) as usize);
    assert!(setup_kernel_paging(&mut vm, 0xFFFF_F800_0020_0000, hal_base).is_ok());
    vm
}

#[test]
fn kernel_window_maps_low_memory() {
    let vm = paged_vm(0xFFFF_F800_4000_0000);
    assert_eq!(virt_to_phys(&vm, PML4_P, K_VIRT_ANY), 0);
    assert_eq!(virt_to_phys(&vm, PML4_P, K_VIRT_ANY + 0x20_1234), 0x20_1234);
    assert_eq!(virt_to_phys(&vm, PML4_P, K_VIRT_ANY + 0x3FFF_FFFF), 0x3FFF_FFFF);
    // the same gigabyte again through PML4 slot 511
    assert_eq!(virt_to_phys(&vm, PML4_P, 0xFFFF_FF80_0000_1000), 0x1000);
}

#[test]
fn stack_window_maps_the_stack_area() {
    let vm = paged_vm(0xFFFF_F800_4000_0000);
    assert_eq!(virt_to_phys(&vm, PML4_P, STACK_VBASE + 0x10000), STACK_PBASE + 0x10000);
}

#[test]
fn kuser_page_is_mapped() {
    let vm = paged_vm(0xFFFF_F800_4000_0000);
    assert_eq!(virt_to_phys(&vm, PML4_P, KUSER_VBASE + 0x26c), KUSER_PBASE + 0x26c);
}

#[test]
fn hal_pages_follow_its_base() {
    // the HAL's page-directory index is 4 in the second gigabyte
    let hal_base: u64 = K_VIRT_ANY + 0x4000_0000 + 4 * 0x20_0000;
    let vm = paged_vm(hal_base);
    assert_eq!(virt_to_phys(&vm, PML4_P, hal_base), HAL_PBASE);
    assert_eq!(virt_to_phys(&vm, PML4_P, hal_base + 0x20_0000 + 0x10), HAL_PBASE + 0x20_0000 + 0x10);
}

#[test]
fn mmio_pages_are_identity_mapped() {
    let vm = paged_vm(0xFFFF_F800_4000_0000);
    // PDPT slot 3 (third gigabyte above K_VIRT_ANY), PD slots 502..504
    let apic_v = K_VIRT_ANY + 3 * 0x4000_0000 + 504 * 0x20_0000;
    assert_eq!(virt_to_phys(&vm, PML4_P, apic_v + 0x30), 0xFEE0_0030);
    let ioapic_v = K_VIRT_ANY + 3 * 0x4000_0000 + 502 * 0x20_0000;
    assert_eq!(virt_to_phys(&vm, PML4_P, ioapic_v), 0xFEC0_0000);
}

#[test]
fn unmapped_addresses_come_back_unchanged() {
    let vm = paged_vm(0xFFFF_F800_4000_0000);
    assert_eq!(virt_to_phys(&vm, PML4_P, 0x0000_7FF0_0000_0000), 0x0000_7FF0_0000_0000);
}

#[test]
fn page_tables_need_their_area() {
    let mut vm = Vm::with_memory_size(0x1000);
    assert_eq!(setup_kernel_paging(&mut vm, 0, 0), Err("Memory write out of bounds"));
    assert_eq!(virt_to_phys(&vm, PML4_P, K_VIRT_ANY + 5), K_VIRT_ANY + 5);
}
