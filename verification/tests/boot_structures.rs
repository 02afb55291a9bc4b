use vwfl::boot::{
    init_kuser_shared_data, is_hal_extension, link_hal_extensions, link_module_lists, load_apiset, load_system_hive,
    select_hal_extensions, setup_memory_descriptors, write_boot_gdt, APISET_PBASE, APISET_VBASE, HIVE_PBASE,
};
use vwfl::layout::{KUSER_PBASE, LPB_PBASE, LPB_VBASE, SYSTEM_BASE};
use vwfl::nls::write_nls_data;
use vwfl::vm::{Vm, MEM_SIZE};

fn read(vm: &Vm, at: u64, len: usize) -> Vec<u8> {
    let mut buf = vec![0u8; len];
    assert!(vm.read_memory_at(at, &mut buf).is_ok());
    buf
}

fn u64_at(vm: &Vm, at: u64) -> u64 {
    u64::from_le_bytes(read(vm, at, 8).try_into().unwrap())
}

fn u32_at(vm: &Vm, at: u64) -> u32 {
    u32::from_le_bytes(read(vm, at, 4).try_into().unwrap())
}

#[test]
fn kuser_shared_data_carries_the_version() {
    let mut vm = Vm::with_memory_size((KUSER_PBASE + 0x1000) as usize);
    init_kuser_shared_data(&mut vm);
    assert_eq!(u32_at(&vm, KUSER_PBASE + 0x26c), 19041);
    assert_eq!(u32_at(&vm, KUSER_PBASE + 0x270), 10);
    assert_eq!(u32_at(&vm, KUSER_PBASE), 0);
}

#[test]
fn kuser_shared_data_is_skipped_when_it_does_not_fit() {
    let mut vm = Vm::with_memory_size(0x1000);
    init_kuser_shared_data(&mut vm);
    assert_eq!(read(&vm, 0, 0x1000), vec![0u8; 0x1000]);
}

#[test]
fn boot_gdt_holds_segments_and_tss() {
    let mut vm = Vm::with_memory_size((SYSTEM_BASE + 0x2000) as usize);
    let gdt_v: u64 = 0xFFFF_F800_0800_0000;
    assert!(write_boot_gdt(&mut vm, gdt_v).is_ok());
    assert_eq!(u64_at(&vm, SYSTEM_BASE), 0);
    assert_eq!(u64_at(&vm, SYSTEM_BASE + 0x10), 0x00AF9A000000FFFF);
    assert_eq!(u64_at(&vm, SYSTEM_BASE + 0x18), 0x00CF92000000FFFF);
    assert_eq!(u64_at(&vm, SYSTEM_BASE + 0x20), 0x00AFFA000000FFFF);
    assert_eq!(u64_at(&vm, SYSTEM_BASE + 0x28), 0x00CFF2000000FFFF);
    assert_eq!(u64_at(&vm, SYSTEM_BASE + 0x30), 0x00AFFA000000FFFF);
    assert_eq!(u64_at(&vm, SYSTEM_BASE + 0x50), 0x00CFF3000000FFFF);
    let tss_v = gdt_v + 0x1000;
    assert_eq!(u64_at(&vm, SYSTEM_BASE + 0x40), (0x89u64 << 40) | ((tss_v & 0xFFFFFF) << 16) | 0x67);
    assert_eq!(u64_at(&vm, SYSTEM_BASE + 0x48), tss_v >> 32);
    assert_eq!(read(&vm, SYSTEM_BASE + 0x1000, 104), vec![0u8; 104]);
}

#[test]
fn boot_gdt_without_room_for_the_tss_is_refused() {
    let mut vm = Vm::with_memory_size((SYSTEM_BASE + 0x1000) as usize);
    assert_eq!(write_boot_gdt(&mut vm, 0), Err("Memory write out of bounds"));
    assert_eq!(u64_at(&vm, SYSTEM_BASE + 0x10), 0);
}

#[test]
fn module_lists_are_linked_both_ways() {
    let mut vm = Vm::with_memory_size((LPB_PBASE + 0x50000) as usize);
    let nodes: Vec<(u64, u64)> = (0..3u64).map(|i| (LPB_VBASE + 0x40000 + i * 0x1000, LPB_PBASE + 0x40000 + i * 0x1000)).collect();
    link_module_lists(&mut vm, &nodes);
    let head = LPB_VBASE + 0x10;
    assert_eq!(u64_at(&vm, LPB_PBASE + 0x10), nodes[0].0);
    assert_eq!(u64_at(&vm, LPB_PBASE + 0x18), nodes[2].0);
    assert_eq!(u64_at(&vm, LPB_PBASE + 0x30), LPB_VBASE + 0x30);
    assert_eq!(u64_at(&vm, LPB_PBASE + 0x38), LPB_VBASE + 0x30);
    // load order
    assert_eq!(u64_at(&vm, nodes[0].1), nodes[1].0);
    assert_eq!(u64_at(&vm, nodes[0].1 + 8), head);
    assert_eq!(u64_at(&vm, nodes[1].1), nodes[2].0);
    assert_eq!(u64_at(&vm, nodes[1].1 + 8), nodes[0].0);
    assert_eq!(u64_at(&vm, nodes[2].1), head);
    assert_eq!(u64_at(&vm, nodes[2].1 + 8), nodes[1].0);
    // memory order ring, 0x10 into each entry
    assert_eq!(u64_at(&vm, nodes[0].1 + 0x10), nodes[1].0 + 0x10);
    assert_eq!(u64_at(&vm, nodes[0].1 + 0x18), nodes[2].0 + 0x10);
    assert_eq!(u64_at(&vm, nodes[2].1 + 0x10), nodes[0].0 + 0x10);
    assert_eq!(u64_at(&vm, nodes[2].1 + 0x18), nodes[1].0 + 0x10);
}

#[test]
fn memory_descriptors_form_a_ring_and_cover_memory() {
    let mut vm = Vm::with_memory_size((LPB_PBASE + 0x30000) as usize);
    let hive_size: u32 = 0x1801;
    setup_memory_descriptors(&mut vm, hive_size);
    let head = LPB_VBASE + 0x20;
    let md_v = |i: u64| LPB_VBASE + 0x20000 + 0x1000 * i;
    let md_p = |i: u64| LPB_PBASE + 0x20000 + 0x1000 * i;
    assert_eq!(u64_at(&vm, LPB_PBASE + 0x20), md_v(0));
    assert_eq!(u64_at(&vm, LPB_PBASE + 0x28), md_v(6));
    let bases = [0u64, 0x1000, 0x200000, 0x2000000, 0x4000000, 0x4200000, 0x4202000];
    let sizes = [0x1000u64, 0x1FF000, 0x1E00000, 0x2000000, 0x200000, 0x1801, MEM_SIZE - 0x4202000];
    let types = [1u32, 0, 7, 8, 15, 15, 0];
    for i in 0..7u64 {
        let next = if i == 6 { head } else { md_v(i + 1) };
        let prev = if i == 0 { head } else { md_v(i - 1) };
        assert_eq!(u64_at(&vm, md_p(i)), next);
        assert_eq!(u64_at(&vm, md_p(i) + 8), prev);
        assert_eq!(u32_at(&vm, md_p(i) + 0x10), types[i as usize]);
        assert_eq!(u64_at(&vm, md_p(i) + 0x18), bases[i as usize] >> 12);
        assert_eq!(u64_at(&vm, md_p(i) + 0x20), sizes[i as usize] >> 12);
    }
}

#[test]
fn hal_extensions_are_recognised_by_name() {
    assert!(is_hal_extension("HalExtPL080.dll"));
    assert!(is_hal_extension("halextintclpiodma.dll"));
    assert!(!is_hal_extension("hal.dll"));
    assert!(!is_hal_extension("ntoskrnl.exe"));
    assert!(!is_hal_extension("halex"));
}

#[test]
fn hal_extensions_are_selected_in_order() {
    let names: Vec<String> = ["ntoskrnl.exe", "HALEXTA.dll", "hal.dll", "halextB.dll"].iter().map(|s| s.to_string()).collect();
    let nodes: Vec<(u64, u64)> = vec![(1, 10), (2, 20), (3, 30), (4, 40)];
    assert_eq!(select_hal_extensions(&names, &nodes), vec![(2, 20), (4, 40)]);
}

#[test]
fn hal_extension_list_is_linked_at_its_head() {
    let mut vm = Vm::with_memory_size(0x10000);
    let ext_p: u64 = 0x1000;
    let ext_v: u64 = 0xFFFF_F800_0400_8000;
    let nodes: Vec<(u64, u64)> = vec![(0xFFFF_F800_0404_1000, 0x4000), (0xFFFF_F800_0404_3000, 0x6000)];
    link_hal_extensions(&mut vm, ext_p, ext_v, &nodes);
    let head = ext_v + 0xA18;
    assert_eq!(u64_at(&vm, ext_p + 0xA18), nodes[0].0 + 0x20);
    assert_eq!(u64_at(&vm, ext_p + 0xA20), nodes[1].0 + 0x20);
    assert_eq!(u64_at(&vm, 0x4020), nodes[1].0 + 0x20);
    assert_eq!(u64_at(&vm, 0x4028), head);
    assert_eq!(u64_at(&vm, 0x6020), head);
    assert_eq!(u64_at(&vm, 0x6028), nodes[0].0 + 0x20);
}

#[test]
fn no_hal_extensions_leave_memory_alone() {
    let mut vm = Vm::with_memory_size(0x2000);
    link_hal_extensions(&mut vm, 0, 0, &Vec::new());
    assert_eq!(read(&vm, 0, 0x2000), vec![0u8; 0x2000]);
}

#[test]
fn system_hive_signature_is_checked() {
    let mut vm = Vm::with_memory_size((HIVE_PBASE + 0x1000) as usize);
    let mut hive = b"regf".to_vec();
    hive.extend_from_slice(&[1, 2, 3, 4]);
    assert_eq!(load_system_hive(&mut vm, &hive), Ok(true));
    assert_eq!(read(&vm, HIVE_PBASE, 8), hive);
    assert_eq!(load_system_hive(&mut vm, b"hbin...."), Ok(false));
    let mut small = Vm::with_memory_size(0x1000);
    assert_eq!(load_system_hive(&mut small, &hive), Err("Memory write out of bounds"));
}

#[test]
fn apiset_is_placed_and_announced() {
    let mut vm = Vm::with_memory_size((APISET_PBASE + 0x3000) as usize);
    let ext_p = LPB_PBASE + 0x8000;
    let file = vec![0x5Au8; 0x2100];
    assert!(load_apiset(&mut vm, ext_p, &file).is_ok());
    assert_eq!(read(&vm, APISET_PBASE, 0x2100), file);
    assert_eq!(u64_at(&vm, ext_p + 0xA80), APISET_VBASE + 0x2000);
    assert_eq!(u32_at(&vm, ext_p + 0xA88), 0x100);
}

#[test]
fn nls_tables_and_block_are_written() {
    let mut vm = Vm::with_memory_size(0x40000);
    let nls_v: u64 = 0xFFFF_F800_0403_0000;
    write_nls_data(&mut vm, 0x1000, nls_v, &[1, 2, 3], &[4, 5], &[6]);
    assert_eq!(read(&vm, 0x2000, 3), vec![1, 2, 3]);
    assert_eq!(read(&vm, 0x12000, 2), vec![4, 5]);
    assert_eq!(read(&vm, 0x22000, 1), vec![6]);
    assert_eq!(u64_at(&vm, 0x1000), nls_v + 0x1020);
    assert_eq!(u64_at(&vm, 0x1008), nls_v + 0x11020);
    assert_eq!(u64_at(&vm, 0x1010), nls_v + 0x21000);
    assert_eq!(u64_at(&vm, 0x1018), 0);
    assert_eq!(u64_at(&vm, 0x1020), 0);
}
