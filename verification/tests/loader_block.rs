use vwfl::loaderblock::{
    encode_utf16_le, Kpcr, LdrDataTableEntry, LoaderParameterBlock, LoaderParameterExtension, KPCR, KPRCB,
    LDR_DATA_TABLE_ENTRY, LOADER_PARAMETER_BLOCK, LOADER_PARAMETER_EXTENSION, MEMORY_ALLOCATION_DESCRIPTOR,
    TYPE_OF_MEMORY,
};
use vwfl::vm::Vm;

fn read(vm: &Vm, at: u64, len: usize) -> Vec<u8> {
    let mut buf = vec![0u8; len];
    assert!(vm.read_memory_at(at, &mut buf).is_ok());
    buf
}

fn u16_at(b: &[u8], at: usize) -> u16 {
    u16::from_le_bytes(b[at..at + 2].try_into().unwrap())
}

fn u32_at(b: &[u8], at: usize) -> u32 {
    u32::from_le_bytes(b[at..at + 4].try_into().unwrap())
}

fn u64_at(b: &[u8], at: usize) -> u64 {
    u64::from_le_bytes(b[at..at + 8].try_into().unwrap())
}

#[test]
fn structures_have_their_kernel_sizes() {
    assert_eq!(KPCR::zeroed().to_bytes().len(), 0x180);
    assert_eq!(KPRCB::zeroed().to_bytes().len(), 0x700);
    assert_eq!(LOADER_PARAMETER_BLOCK::zeroed().to_bytes().len(), 0x160);
    assert_eq!(LOADER_PARAMETER_EXTENSION::zeroed().to_bytes().len(), 0xe38);
    assert_eq!(MEMORY_ALLOCATION_DESCRIPTOR::zeroed().to_bytes().len(), 0x28);
    assert_eq!(LDR_DATA_TABLE_ENTRY::zeroed().to_bytes().len(), 0x120);
    assert!(KPCR::zeroed().to_bytes().iter().all(|&b| b == 0));
}

#[test]
fn memory_type_codes_are_positions() {
    assert_eq!(TYPE_OF_MEMORY::LoaderFree.to_code(), 0);
    assert_eq!(TYPE_OF_MEMORY::LoaderSystemCode.to_code(), 7);
    assert_eq!(TYPE_OF_MEMORY::LoaderMemoryData.to_code(), 15);
    assert_eq!(TYPE_OF_MEMORY::LoaderMemoryMax.to_code(), 18);
    assert_eq!(TYPE_OF_MEMORY::from_code(8), Some(TYPE_OF_MEMORY::LoaderHalCode));
    assert_eq!(TYPE_OF_MEMORY::from_code(19), None);
}

#[test]
fn kpcr_and_prcb_are_written() {
    let mut vm = Vm::with_memory_size(0x2000);
    let v: u64 = 0xFFFF_F800_0401_0000;
    assert!(Kpcr::setup(&mut vm, v, 0x100, 0x1111, 0x2222, 0x3333, 0x4444).is_ok());
    let kpcr = read(&vm, 0x100, 0x180);
    assert_eq!(u64_at(&kpcr, 0x0), 0x1111);
    assert_eq!(u64_at(&kpcr, 0x8), 0x3333);
    assert_eq!(u64_at(&kpcr, 0x18), v);
    assert_eq!(u64_at(&kpcr, 0x20), v + 0x180);
    assert_eq!(u64_at(&kpcr, 0x30), v);
    assert_eq!(u64_at(&kpcr, 0x38), 0x2222);
    assert_eq!(u16_at(&kpcr, 0x60), 1);
    assert_eq!(u16_at(&kpcr, 0x62), 1);
    assert_eq!(u32_at(&kpcr, 0x64), 0x24);
    let prcb = read(&vm, 0x280, 0x700);
    assert_eq!(u32_at(&prcb, 0x0), 0x1F80);
    assert_eq!(u64_at(&prcb, 0x28), 0x4444);
    assert_eq!(u32_at(&prcb, 0x44), 3600);
    assert_eq!(u16_at(&prcb, 0x88), 19041);
    assert_eq!(u16_at(&prcb, 0x8a), 10);
    assert_eq!(u64_at(&prcb, 0x90), 3600000000);
    assert_eq!(u64_at(&prcb, 0xc8), 1);
    assert_eq!(u32_at(&prcb, 0xd4), 0);
    assert_eq!(u64_at(&prcb, 0x100), 0x80050033);
    assert_eq!(u64_at(&prcb, 0x110), 0x8102000);
    assert_eq!(u64_at(&prcb, 0x118), 0x6f8);
}

#[test]
fn kpcr_that_does_not_fit_is_refused() {
    let mut vm = Vm::with_memory_size(0x100);
    assert_eq!(Kpcr::setup(&mut vm, 0x1000, 0, 1, 2, 3, 4), Err("Memory write out of bounds"));
    assert_eq!(read(&vm, 0, 0x100), vec![0u8; 0x100]);
    // the KPCR fits, the KPRCB does not: the KPCR is left written
    let mut vm = Vm::with_memory_size(0x200);
    assert_eq!(Kpcr::setup(&mut vm, 0x1000, 0, 1, 2, 3, 4), Err("Memory write out of bounds"));
    assert_eq!(u64_at(&read(&vm, 0, 8), 0), 1);
}

#[test]
fn loader_parameter_block_is_written() {
    let mut vm = Vm::with_memory_size(0xD000);
    let lpb_v: u64 = 0xFFFF_F800_0400_0000;
    let prcb_v: u64 = 0xFFFF_F800_0401_0180;
    assert!(LoaderParameterBlock::setup(&mut vm, lpb_v, 0, prcb_v, 0x5555, 0x10000, 0x6666, 0x777, 0x8888).is_ok());
    let lpb = read(&vm, 0, 0x160);
    assert_eq!(u32_at(&lpb, 0x0), 10);
    assert_eq!(u32_at(&lpb, 0x8), 0x160);
    assert_eq!(u64_at(&lpb, 0x80), 0x5555);
    assert_eq!(u64_at(&lpb, 0x88), prcb_v);
    assert_eq!(u64_at(&lpb, 0x90), 0xFFFF_F800_0401_6000);
    assert_eq!(u64_at(&lpb, 0x98), 0xFFFF_F800_0401_5000);
    assert_eq!(u32_at(&lpb, 0xa0), 0x10000);
    assert_eq!(u32_at(&lpb, 0xa4), 0x777);
    assert_eq!(u64_at(&lpb, 0xa8), 0x6666);
    assert_eq!(u64_at(&lpb, 0xd8), lpb_v + 0xC000);
    assert_eq!(u64_at(&lpb, 0xe0), 0x8888);
    assert_eq!(u64_at(&lpb, 0xf0), lpb_v + 0x8000);
    assert_eq!(u64_at(&lpb, 0x10), 0);
}

#[test]
fn memory_descriptor_is_written() {
    let mut vm = Vm::with_memory_size(0x100);
    assert!(LoaderParameterBlock::add_memory(&mut vm, 0, 0, 0, 0x10, 0x200000, 0x1E00000, 7).is_ok());
    let d = read(&vm, 0x10, 0x28);
    assert_eq!(u64_at(&d, 0), 0);
    assert_eq!(u64_at(&d, 8), 0);
    assert_eq!(u32_at(&d, 0x10), 7);
    assert_eq!(u64_at(&d, 0x18), 0x200);
    assert_eq!(u64_at(&d, 0x20), 0x1E00);
    assert_eq!(LoaderParameterBlock::add_memory(&mut vm, 0, 0, 0, 0xF0, 0, 0, 1), Err("Memory write out of bounds"));
}

#[test]
fn extension_is_written_with_empty_hal_list() {
    let mut vm = Vm::with_memory_size(0x1000);
    let ext_v: u64 = 0xFFFF_F800_0400_8000;
    assert!(LoaderParameterExtension::setup(&mut vm, 0, ext_v).is_ok());
    let ext = read(&vm, 0, 0xE38);
    assert_eq!(u32_at(&ext, 0), 0xE38);
    assert_eq!(u64_at(&ext, 0xA18), ext_v + 0xA18);
    assert_eq!(u64_at(&ext, 0xA20), ext_v + 0xA18);
    assert_eq!(u32_at(&ext, 0x84), 0x4000);
    assert_eq!(u32_at(&ext, 0xB88), 10);
    assert_eq!(u32_at(&ext, 0xB8C), 0);
    assert_eq!(LoaderParameterExtension::OFFSET_IN_LPB, 0x8000);
    let mut small = Vm::with_memory_size(0xE00);
    assert_eq!(LoaderParameterExtension::setup(&mut small, 0, ext_v), Err("Memory write out of bounds"));
}

#[test]
fn extension_points_at_acpi_and_apiset() {
    let mut vm = Vm::with_memory_size(0x1000);
    assert!(LoaderParameterExtension::set_acpi(&mut vm, 0, 0xAAAA_BBBB).is_ok());
    assert!(LoaderParameterExtension::set_apiset(&mut vm, 0, 0xCCCC_DDDD, 0x1234).is_ok());
    let ext = read(&vm, 0, 0xA90);
    assert_eq!(u64_at(&ext, 0x78), 0xAAAA_BBBB);
    assert_eq!(u32_at(&ext, 0x80), 36);
    assert_eq!(u64_at(&ext, 0xA80), 0xCCCC_DDDD);
    assert_eq!(u32_at(&ext, 0xA88), 0x1234);
    let mut small = Vm::with_memory_size(0x7C);
    assert_eq!(LoaderParameterExtension::set_acpi(&mut small, 0, 1), Err("Memory write out of bounds"));
}

#[test]
fn module_entry_and_name_are_written() {
    let mut vm = Vm::with_memory_size(0x400);
    let entry_v: u64 = 0xFFFF_F800_0404_0000;
    assert!(LdrDataTableEntry::add_module(&mut vm, entry_v, 0x10, 0x1_4000_0000, 0x1_4000_1000, 0x5000, "hal.dll").is_ok());
    let e = read(&vm, 0x10, 0x120);
    assert_eq!(u64_at(&e, 0x30), 0x1_4000_0000);
    assert_eq!(u64_at(&e, 0x38), 0x1_4000_1000);
    assert_eq!(u32_at(&e, 0x40), 0x5000);
    assert_eq!(u16_at(&e, 0x48), 14);
    assert_eq!(u16_at(&e, 0x4a), 16);
    assert_eq!(u64_at(&e, 0x50), entry_v + 0x150);
    assert_eq!(u16_at(&e, 0x58), 14);
    assert_eq!(u64_at(&e, 0x60), entry_v + 0x150);
    assert_eq!(u32_at(&e, 0x68), 0x40004);
    assert_eq!(u16_at(&e, 0x6c), 1);
    let name = read(&vm, 0x160, 14);
    assert_eq!(name, encode_utf16_le("hal.dll"));
}

#[test]
fn utf16_encoding_matches_std() {
    for s in ["", "ntoskrnl.exe", "Größe", "\u{1F600}x"] {
        let expected: Vec<u8> = s.encode_utf16().flat_map(|u| u.to_le_bytes()).collect();
        assert_eq!(encode_utf16_le(s), expected);
    }
}

#[test]
fn acpi_pointer_after_extension_setup_keeps_the_rest() {
    let mut vm = Vm::with_memory_size(0x1000);
    let ext_v: u64 = 0xFFFF_F800_0400_8000;
    assert!(LoaderParameterExtension::setup(&mut vm, 0, ext_v).is_ok());
    assert!(LoaderParameterExtension::set_acpi(&mut vm, 0, 0x1234_5678).is_ok());
    let ext = read(&vm, 0, 0xE38);
    assert_eq!(u32_at(&ext, 0), 0xE38);
    assert_eq!(u64_at(&ext, 0x78), 0x1234_5678);
    assert_eq!(u32_at(&ext, 0x80), 36);
    assert_eq!(u64_at(&ext, 0xA18), ext_v + 0xA18);
    assert_eq!(u64_at(&ext, 0xA20), ext_v + 0xA18);
    assert_eq!(u32_at(&ext, 0xB88), 10);
}
