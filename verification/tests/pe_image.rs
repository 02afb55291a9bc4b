use vwfl::object_file::Architecture;
use vwfl::pe::{parse, PeFile};
use vwfl::vm::Vm;

const IMAGE_BASE: u64 = 0x1_4000_0000;

fn put16(b: &mut [u8], at: usize, v: u16) {
    b[at..at + 2].copy_from_slice(&v.to_le_bytes());
}

fn put32(b: &mut [u8], at: usize, v: u32) {
    b[at..at + 4].copy_from_slice(&v.to_le_bytes());
}

fn put64(b: &mut [u8], at: usize, v: u64) {
    b[at..at + 8].copy_from_slice(&v.to_le_bytes());
}

fn put_str(b: &mut [u8], at: usize, s: &[u8]) {
    b[at..at + s.len()].copy_from_slice(s);
}

/// A small PE32+ image whose file offsets equal its relative addresses:
/// `.text` (with a debug directory and a CodeView record), `.edata`,
/// `.idata` and `.reloc`.
fn sample_image() -> Vec<u8> {
    let mut b = vec![0u8; 0x4200];
    // DOS header
    put_str(&mut b, 0, b"MZ");
    put32(&mut b, 0x3C, 0x80);
    // NT headers
    put_str(&mut b, 0x80, b"PE\0\0");
    let coff = 0x84;
    put16(&mut b, coff, 0x8664);
    put16(&mut b, coff + 2, 4);
    put16(&mut b, coff + 16, 0xF0);
    put16(&mut b, coff + 18, 0x22);
    let opt = 0x98;
    put16(&mut b, opt, 0x20B);
    put32(&mut b, opt + 16, 0x1000);
    put64(&mut b, opt + 24, IMAGE_BASE);
    put32(&mut b, opt + 32, 0x1000);
    put32(&mut b, opt + 36, 0x200);
    put32(&mut b, opt + 56, 0x5000);
    put32(&mut b, opt + 60, 0x400);
    put32(&mut b, opt + 108, 16);
    let dirs = opt + 112;
    put32(&mut b, dirs, 0x2000);
    put32(&mut b, dirs + 4, 0x100);
    put32(&mut b, dirs + 8, 0x3000);
    put32(&mut b, dirs + 12, 0x100);
    put32(&mut b, dirs + 5 * 8, 0x4000);
    put32(&mut b, dirs + 5 * 8 + 4, 0xC);
    put32(&mut b, dirs + 6 * 8, 0x1100);
    put32(&mut b, dirs + 6 * 8 + 4, 28);
    // section table
    let sections: [(&[u8], u32, u32); 4] =
        [(b".text", 0x1000, 0x200), (b".edata", 0x2000, 0x200), (b".idata", 0x3000, 0x200), (b".reloc", 0x4000, 0x10)];
    for (k, (name, rva, vsize)) in sections.iter().enumerate() {
        let h = 0x188 + 40 * k;
        put_str(&mut b, h, name);
        put32(&mut b, h + 8, *vsize);
        put32(&mut b, h + 12, *rva);
        put32(&mut b, h + 16, 0x200);
        put32(&mut b, h + 20, *rva);
    }
    // .text: a pointer to relocate, a debug directory and its CodeView record
    put64(&mut b, 0x1010, IMAGE_BASE + 0x1050);
    put32(&mut b, 0x1100 + 12, 2);
    put32(&mut b, 0x1100 + 16, 30);
    put32(&mut b, 0x1100 + 20, 0x1140);
    put32(&mut b, 0x1100 + 24, 0x1140);
    put_str(&mut b, 0x1140, b"RSDS");
    for i in 0..16 {
        b[0x1144 + i] = (i + 1) as u8;
    }
    put32(&mut b, 0x1154, 5);
    put_str(&mut b, 0x1158, b"k.pdb\0");
    // .edata: three functions, the middle one empty, the last one a forwarder
    put32(&mut b, 0x2000 + 12, 0x2100);
    put32(&mut b, 0x2000 + 16, 1);
    put32(&mut b, 0x2000 + 20, 3);
    put32(&mut b, 0x2000 + 24, 1);
    put32(&mut b, 0x2000 + 28, 0x2040);
    put32(&mut b, 0x2000 + 32, 0x2050);
    put32(&mut b, 0x2000 + 36, 0x2060);
    put32(&mut b, 0x2040, 0x1000);
    put32(&mut b, 0x2044, 0);
    put32(&mut b, 0x2048, 0x2080);
    put32(&mut b, 0x2050, 0x2070);
    put16(&mut b, 0x2060, 0);
    put_str(&mut b, 0x2070, b"Alpha\0");
    put_str(&mut b, 0x2080, b"NTOSKRNL.KeBugCheck\0");
    put_str(&mut b, 0x2100, b"test.dll\0");
    // .idata: one module, a named and an ordinal import
    put32(&mut b, 0x3000, 0x3040);
    put32(&mut b, 0x3000 + 12, 0x3100);
    put32(&mut b, 0x3000 + 16, 0x3080);
    put64(&mut b, 0x3040, 0x3120);
    put64(&mut b, 0x3048, 0x8000_0000_0000_0007);
    put64(&mut b, 0x3080, 0x3120);
    put64(&mut b, 0x3088, 0x8000_0000_0000_0007);
    put_str(&mut b, 0x3100, b"ntoskrnl.exe\0");
    put_str(&mut b, 0x3122, b"KeBugCheckEx\0");
    // .reloc: one block for page 0x1000 with a 64-bit entry at 0x10 and padding
    put32(&mut b, 0x4000, 0x1000);
    put32(&mut b, 0x4004, 0xC);
    put16(&mut b, 0x4008, 0xA010);
    put16(&mut b, 0x400A, 0);
    b
}

fn parsed() -> PeFile {
    match parse(&sample_image()) {
        Ok(pe) => pe,
        Err(e) => panic!("sample image refused: {}", e),
    }
}

#[test]
fn parse_reads_entry_base_and_sections() {
    let pe = parsed();
    assert_eq!(pe.image_base, IMAGE_BASE);
    assert_eq!(pe.entry_point, IMAGE_BASE + 0x1000);
    assert_eq!(pe.architecture, Architecture::X86_64);
    let names: Vec<&str> = pe.sections.iter().map(|s| s.name.as_str()).collect();
    assert_eq!(names, vec![".text", ".edata", ".idata", ".reloc"]);
    assert_eq!(pe.sections[0].virtual_address, IMAGE_BASE + 0x1000);
    assert_eq!(pe.sections[0].virtual_size, 0x200);
    assert_eq!(pe.sections[0].raw_data.len(), 0x200);
    assert_eq!(pe.sections[3].raw_data.len(), 0x10);
    assert_eq!(pe.header_data.len(), 4096);
    assert_eq!(&pe.header_data[0..2], b"MZ");
}

#[test]
fn parse_reads_the_codeview_record() {
    let pe = parsed();
    assert_eq!(pe.pdb_name, "k.pdb");
    assert_eq!(pe.pdb_guid_age, "00000001000200030405060708090A0B5");
}

#[test]
fn image_without_debug_directory_has_unknown_pdb() {
    let mut img = sample_image();
    let dirs = 0x98 + 112;
    img[dirs + 48..dirs + 56].copy_from_slice(&[0u8; 8]);
    let pe = parse(&img).ok().unwrap();
    assert_eq!(pe.pdb_name, "Unknown");
    assert_eq!(pe.pdb_guid_age, "Unknown");
}

#[test]
fn exports_name_ordinal_and_forwarder() {
    let pe = parsed();
    let exports = pe.get_exports().ok().unwrap();
    assert_eq!(exports.len(), 2);
    assert_eq!(exports[0].name, "Alpha");
    assert_eq!(exports[0].rva, 0x1000);
    assert_eq!(exports[0].ordinal, 1);
    assert_eq!(exports[0].forwarder, None);
    assert_eq!(exports[1].name, "#3");
    assert_eq!(exports[1].rva, 0x2080);
    assert_eq!(exports[1].ordinal, 3);
    assert_eq!(exports[1].forwarder.as_deref(), Some("NTOSKRNL.KeBugCheck"));
}

#[test]
fn export_names_are_read_as_lossy_text() {
    let mut img = sample_image();
    img[0x2072] = 0xFF;
    let pe = parse(&img).ok().unwrap();
    let exports = pe.get_exports().ok().unwrap();
    assert_eq!(exports[0].name, "Al\u{FFFD}ha");
}

#[test]
fn imports_by_name_and_by_ordinal() {
    let pe = parsed();
    let imports = pe.get_imports().ok().unwrap();
    assert_eq!(imports.len(), 1);
    assert_eq!(imports[0].dll_name, "ntoskrnl.exe");
    assert_eq!(imports[0].functions.len(), 2);
    assert_eq!(imports[0].functions[0].name, "KeBugCheckEx");
    assert_eq!(imports[0].functions[0].iat_rva, 0x3080);
    assert_eq!(imports[0].functions[1].name, "#7");
    assert_eq!(imports[0].functions[1].iat_rva, 0x3088);
}

#[test]
fn image_without_directories_has_no_exports_or_imports() {
    let mut img = sample_image();
    let dirs = 0x98 + 112;
    img[dirs..dirs + 16].copy_from_slice(&[0u8; 16]);
    let pe = parse(&img).ok().unwrap();
    assert_eq!(pe.get_exports().ok().unwrap().len(), 0);
    assert_eq!(pe.get_imports().ok().unwrap().len(), 0);
}

#[test]
fn export_directory_outside_sections_is_refused() {
    let mut img = sample_image();
    let dirs = 0x98 + 112;
    img[dirs..dirs + 4].copy_from_slice(&0x9000u32.to_le_bytes());
    let pe = parse(&img).ok().unwrap();
    assert_eq!(pe.get_exports().err(), Some("Invalid Export RVA"));
}

#[test]
fn import_directory_outside_sections_is_refused() {
    let mut img = sample_image();
    let dirs = 0x98 + 112;
    img[dirs + 8..dirs + 12].copy_from_slice(&0x9000u32.to_le_bytes());
    let pe = parse(&img).ok().unwrap();
    assert_eq!(pe.get_imports().err(), Some("Invalid Import RVA"));
}

#[test]
fn relocation_adds_the_base_delta() {
    let pe = parsed();
    let img = sample_image();
    let mut vm = Vm::with_memory_size(0x10000);
    assert!(vm.write_memory(0x1000, &img[0x1000..0x1200]).is_ok());
    let new_base: u64 = 0xFFFF_F800_0020_0000;
    assert!(pe.apply_relocation(&mut vm, 0, new_base).is_ok());
    let mut word = [0u8; 8];
    assert!(vm.read_memory(0x1010, &mut word).is_ok());
    assert_eq!(u64::from_le_bytes(word), new_base + 0x1050);
    // the padding entry changes nothing
    let mut next = [0u8; 8];
    assert!(vm.read_memory(0x1000, &mut next).is_ok());
    assert_eq!(next, [0u8; 8]);
}

#[test]
fn relocation_to_the_linked_base_changes_nothing() {
    let pe = parsed();
    let mut vm = Vm::with_memory_size(0x2000);
    assert!(vm.write_memory(0x1010, &7u64.to_le_bytes()).is_ok());
    assert!(pe.apply_relocation(&mut vm, 0, IMAGE_BASE).is_ok());
    let mut word = [0u8; 8];
    assert!(vm.read_memory(0x1010, &mut word).is_ok());
    assert_eq!(u64::from_le_bytes(word), 7);
}

#[test]
fn relocation_without_reloc_section_is_refused() {
    let mut img = sample_image();
    // rename .reloc so that no section carries the name
    img[0x188 + 3 * 40..0x188 + 3 * 40 + 6].copy_from_slice(b".rel0c");
    let pe = parse(&img).ok().unwrap();
    let mut vm = Vm::with_memory_size(0x2000);
    assert_eq!(pe.apply_relocation(&mut vm, 0, 0x1000), Err("Relocation failed: No .reloc section"));
}

#[test]
fn garbage_is_not_parsed() {
    assert_eq!(parse(&[0u8; 16]).err(), Some("Failed to parse PE file"));
    assert_eq!(PeFile::from_bytes(b"hello world").err(), Some("Failed to parse PE file"));
}

#[test]
fn elf_file_is_not_a_pe_file() {
    let mut elf = vec![0u8; 64];
    elf[0..4].copy_from_slice(b"\x7fELF");
    elf[4] = 2;
    elf[5] = 1;
    elf[6] = 1;
    elf[16..18].copy_from_slice(&2u16.to_le_bytes());
    elf[18..20].copy_from_slice(&0x3Eu16.to_le_bytes());
    elf[20..24].copy_from_slice(&1u32.to_le_bytes());
    elf[52..54].copy_from_slice(&64u16.to_le_bytes());
    elf[54..56].copy_from_slice(&56u16.to_le_bytes());
    elf[58..60].copy_from_slice(&64u16.to_le_bytes());
    assert_eq!(parse(&elf).err(), Some("Not a valid PE file"));
}

#[test]
fn from_bytes_leaves_header_copy_empty() {
    let pe = PeFile::from_bytes(&sample_image()).ok().unwrap();
    assert!(pe.header_data.is_empty());
    assert_eq!(pe.sections.len(), 4);
}

#[test]
fn description_gives_the_image_base_in_hex() {
    let pe = parsed();
    assert_eq!(pe.to_string(), "PE File Info (Base: 0x140000000)\n");
}

#[test]
fn machine_field_gives_the_architecture() {
    let mut img = sample_image();
    img[0x84..0x86].copy_from_slice(&0xAA64u16.to_le_bytes());
    assert_eq!(parse(&img).ok().unwrap().architecture, Architecture::Aarch64);
    img[0x84..0x86].copy_from_slice(&0x1234u16.to_le_bytes());
    assert_eq!(parse(&img).ok().unwrap().architecture, Architecture::Unknown);
}

#[test]
fn relocation_to_the_linked_base_ignores_the_relocation_data() {
    let mut img = sample_image();
    // a block of size 4 could not be walked, but nothing moves
    img[0x4004..0x4008].copy_from_slice(&4u32.to_le_bytes());
    let pe = parse(&img).ok().unwrap();
    let mut vm = Vm::with_memory_size(0x100);
    assert_eq!(pe.apply_relocation(&mut vm, 0, IMAGE_BASE), Ok(()));
}

#[test]
fn section_headers_above_the_rva_are_not_summed() {
    // the first header: no virtual size (so it is not a kept section), an
    // address above the export directory, and an end past 4 GiB
    let mut img = sample_image();
    let h = 0x188;
    img[h + 8..h + 12].copy_from_slice(&0u32.to_le_bytes());
    img[h + 12..h + 16].copy_from_slice(&0x3000_0000u32.to_le_bytes());
    img[h + 16..h + 20].copy_from_slice(&0xF000_0000u32.to_le_bytes());
    let pe = parse(&img).ok().unwrap();
    assert_eq!(pe.sections.len(), 3);
    let exports = pe.get_exports().ok().unwrap();
    assert_eq!(exports.len(), 2);
    assert_eq!(exports[0].name, "Alpha");
}

#[test]
fn readable_images_pass_the_checks() {
    let pe = parsed();
    assert!(pe.exports_readable());
    assert!(pe.imports_readable());
    assert!(pe.relocations_readable(0));
}

#[test]
fn export_directory_past_the_end_fails_the_check() {
    let mut img = sample_image();
    let h = 0x188 + 3 * 40;
    img[h + 8..h + 12].copy_from_slice(&0x200u32.to_le_bytes());
    let dirs = 0x98 + 112;
    img[dirs..dirs + 4].copy_from_slice(&0x41F0u32.to_le_bytes());
    let pe = parse(&img).ok().unwrap();
    assert!(!pe.exports_readable());
    assert!(pe.imports_readable());
}

#[test]
fn unresolved_name_is_readable_and_reported() {
    let mut img = sample_image();
    // a second name whose address (0) lies in no section: reading stops there
    img[0x2000 + 24..0x2000 + 28].copy_from_slice(&0x1000_0000u32.to_le_bytes());
    let pe = parse(&img).ok().unwrap();
    assert!(pe.exports_readable());
    assert_eq!(pe.get_exports().err(), Some("Invalid Name String RVA"));
}

#[test]
fn import_descriptor_past_the_end_fails_the_check() {
    let mut img = sample_image();
    let h = 0x188 + 3 * 40;
    img[h + 8..h + 12].copy_from_slice(&0x200u32.to_le_bytes());
    let dirs = 0x98 + 112;
    img[dirs + 8..dirs + 12].copy_from_slice(&0x41F0u32.to_le_bytes());
    let pe = parse(&img).ok().unwrap();
    assert!(!pe.imports_readable());
}

#[test]
fn short_relocation_block_fails_the_check() {
    let mut img = sample_image();
    img[0x4004..0x4008].copy_from_slice(&4u32.to_le_bytes());
    let pe = parse(&img).ok().unwrap();
    assert!(!pe.relocations_readable(0));
}
