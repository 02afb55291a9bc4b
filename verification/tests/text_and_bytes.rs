use vwfl::bytes::{read_u16_le, read_u32_le, read_u64_le, u16_le, u32_le, u64_le, wrapping_byte_sum};
use vwfl::text::{chars_of, contains_text, hash_number, pdb_signature, pe_info_line};

#[test]
fn little_endian_encodings() {
    assert_eq!(u16_le(0x1234), [0x34, 0x12]);
    assert_eq!(u32_le(0x12345678), [0x78, 0x56, 0x34, 0x12]);
    assert_eq!(u64_le(0x0102030405060708), [8, 7, 6, 5, 4, 3, 2, 1]);
    let b = [0u8, 0x78, 0x56, 0x34, 0x12, 0xAA, 0xBB, 0xCC, 0xDD];
    assert_eq!(read_u16_le(&b, 1), 0x5678);
    assert_eq!(read_u32_le(&b, 1), 0x12345678);
    assert_eq!(read_u64_le(&b, 1), 0xDDCCBBAA12345678);
    assert_eq!(wrapping_byte_sum(&[200, 100, 1]), 45);
}

#[test]
fn characters_and_search() {
    assert_eq!(chars_of("añb"), vec!['a', 'ñ', 'b']);
    assert!(contains_text("abcabd", "abd"));
    assert!(contains_text("abc", ""));
    assert!(!contains_text("ab", "abc"));
    assert!(!contains_text("abcab", "ac"));
}

#[test]
fn numbers_as_text() {
    assert_eq!(hash_number(0), "#0");
    assert_eq!(hash_number(1234), "#1234");
    assert_eq!(hash_number(u64::MAX), format!("#{}", u64::MAX));
    assert_eq!(pe_info_line(0), "PE File Info (Base: 0x0)\n");
    assert_eq!(pe_info_line(0xFFFF_F800_0020_0000), "PE File Info (Base: 0xfffff80000200000)\n");
    let guid = [0xAB, 1, 2, 3, 4, 5, 6, 7, 8, 9, 10, 11, 12, 13, 14, 15];
    assert_eq!(pdb_signature(guid, 0x1F), "000000AB00010002030405060708090A1F");
    assert_eq!(pdb_signature([0xFF; 16], 0), "000000FF00FF00FFFFFFFFFFFFFFFFFF0");
}
