use vwfl::nls::generate_windows_upcase_table;

fn unit(t: &[u8], c: usize) -> u16 {
    u16::from_le_bytes([t[2 * c], t[2 * c + 1]])
}

#[test]
fn table_covers_every_code_unit() {
    let t = generate_windows_upcase_table();
    assert_eq!(t.len(), 131072);
}

#[test]
fn letters_map_to_upper_case() {
    let t = generate_windows_upcase_table();
    assert_eq!(unit(&t, 'a' as usize), 'A' as u16);
    assert_eq!(unit(&t, 'z' as usize), 'Z' as u16);
    assert_eq!(unit(&t, 0xE0), 0xC0);
    assert_eq!(unit(&t, 0xFE), 0xDE);
    assert_eq!(unit(&t, 0x101), 0x100);
    assert_eq!(unit(&t, 0x12D), 0x12C);
    assert_eq!(unit(&t, 0x133), 0x132);
    assert_eq!(unit(&t, 0x147), 0x146);
}

#[test]
fn other_units_map_to_themselves() {
    let t = generate_windows_upcase_table();
    assert_eq!(unit(&t, 'A' as usize), 'A' as u16);
    assert_eq!(unit(&t, '0' as usize), '0' as u16);
    assert_eq!(unit(&t, 0xF7), 0xF7);
    assert_eq!(unit(&t, 0xFF), 0xFF);
    assert_eq!(unit(&t, 0x100), 0x100);
    assert_eq!(unit(&t, 0x131), 0x131);
    assert_eq!(unit(&t, 0x12F), 0x12F);
    assert_eq!(unit(&t, 0x149), 0x149);
    assert_eq!(unit(&t, 0xFFFF), 0xFFFF);
}
