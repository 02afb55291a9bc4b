use vwfl::vm::Vm;

#[test]
fn read_gives_back_what_was_written() {
    let mut vm = Vm::with_memory_size(64);
    assert!(vm.write_memory(10, &[1, 2, 3, 4]).is_ok());
    let mut buf = [0u8; 4];
    assert!(vm.read_memory(10, &mut buf).is_ok());
    assert_eq!(buf, [1, 2, 3, 4]);
    let mut around = [9u8; 2];
    assert!(vm.read_memory(8, &mut around).is_ok());
    assert_eq!(around, [0, 0]);
}

#[test]
fn write_past_end_is_refused_and_changes_nothing() {
    let mut vm = Vm::with_memory_size(16);
    assert_eq!(vm.write_memory(14, &[7, 7, 7]), Err("Memory write out of bounds"));
    let mut buf = [5u8; 16];
    assert!(vm.read_memory(0, &mut buf).is_ok());
    assert_eq!(buf, [0u8; 16]);
    assert_eq!(vm.write_memory(usize::MAX, &[1]), Err("Memory write out of bounds"));
}

#[test]
fn read_past_end_is_refused_and_leaves_buffer() {
    let vm = Vm::with_memory_size(16);
    let mut buf = [5u8; 4];
    assert_eq!(vm.read_memory(13, &mut buf), Err("Memory read out of bounds"));
    assert_eq!(buf, [5u8; 4]);
}

#[test]
fn write_that_ends_exactly_at_the_end_is_accepted() {
    let mut vm = Vm::with_memory_size(16);
    assert!(vm.write_memory(12, &[1, 2, 3, 4]).is_ok());
    assert_eq!(vm.mem_size(), 16);
}
