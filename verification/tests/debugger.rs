use vwfl::gdb::{read_addrs, read_core_registers, resume_control, write_addrs, write_core_registers, GdbResumeAction, GeneralRegisters};
use vwfl::vm::Vm;

fn regs() -> GeneralRegisters {
    GeneralRegisters {
        rax: 1, rbx: 2, rcx: 3, rdx: 4, rsi: 5, rdi: 6, rsp: 7, rbp: 8, r8: 9, r9: 10, r10: 11, r11: 12, r12: 13,
        r13: 14, r14: 15, r15: 16, rip: 0x1000, rflags: 0x1_0000_0246,
    }
}

#[test]
fn resume_control_words() {
    assert_eq!(resume_control(None), 0x10001);
    assert_eq!(resume_control(Some(GdbResumeAction::Continue)), 0x10001);
    assert_eq!(resume_control(Some(GdbResumeAction::Step)), 0x10003);
}

#[test]
fn core_registers_in_debugger_order() {
    let core = read_core_registers(&regs(), [0x10, 0x18, 0x18, 0x18, 0, 0x2b]);
    assert_eq!(core.regs, [1, 2, 3, 4, 5, 6, 8, 7, 9, 10, 11, 12, 13, 14, 15, 16]);
    assert_eq!(core.rip, 0x1000);
    assert_eq!(core.eflags, 0x246);
    assert_eq!(core.segments, [0x10, 0x18, 0x18, 0x18, 0, 0x2b]);
}

#[test]
fn written_registers_read_back() {
    let core = read_core_registers(&regs(), [0; 6]);
    let g = write_core_registers(&core);
    assert_eq!((g.rax, g.rbp, g.rsp, g.r15, g.rip), (1, 8, 7, 16, 0x1000));
    assert_eq!(g.rflags, 0x246);
}

#[test]
fn memory_through_unmapped_tables_is_physical() {
    // no page tables at cr3 = 0: every address is taken as physical
    let mut vm = Vm::with_memory_size(0x2000);
    assert_eq!(write_addrs(&mut vm, 0, 0x1800, &[9, 8, 7]), Ok(()));
    let mut buf = [0u8; 3];
    assert_eq!(read_addrs(&vm, 0, 0x1800, &mut buf), 3);
    assert_eq!(buf, [9, 8, 7]);
    let mut far = [5u8; 4];
    assert_eq!(read_addrs(&vm, 0, 0x1FFE, &mut far), 0);
    assert_eq!(far, [5u8; 4]);
    assert_eq!(write_addrs(&mut vm, 0, 0x1FFF, &[1, 2]), Err(()));
}

#[test]
fn memory_through_a_large_page() {
    // PML4 at 0x1000, PDPT at 0x2000, PD at 0x3000 mapping 0x4000_0000.. with a 2 MiB page at physical 0
    let mut vm = Vm::with_memory_size(0x4000);
    assert!(vm.write_memory(0x1000, &(0x2000u64 | 3).to_le_bytes()).is_ok());
    assert!(vm.write_memory(0x2000 + 8, &(0x3000u64 | 3).to_le_bytes()).is_ok());
    assert!(vm.write_memory(0x3000, &(0x0u64 | 0x83).to_le_bytes()).is_ok());
    assert_eq!(write_addrs(&mut vm, 0x1000, 0x4000_0100, &[0xAB]), Ok(()));
    let mut b = [0u8; 1];
    assert!(vm.read_memory(0x100, &mut b).is_ok());
    assert_eq!(b, [0xAB]);
    let mut c = [0u8; 1];
    assert_eq!(read_addrs(&vm, 0x1000, 0x4000_0100, &mut c), 1);
    assert_eq!(c, [0xAB]);
}
