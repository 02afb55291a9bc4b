use vwfl::cpu::{
    exit_action, patch_cpuid_entry, seg_64, write_long_mode_tables, ExitAction, LongModeState, StopReason, VcpuExitKind,
    GDT_PBASE, TSS_PBASE, TSS_VBASE,
};
use vwfl::vm::Vm;

#[test]
fn flat_segments() {
    let cs = seg_64(0x10, true);
    assert_eq!((cs.base, cs.limit, cs.selector, cs.type_, cs.l, cs.s, cs.g, cs.present), (0, 0xffffffff, 0x10, 11, 1, 1, 1, 1));
    let ds = seg_64(0x18, false);
    assert_eq!((ds.type_, ds.l), (3, 0));
}

#[test]
fn kernel_entry_state() {
    let lpb_v: u64 = 0xFFFF_F800_0400_0000;
    let st = LongModeState::for_kernel(0xFFFF_F800_0080_1000, 0xFFFF_FE80_0001_0000, lpb_v);
    assert_eq!(st.cr0, 0x80050023);
    assert_eq!(st.cr3, 0x8102000);
    assert_eq!(st.cr4, 0x106A0);
    assert_eq!(st.efer, 0xD01);
    assert_eq!(st.gdt_base, 0xFFFF_F800_0800_0000);
    assert_eq!(st.gdt_limit, 255);
    assert_eq!(st.idt_base, 0xFFFF_F800_0802_0000);
    assert_eq!(st.idt_limit, 0xFFF);
    assert!(st.cs == seg_64(0x10, true));
    assert!(st.ss == seg_64(0x18, false));
    assert_eq!(st.gs.base, lpb_v + 0x10000);
    assert_eq!(st.gs.selector, 0x18);
    assert_eq!(st.tr.base, TSS_VBASE);
    assert_eq!(st.tr.type_, 9);
    assert_eq!(st.tr.selector, 0x40);
    assert_eq!(st.msrs, vec![(0xc0000080, 0xD01), (0xc0000101, lpb_v + 0x10000), (0x1b, 0xfee00900)]);
    assert_eq!(st.rip, 0xFFFF_F800_0080_1000);
    assert_eq!(st.rsp, 0xFFFF_FE80_0000_FF00);
    assert_eq!(st.rflags, 2);
    assert_eq!(st.rcx, lpb_v);
    assert_eq!(st.rdx, lpb_v);
}

#[test]
fn control_register_values_match_their_bits() {
    assert_eq!(0x80050023u64, (1 << 31) | (1 << 0) | (1 << 1) | (1 << 5) | (1 << 16) | (1 << 18));
    assert_eq!(0x106A0u64, (1 << 5) | (1 << 7) | (1 << 9) | (1 << 10) | (1 << 16));
    assert_eq!(0xD01u64, (1 << 0) | (1 << 8) | (1 << 10) | (1 << 11));
}

#[test]
fn long_mode_gdt_and_tss_are_written() {
    let mut vm = Vm::with_memory_size((TSS_PBASE + 0x1000) as usize);
    assert!(write_long_mode_tables(&mut vm, 0x1234_5678).is_ok());
    let mut gdt = [0u8; 256];
    assert!(vm.read_memory_at(GDT_PBASE, &mut gdt).is_ok());
    let entry = |i: usize| u64::from_le_bytes(gdt[i * 8..i * 8 + 8].try_into().unwrap());
    assert_eq!(entry(1), 0x00af9a000000ffff);
    assert_eq!(entry(2), 0x00af9a000000ffff);
    assert_eq!(entry(3), 0x00cf92000000ffff);
    assert_eq!(entry(4), 0x00affb000000ffff);
    assert_eq!(entry(5), 0x00cff3000000ffff);
    assert_eq!(entry(10), 0x00cff3000000ffff);
    assert_eq!(entry(8), (TSS_VBASE & 0xffffff) << 16 | (TSS_VBASE & 0xff000000) << 32 | 0x0000890000000000 | 103);
    assert_eq!(entry(9), TSS_VBASE >> 32);
    let mut tss = [0u8; 104];
    assert!(vm.read_memory_at(TSS_PBASE, &mut tss).is_ok());
    assert_eq!(u64::from_le_bytes(tss[4..12].try_into().unwrap()), 0x1234_5678);
    assert!(tss[12..].iter().all(|&b| b == 0));
}

#[test]
fn long_mode_tables_need_room() {
    let mut vm = Vm::with_memory_size(0x1000);
    assert_eq!(write_long_mode_tables(&mut vm, 0), Err("Memory write out of bounds"));
}

#[test]
fn cpuid_hides_the_hypervisor() {
    assert_eq!(patch_cpuid_entry(1, 7, 0xFFFF_FFFF, 9), (7, 0x7FDF_FFFF, 9));
    assert_eq!(patch_cpuid_entry(0x40000000, 1, 2, 3), (0, 0, 0));
    assert_eq!(patch_cpuid_entry(7, 1, 2, 3), (1, 2, 3));
}

#[test]
fn exits_decide_what_happens_next() {
    assert_eq!(exit_action(VcpuExitKind::Debug), ExitAction::Stop(StopReason::DoneStep));
    assert_eq!(exit_action(VcpuExitKind::Shutdown), ExitAction::Stop(StopReason::Segv));
    assert_eq!(exit_action(VcpuExitKind::Other), ExitAction::Stop(StopReason::Trap));
    assert_eq!(exit_action(VcpuExitKind::Hlt), ExitAction::Resume);
    assert_eq!(exit_action(VcpuExitKind::IrqWindowOpen), ExitAction::Resume);
    assert_eq!(exit_action(VcpuExitKind::IoOut { port: 0xF9, value: 3 }), ExitAction::Diagnostic(3));
    assert_eq!(exit_action(VcpuExitKind::IoOut { port: 0x3F8, value: b'A' }), ExitAction::SerialOut(b'A'));
    assert_eq!(exit_action(VcpuExitKind::IoOut { port: 0x80, value: 1 }), ExitAction::Resume);
}
