use std::collections::VecDeque;
use vwfl::devices::{serial_port_read, timer_interrupt_allowed, update_windows_time, DeviceState, KUSER_SHARED_DATA_P};
use vwfl::vm::Vm;

#[test]
fn devices_start_in_reset_state() {
    let dev = DeviceState::new();
    assert_eq!(dev.apic.tpr, 0);
    assert_eq!(dev.apic.svr, 0x1FF);
    assert_eq!(dev.apic.lvt_timer, 0x10000);
    assert_eq!(dev.apic.init_count, 0);
    assert_eq!(dev.hpet.config, 0);
    assert_eq!(dev.hpet.counter, 0);
}

#[test]
fn apic_version_and_spurious_vector_read_back() {
    let dev = DeviceState::new();
    let mut data = [0u8; 4];
    dev.handle_mmio_read(0xfee00030, &mut data, 0, None);
    assert_eq!(u32::from_le_bytes(data), 0x50014);
    dev.handle_mmio_read(0xfee000F0, &mut data, 0, None);
    assert_eq!(u32::from_le_bytes(data), 0x1FF);
    // a short read gets the low bytes only
    let mut two = [0xEEu8; 2];
    dev.handle_mmio_read(0xfee00030, &mut two, 0, None);
    assert_eq!(two, [0x14, 0x00]);
    // a long read leaves the bytes past the fourth alone
    let mut six = [0xEEu8; 6];
    dev.handle_mmio_read(0xfee00030, &mut six, 0, None);
    assert_eq!(six, [0x14, 0x00, 0x05, 0x00, 0xEE, 0xEE]);
}

#[test]
fn apic_register_write_reads_back() {
    let mut dev = DeviceState::new();
    dev.handle_mmio_write(0xfee00080, &0x20u32.to_le_bytes());
    dev.handle_mmio_write(0xfee00380, &5000u32.to_le_bytes());
    let mut data = [0u8; 4];
    dev.handle_mmio_read(0xfee00080, &mut data, 0, None);
    assert_eq!(u32::from_le_bytes(data), 0x20);
    dev.handle_mmio_read(0xfee00380, &mut data, 0, None);
    assert_eq!(u32::from_le_bytes(data), 5000);
    // the current count runs down with the exit counter
    dev.handle_mmio_read(0xfee00390, &mut data, 100, None);
    assert_eq!(u32::from_le_bytes(data), 4900);
}

#[test]
fn apic_current_count_without_initial_count() {
    let dev = DeviceState::new();
    let mut data = [0u8; 4];
    dev.handle_mmio_read(0xfee00390, &mut data, 7, None);
    assert_eq!(u32::from_le_bytes(data), 0x100000);
}

#[test]
fn hpet_capabilities_config_and_counter() {
    let mut dev = DeviceState::new();
    let mut data = [0u8; 8];
    dev.handle_mmio_read(0xfed00000, &mut data, 0, None);
    assert_eq!(u64::from_le_bytes(data), 0x8086a20100000001);
    dev.handle_mmio_write(0xfed00010, &3u32.to_le_bytes());
    dev.handle_mmio_read(0xfed00010, &mut data, 0, None);
    assert_eq!(u64::from_le_bytes(data), 3);
    dev.handle_mmio_read(0xfed000F0, &mut data, 5, None);
    assert_eq!(u64::from_le_bytes(data), 500000);
    dev.handle_mmio_read(0xfed000F0, &mut data, 5, Some(7));
    assert_eq!(u64::from_le_bytes(data), 7000000);
    let mut four = [0u8; 4];
    dev.handle_mmio_read(0xfed00000, &mut four, 0, None);
    assert_eq!(u32::from_le_bytes(four), 1);
    // other sizes are not served
    let mut two = [9u8; 2];
    dev.handle_mmio_read(0xfed00000, &mut two, 0, None);
    assert_eq!(two, [9, 9]);
}

#[test]
fn writes_elsewhere_change_nothing() {
    let mut dev = DeviceState::new();
    dev.handle_mmio_write(0xfec00000, &[1, 2, 3, 4]);
    dev.handle_mmio_write(0xfed00010, &[1, 2]);
    assert_eq!(dev.hpet.config, 0);
    assert_eq!(dev.apic.tpr, 0);
    let mut data = [7u8; 4];
    dev.handle_mmio_read(0xfec00000, &mut data, 0, None);
    assert_eq!(data, [7u8; 4]);
}

#[test]
fn windows_time_is_written_in_100ns_units() {
    let mut vm = Vm::with_memory_size((KUSER_SHARED_DATA_P + 0x1000) as usize);
    let count: u64 = 0x1_0000_0001;
    update_windows_time(&mut vm, count);
    let t = count.wrapping_mul(10000);
    let mut b = [0u8; 0x20];
    assert!(vm.read_memory_at(KUSER_SHARED_DATA_P, &mut b).is_ok());
    assert_eq!(u64::from_le_bytes(b[8..16].try_into().unwrap()), t);
    assert_eq!(u32::from_le_bytes(b[16..20].try_into().unwrap()), (t >> 32) as u32);
    assert_eq!(u64::from_le_bytes(b[20..28].try_into().unwrap()), t);
    assert_eq!(u32::from_le_bytes(b[28..32].try_into().unwrap()), (t >> 32) as u32);
}

#[test]
fn serial_port_serves_queued_input() {
    let mut q: VecDeque<u8> = VecDeque::new();
    assert_eq!(serial_port_read(0x3FD, &mut q), Some(0x60));
    assert_eq!(serial_port_read(0x3F8, &mut q), Some(0));
    q.push_back(b'k');
    q.push_back(b'd');
    assert_eq!(serial_port_read(0x3FD, &mut q), Some(0x61));
    assert_eq!(serial_port_read(0x3F8, &mut q), Some(b'k'));
    assert_eq!(serial_port_read(0x3F8, &mut q), Some(b'd'));
    assert_eq!(q.len(), 0);
    assert_eq!(serial_port_read(0x60, &mut q), None);
}

#[test]
fn timer_pulse_needs_interrupts_enabled() {
    assert!(timer_interrupt_allowed(0x202));
    assert!(!timer_interrupt_allowed(0x2));
}
