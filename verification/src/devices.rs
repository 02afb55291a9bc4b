//! The emulated devices of the virtual machine: the local APIC and HPET
//! registers, the serial port, the guest's clock in KUSER_SHARED_DATA, and
//! the decisions taken on each exit of the virtual processor.
use vstd::prelude::*;
use crate::bytes::{from_le32, le32, le64, lemma_le32_roundtrip, read_u32_le, u32_le, u64_le};
use crate::vm::{try_write, Vm};
use std::collections::VecDeque;

verus! {

/// Registers of the emulated local APIC.
#[derive(Clone, Copy)]
pub struct ApicState {
    /// Task priority register (offset 0x80).
    pub tpr: u32,
    /// Spurious interrupt vector register (offset 0xF0).
    pub svr: u32,
    /// LVT timer register (offset 0x320).
    pub lvt_timer: u32,
    /// Timer initial count register (offset 0x380).
    pub init_count: u32,
}

/// Registers of the emulated HPET.
#[derive(Clone, Copy)]
pub struct HpetState {
    /// General configuration register (offset 0x10).
    pub config: u64,
    /// Main counter value register (offset 0xF0), as last written.
    pub counter: u64,
}

/// The state of the emulated interrupt and timer devices.
#[derive(Clone, Copy)]
pub struct DeviceState {
    pub apic: ApicState,
    pub hpet: HpetState,
}

/// First and last address of the local APIC's register page.
pub open spec fn in_apic(addr: u64) -> bool {
    0xfee00000 <= addr <= 0xfee00fff
}

/// First and last address of the HPET's registers.
pub open spec fn in_hpet(addr: u64) -> bool {
    0xfed00000 <= addr <= 0xfed003ff
}

impl DeviceState {
    /// The devices at reset: task priority 0, APIC enabled with spurious
    /// vector 0xFF, timer masked, counts zero.
    pub fn new() -> (r: DeviceState)
        ensures
            r.apic == (ApicState { tpr: 0, svr: 0x1FF, lvt_timer: 0x10000, init_count: 0 }),
            r.hpet == (HpetState { config: 0, counter: 0 }),
    {
        DeviceState {
            apic: ApicState { tpr: 0, svr: 0x1FF, lvt_timer: 0x10000, init_count: 0 },
            hpet: HpetState { config: 0, counter: 0 },
        }
    }

    /// The 32-bit value that a read of APIC register `reg` returns; the
    /// current count runs down from the initial count with the exit counter.
    pub open spec fn apic_read_value(&self, reg: u64, loop_count: u64) -> u32 {
        if reg == 0x20 {
            0
        } else if reg == 0x30 {
            0x50014
        } else if reg == 0x80 {
            self.apic.tpr
        } else if reg == 0xF0 {
            self.apic.svr
        } else if reg == 0x320 {
            self.apic.lvt_timer
        } else if reg == 0x380 {
            self.apic.init_count
        } else if reg == 0x390 {
            if self.apic.init_count > 0 {
                self.apic.init_count.wrapping_sub((loop_count & 0xFFFF) as u32)
            } else {
                0x100000
            }
        } else {
            0
        }
    }

    /// The 64-bit value that a read of HPET register `reg` returns: its
    /// capabilities, its configuration, or its counter, which runs at
    /// 1 000 000 ticks per elapsed nanosecond, or 100 000 per exit when no
    /// start time is known.
    pub open spec fn hpet_read_value(&self, reg: u64, loop_count: u64, elapsed_nanos: Option<u64>) -> u64 {
        if reg == 0x00 {
            0x8086a20100000001
        } else if reg == 0x10 {
            self.hpet.config
        } else if reg == 0xF0 {
            match elapsed_nanos {
                Some(e) => (e * 1000000) as u64,
                None => (loop_count * 100000) as u64,
            }
        } else {
            0
        }
    }

    /// Serves a guest read of `data.len()` bytes at MMIO address `addr`: up to
    /// four bytes of an APIC register, or exactly four or eight bytes of an
    /// HPET register; other reads leave `data` as it is.
    pub fn handle_mmio_read(&self, addr: u64, data: &mut [u8], loop_count: u64, elapsed_nanos: Option<u64>)
        requires
            in_hpet(addr) && addr & 0x3FF == 0xF0 ==> match elapsed_nanos {
                Some(e) => e * 1000000 <= u64::MAX,
                None => loop_count * 100000 <= u64::MAX,
            },
        ensures
            in_apic(addr) ==> final(data)@ == ({
                let v = le32(self.apic_read_value(addr & 0xFFF, loop_count));
                let n = if old(data)@.len() < 4 { old(data)@.len() as int } else { 4 };
                v.subrange(0, n) + old(data)@.subrange(n, old(data)@.len() as int)
            }),
            !in_apic(addr) && in_hpet(addr) ==> final(data)@ == (if old(data)@.len() == 8 {
                le64(self.hpet_read_value(addr & 0x3FF, loop_count, elapsed_nanos))
            } else if old(data)@.len() == 4 {
                le32(self.hpet_read_value(addr & 0x3FF, loop_count, elapsed_nanos) as u32)
            } else {
                old(data)@
            }),
            !in_apic(addr) && !in_hpet(addr) ==> final(data)@ == old(data)@,
    {
        if addr >= 0xfee00000 && addr <= 0xfee00fff {
            let reg = addr & 0xFFF;
            let val: u32 = if reg == 0x20 {
                0x0
            } else if reg == 0x30 {
                0x50014
            } else if reg == 0x80 {
                self.apic.tpr
            } else if reg == 0xF0 {
                self.apic.svr
            } else if reg == 0x320 {
                self.apic.lvt_timer
            } else if reg == 0x380 {
                self.apic.init_count
            } else if reg == 0x390 {
                if self.apic.init_count > 0 {
                    self.apic.init_count.wrapping_sub((loop_count & 0xFFFF) as u32)
                } else {
                    0x100000
                }
            } else {
                0
            };
            let bytes = u32_le(val);
            let len = if data.len() < 4 { data.len() } else { 4 };
            let mut i: usize = 0;
            while i < len
                invariant
                    len <= 4,
                    len <= data@.len(),
                    data@.len() == old(data)@.len(),
                    bytes@ == le32(val),
                    i <= len,
                    forall|j: int| 0 <= j < i ==> data@[j] == bytes@[j],
                    forall|j: int| len <= j < data@.len() ==> data@[j] == old(data)@[j],
                decreases len - i,
            {
                data[i] = bytes[i];
                i += 1;
            }
            assert(data@ =~= bytes@.subrange(0, len as int) + old(data)@.subrange(len as int, old(data)@.len() as int));
        } else if addr >= 0xfed00000 && addr <= 0xfed003ff {
            let reg = addr & 0x3FF;
            let val: u64 = if reg == 0x00 {
                0x8086a20100000001
            } else if reg == 0x10 {
                self.hpet.config
            } else if reg == 0xF0 {
                match elapsed_nanos {
                    Some(elapsed) => elapsed * 1000000,
                    None => loop_count * 100000,
                }
            } else {
                0
            };
            if data.len() == 8 {
                let bytes = u64_le(val);
                let mut i: usize = 0;
                while i < 8
                    invariant
                        data@.len() == 8,
                        i <= 8,
                        forall|j: int| 0 <= j < i ==> data@[j] == bytes@[j],
                    decreases 8 - i,
                {
                    data[i] = bytes[i];
                    i += 1;
                }
                assert(data@ =~= le64(val));
            } else if data.len() == 4 {
                let bytes = u32_le(#[verifier::truncate] (val as u32));
                let mut i: usize = 0;
                while i < 4
                    invariant
                        data@.len() == 4,
                        i <= 4,
                        forall|j: int| 0 <= j < i ==> data@[j] == bytes@[j],
                    decreases 4 - i,
                {
                    data[i] = bytes[i];
                    i += 1;
                }
                assert(data@ =~= le32(val as u32));
            }
        }
    }

    /// The devices after a guest write of `data` at MMIO address `addr`: the
    /// first four bytes set a writable APIC register (task priority, spurious
    /// vector, LVT timer, initial count), or the HPET's configuration or
    /// counter when at least four bytes are written; other writes change
    /// nothing.
    pub open spec fn after_mmio_write(self, addr: u64, data: Seq<u8>) -> DeviceState {
        if in_apic(addr) {
            let v = from_le32(data.subrange(0, 4));
            let reg = addr & 0xFFF;
            DeviceState {
                apic: if reg == 0x80 {
                    ApicState { tpr: v, ..self.apic }
                } else if reg == 0xF0 {
                    ApicState { svr: v, ..self.apic }
                } else if reg == 0x320 {
                    ApicState { lvt_timer: v, ..self.apic }
                } else if reg == 0x380 {
                    ApicState { init_count: v, ..self.apic }
                } else {
                    self.apic
                },
                ..self
            }
        } else if in_hpet(addr) && data.len() >= 4 {
            let v = from_le32(data.subrange(0, 4));
            let reg = addr & 0x3FF;
            DeviceState {
                hpet: if reg == 0x10 {
                    HpetState { config: v as u64, ..self.hpet }
                } else if reg == 0xF0 {
                    HpetState { counter: v as u64, ..self.hpet }
                } else {
                    self.hpet
                },
                ..self
            }
        } else {
            self
        }
    }

    /// Serves a guest write of `data` at MMIO address `addr`.
    pub fn handle_mmio_write(&mut self, addr: u64, data: &[u8])
        requires
            in_apic(addr) ==> data@.len() >= 4,
        ensures
            *final(self) == old(self).after_mmio_write(addr, data@),
    {
        if addr >= 0xfee00000 && addr <= 0xfee00fff {
            let val = read_u32_le(data, 0);
            let reg = addr & 0xFFF;
            if reg == 0x80 {
                self.apic.tpr = val;
            } else if reg == 0xF0 {
                self.apic.svr = val;
            } else if reg == 0x320 {
                self.apic.lvt_timer = val;
            } else if reg == 0x380 {
                self.apic.init_count = val;
            }
        } else if addr >= 0xfed00000 && addr <= 0xfed003ff {
            if data.len() >= 4 {
                let val = read_u32_le(data, 0);
                let reg = addr & 0x3FF;
                if reg == 0x10 {
                    self.hpet.config = val as u64;
                } else if reg == 0xF0 {
                    self.hpet.counter = val as u64;
                }
            }
        }
    }
}

/// A value written to a writable APIC register is read back from it.
pub proof fn lemma_apic_register_roundtrip(dev: DeviceState, reg: u64, v: u32, loop_count: u64)
    requires
        reg == 0x80 || reg == 0xF0 || reg == 0x320 || reg == 0x380,
    ensures
        dev.after_mmio_write((0xfee00000 + reg) as u64, le32(v)).apic_read_value(reg, loop_count) == v,
{
    let addr = (0xfee00000 + reg) as u64;
    assert(addr & 0xFFF == reg) by (bit_vector)
        requires
            addr == 0xfee00000 + reg,
            reg <= 0x380,
    ;
    assert(le32(v).subrange(0, 4) =~= le32(v));
    lemma_le32_roundtrip(v);
}

/// A value written to the HPET's configuration register is read back from it.
pub proof fn lemma_hpet_config_roundtrip(dev: DeviceState, v: u32, loop_count: u64, elapsed_nanos: Option<u64>)
    ensures
        dev.after_mmio_write(0xfed00010, le32(v)).hpet_read_value(0x10, loop_count, elapsed_nanos) == v as u64,
{
    assert(0xfed00010u64 & 0x3FF == 0x10) by (bit_vector);
    assert(le32(v).subrange(0, 4) =~= le32(v));
    lemma_le32_roundtrip(v);
}

/// Physical address of KUSER_SHARED_DATA, where the guest reads its clock.
pub const KUSER_SHARED_DATA_P: u64 = 0x9000000;

/// Guest memory after the clock is advanced to `count` exits: the interrupt
/// time at +0x08 and the system time at +0x14, each followed by a copy of
/// its high 32 bits, both `count` times 10 000 (100 ns units), wrapping.
pub open spec fn windows_time_memory(mem: Seq<u8>, count: u64) -> Seq<u8> {
    let t = count.wrapping_mul(10000);
    let high = (t >> 32) as u32;
    let m1 = try_write(mem, KUSER_SHARED_DATA_P + 0x08, le64(t));
    let m2 = try_write(m1, KUSER_SHARED_DATA_P + 0x10, le32(high));
    let m3 = try_write(m2, KUSER_SHARED_DATA_P + 0x14, le64(t));
    try_write(m3, KUSER_SHARED_DATA_P + 0x1C, le32(high))
}

/// Advances the guest's clock in KUSER_SHARED_DATA to `count` exits of the
/// virtual processor; a field that does not fit in memory is skipped.
pub fn update_windows_time(vm: &mut Vm, count: u64)
    ensures
        final(vm)@ == windows_time_memory(old(vm)@, count),
{
    let kuser_p: u64 = KUSER_SHARED_DATA_P;
    let virtual_time = count.wrapping_mul(10000);
    let time_bytes = u64_le(virtual_time);
    let high_bytes = (virtual_time >> 32) as u32;
    let _ = vm.write_memory_at(kuser_p + 0x08, &time_bytes);
    let _ = vm.write_memory_at(kuser_p + 0x10, &u32_le(high_bytes));
    let _ = vm.write_memory_at(kuser_p + 0x14, &time_bytes);
    let _ = vm.write_memory_at(kuser_p + 0x1C, &u32_le(high_bytes));
}

/// COM1's data port.
pub const SERIAL_DATA_PORT: u16 = 0x3F8;

/// COM1's line status port.
pub const SERIAL_STATUS_PORT: u16 = 0x3FD;

/// Serves a guest read of I/O port `port` from the serial input queue: the
/// data port yields the next queued byte (zero when none), the line status
/// port reports whether a byte is waiting; any other port is not the
/// serial port's and yields nothing.
pub fn serial_port_read(port: u16, queue: &mut VecDeque<u8>) -> (r: Option<u8>)
    ensures
        port == SERIAL_DATA_PORT ==> if old(queue)@.len() > 0 {
            r == Some(old(queue)@[0]) && final(queue)@ == old(queue)@.drop_first()
        } else {
            r == Some(0u8) && final(queue)@ == old(queue)@
        },
        port == SERIAL_STATUS_PORT ==> r == Some(if old(queue)@.len() == 0 { 0x60u8 } else { 0x61u8 })
            && final(queue)@ == old(queue)@,
        port != SERIAL_DATA_PORT && port != SERIAL_STATUS_PORT ==> r is None && final(queue)@ == old(queue)@,
{
    if port == SERIAL_DATA_PORT {
        match queue.pop_front() {
            Some(b) => Some(b),
            None => Some(0),
        }
    } else if port == SERIAL_STATUS_PORT {
        if queue.len() == 0 {
            Some(0x60)
        } else {
            Some(0x61)
        }
    } else {
        None
    }
}

/// Interrupts are enabled in `rflags` (its IF bit), so the timer line may be
/// pulsed.
pub fn timer_interrupt_allowed(rflags: u64) -> (r: bool)
    ensures
        r == (rflags & 0x200 != 0),
{
    rflags & 0x200 != 0
}

/// The interrupt routes of GSIs `0..n`, as (GSI, interrupt controller, pin):
/// each GSI to the I/O APIC (controller 2) on its own pin, but GSI 0, the
/// timer, on pin 2; GSIs below 16 also to the master PIC (controller 0) or,
/// from 8, the slave PIC (controller 1), on pin GSI mod 8.
pub open spec fn gsi_route_entries(n: nat) -> Seq<(u32, u32, u32)>
    decreases n,
{
    if n == 0 {
        Seq::empty()
    } else {
        let i = (n - 1) as u32;
        let io = gsi_route_entries((n - 1) as nat).push((i, 2u32, if i == 0 { 2u32 } else { i }));
        if i < 16 {
            io.push((i, if i < 8 { 0u32 } else { 1u32 }, i % 8))
        } else {
            io
        }
    }
}

/// The interrupt routing table of the virtual machine's 24 GSIs, in the order
/// it is handed to KVM.
pub fn gsi_routes() -> (r: Vec<(u32, u32, u32)>)
    ensures
        r@ == gsi_route_entries(24),
{
    let mut r: Vec<(u32, u32, u32)> = Vec::new();
    let mut i: u32 = 0;
    while i < 24
        invariant
            i <= 24,
            r@ == gsi_route_entries(i as nat),
        decreases 24 - i,
    {
        r.push((i, 2, if i == 0 { 2 } else { i }));
        if i < 16 {
            r.push((i, if i < 8 { 0 } else { 1 }, i % 8));
        }
        i += 1;
    }
    r
}

} // verus!
