//! The processor state in which the kernel is entered: long mode with paging,
//! the GDT and TSS, segment registers, MSRs and the entry registers; the
//! CPUID leaves the guest is shown; and what is done on each exit.
use vstd::prelude::*;
use crate::bytes::{le64, u64_le, u64s_le, le64s, zeroed, zeros, put};
use crate::vm::{write_refused, in_bounds, spec_write, Vm};

verus! {

/// Virtual address at which the kernel sees low physical memory.
pub const K_VIRT_BASE: u64 = 0xFFFFF80000000000;

/// Physical address of the GDT.
pub const GDT_PBASE: u64 = 0x8000000;

/// Physical address of the TSS.
pub const TSS_PBASE: u64 = 0x8001000;

/// Virtual address of the TSS.
pub const TSS_VBASE: u64 = 0xFFFFF80008001000;

/// Limit of the TSS (104 bytes).
pub const TSS_LIMIT: u64 = 103;

/// A segment register as KVM takes it.
#[derive(Clone, Copy, PartialEq, Eq, Structural)]
pub struct SegmentState {
    pub base: u64,
    pub limit: u32,
    pub selector: u16,
    pub type_: u8,
    pub present: u8,
    pub dpl: u8,
    pub db: u8,
    pub s: u8,
    pub l: u8,
    pub g: u8,
}

/// A flat 64-bit ring-0 segment: code (execute/read, long) or data
/// (read/write).
pub open spec fn flat_segment(selector: u16, is_code: bool) -> SegmentState {
    SegmentState {
        base: 0,
        limit: 0xffffffff,
        selector,
        type_: if is_code { 11 } else { 3 },
        present: 1,
        dpl: 0,
        db: 0,
        s: 1,
        l: if is_code { 1 } else { 0 },
        g: 1,
    }
}

/// A flat 64-bit ring-0 segment: code (execute/read, long) or data
/// (read/write).
pub fn seg_64(selector: u16, is_code: bool) -> (r: SegmentState)
    ensures
        r == flat_segment(selector, is_code),
{
    SegmentState {
        base: 0,
        limit: 0xffffffff,
        selector,
        type_: if is_code { 11 } else { 3 },
        present: 1,
        dpl: 0,
        db: 0,
        s: 1,
        l: if is_code { 1 } else { 0 },
        g: 1,
    }
}

/// The registers of the boot processor at the kernel's entry point.
pub struct LongModeState {
    pub cr0: u64,
    pub cr3: u64,
    pub cr4: u64,
    pub efer: u64,
    pub gdt_base: u64,
    pub gdt_limit: u16,
    pub idt_base: u64,
    pub idt_limit: u16,
    pub cs: SegmentState,
    pub ds: SegmentState,
    pub es: SegmentState,
    pub ss: SegmentState,
    pub gs: SegmentState,
    pub tr: SegmentState,
    /// Model-specific registers to set, as (index, value).
    pub msrs: Vec<(u32, u64)>,
    pub rip: u64,
    pub rsp: u64,
    pub rflags: u64,
    pub rcx: u64,
    pub rdx: u64,
}

/// Paging, protection, write protection, alignment mask and numeric errors on.
pub const CR0_LONG_MODE: u64 = 0x80050023;

/// PAE, global pages, FXSR, unmasked SIMD exceptions and FSGSBASE on.
pub const CR4_LONG_MODE: u64 = 0x106A0;

/// SYSCALL, long mode enabled and active, and no-execute on.
pub const EFER_LONG_MODE: u64 = 0xD01;

impl LongModeState {
    /// The registers for entering the kernel at `krnl_entry_v` with the stack
    /// at `stack_v` and the loader parameter block at `lpb_v` (also in RCX and
    /// RDX); GS and the GS base MSR point at the KPCR 0x10000 bytes after the
    /// loader parameter block; the APIC base MSR enables the APIC at
    /// 0xFEE00000.
    pub open spec fn spec_for(krnl_entry_v: u64, stack_v: u64, lpb_v: u64) -> (SegmentState, u64, Seq<(u32, u64)>) {
        let kpcr = (lpb_v + 0x10000) as u64;
        (
            SegmentState { base: kpcr, ..flat_segment(0x18, false) },
            (stack_v - 0x100) as u64,
            seq![(0xc0000080u32, EFER_LONG_MODE), (0xc0000101u32, kpcr), (0x1bu32, 0xfee00900u64)],
        )
    }

    /// The registers for entering the kernel.
    pub fn for_kernel(krnl_entry_v: u64, stack_v: u64, lpb_v: u64) -> (r: LongModeState)
        requires
            stack_v >= 0x100,
            lpb_v + 0x10000 <= u64::MAX,
        ensures
            r.cr0 == CR0_LONG_MODE,
            r.cr3 == 0x8102000,
            r.cr4 == CR4_LONG_MODE,
            r.efer == EFER_LONG_MODE,
            r.gdt_base == K_VIRT_BASE + GDT_PBASE,
            r.gdt_limit == 32 * 8 - 1,
            r.idt_base == K_VIRT_BASE + GDT_PBASE + 0x20000,
            r.idt_limit == 0x0FFF,
            r.cs == flat_segment(0x10, true),
            r.ds == flat_segment(0x18, false),
            r.es == flat_segment(0x18, false),
            r.ss == flat_segment(0x18, false),
            r.gs == Self::spec_for(krnl_entry_v, stack_v, lpb_v).0,
            r.tr == (SegmentState {
                base: TSS_VBASE,
                limit: TSS_LIMIT as u32,
                selector: 0x40,
                type_: 9,
                present: 1,
                dpl: 0,
                db: 0,
                s: 0,
                l: 0,
                g: 0,
            }),
            r.msrs@ == Self::spec_for(krnl_entry_v, stack_v, lpb_v).2,
            r.rip == krnl_entry_v,
            r.rsp == Self::spec_for(krnl_entry_v, stack_v, lpb_v).1,
            r.rflags == 0x2,
            r.rcx == lpb_v,
            r.rdx == lpb_v,
    {
        let kpcr_vaddr = lpb_v + 0x10000;
        let ds = seg_64(0x18, false);
        let mut gs = ds;
        gs.base = kpcr_vaddr;
        let mut msrs: Vec<(u32, u64)> = Vec::new();
        msrs.push((0xc0000080, EFER_LONG_MODE));
        msrs.push((0xc0000101, kpcr_vaddr));
        msrs.push((0x1b, 0xfee00000 | 0x900));
        assert(0xfee00000u64 | 0x900 == 0xfee00900u64) by (bit_vector);
        assert(msrs@ =~= Self::spec_for(krnl_entry_v, stack_v, lpb_v).2);
        LongModeState {
            cr0: CR0_LONG_MODE,
            cr3: GDT_PBASE + 0x100000 + 0x2000,
            cr4: CR4_LONG_MODE,
            efer: EFER_LONG_MODE,
            gdt_base: K_VIRT_BASE + GDT_PBASE,
            gdt_limit: (32 * 8 - 1) as u16,
            idt_base: K_VIRT_BASE + GDT_PBASE + 0x20000,
            idt_limit: 0x0FFF,
            cs: seg_64(0x10, true),
            ds,
            es: ds,
            ss: ds,
            gs,
            tr: SegmentState {
                base: TSS_VBASE,
                limit: TSS_LIMIT as u32,
                selector: 0x40,
                type_: 9,
                present: 1,
                dpl: 0,
                db: 0,
                s: 0,
                l: 0,
                g: 0,
            },
            msrs,
            rip: krnl_entry_v,
            rsp: stack_v - 0x100,
            rflags: 0x2,
            rcx: lpb_v,
            rdx: lpb_v,
        }
    }
}

/// The low and high halves of the 64-bit TSS descriptor for the TSS at
/// `TSS_VBASE`: available 64-bit TSS, present, limit 103.
pub open spec fn tss_descriptor() -> (u64, u64) {
    (
        (TSS_VBASE & 0xffffff) << 16 | (TSS_VBASE & 0xff000000) << 32 | 0x0000890000000000 | TSS_LIMIT,
        TSS_VBASE >> 32,
    )
}

/// The GDT the kernel is entered with: ring-0 code at selectors 0x08 and
/// 0x10, ring-0 data at 0x18, ring-3 code at 0x20, ring-3 data at 0x28 and
/// 0x50, the TSS at 0x40.
pub open spec fn long_mode_gdt() -> Seq<u64> {
    Seq::new(32, |i: int|
        if i == 1 || i == 2 {
            0x00af9a000000ffffu64
        } else if i == 3 {
            0x00cf92000000ffffu64
        } else if i == 4 {
            0x00affb000000ffffu64
        } else if i == 5 || i == 10 {
            0x00cff3000000ffffu64
        } else if i == 8 {
            tss_descriptor().0
        } else if i == 9 {
            tss_descriptor().1
        } else {
            0u64
        })
}

/// The TSS: all zero but RSP0, the ring-0 stack, at offset 4.
pub open spec fn tss_image(stack_v: u64) -> Seq<u8> {
    spec_write(zeros(104), 4, le64(stack_v))
}

/// Writes the GDT at `GDT_PBASE` and the TSS with ring-0 stack `stack_v` at
/// `TSS_PBASE`. Fails when either does not fit; the GDT is then written if
/// it fits.
pub fn write_long_mode_tables(vm: &mut Vm, stack_v: u64) -> (r: Result<(), &'static str>)
    ensures
        !in_bounds(old(vm)@.len(), GDT_PBASE as int, 256) ==> write_refused(r) && final(vm)@ == old(vm)@,
        in_bounds(old(vm)@.len(), GDT_PBASE as int, 256) && !in_bounds(old(vm)@.len(), TSS_PBASE as int, 104)
            ==> write_refused(r) && final(vm)@ == spec_write(old(vm)@, GDT_PBASE as int, le64s(long_mode_gdt())),
        in_bounds(old(vm)@.len(), TSS_PBASE as int, 104) ==> r is Ok && final(vm)@ == spec_write(
            spec_write(old(vm)@, GDT_PBASE as int, le64s(long_mode_gdt())),
            TSS_PBASE as int,
            tss_image(stack_v),
        ),
{
    let mut gdt: Vec<u64> = vec![0u64; 32];
    proof {
        assert forall|i: int| 0 <= i < 32 implies gdt@[i] == 0u64 by {
            assert(vstd::pervasive::cloned(0u64, gdt@[i]));
        }
    }
    gdt.set(1, 0x00af9a000000ffff);
    gdt.set(2, 0x00af9a000000ffff);
    gdt.set(3, 0x00cf92000000ffff);
    gdt.set(4, 0x00affb000000ffff);
    gdt.set(5, 0x00cff3000000ffff);
    gdt.set(10, 0x00cff3000000ffff);
    let tss_low = (TSS_VBASE & 0xffffff) << 16 | (TSS_VBASE & 0xff000000) << 32 | 0x0000890000000000 | TSS_LIMIT;
    let tss_high = TSS_VBASE >> 32;
    gdt.set(8, tss_low);
    gdt.set(9, tss_high);
    assert(gdt@ =~= long_mode_gdt());
    let gdt_bytes = u64s_le(gdt.as_slice());
    vm.write_memory_at(GDT_PBASE, gdt_bytes.as_slice())?;

    let mut tss = zeroed(104);
    put(tss.as_mut_slice(), 4, &u64_le(stack_v));
    vm.write_memory_at(TSS_PBASE, tss.as_slice())?;
    Ok(())
}

/// CPUID leaf 1 ECX with the hypervisor-present bit (31) and the x2APIC bit
/// (21) cleared; leaf 0x40000000 (the hypervisor vendor leaf) emptied; other
/// leaves unchanged. Returns the new EBX, ECX and EDX.
pub fn patch_cpuid_entry(function: u32, ebx: u32, ecx: u32, edx: u32) -> (r: (u32, u32, u32))
    ensures
        function == 1 ==> r == (ebx, ecx & !(1u32 << 31) & !(1u32 << 21), edx),
        function == 0x40000000 ==> r == (0u32, 0u32, 0u32),
        function != 1 && function != 0x40000000 ==> r == (ebx, ecx, edx),
{
    let mut ebx = ebx;
    let mut ecx = ecx;
    let mut edx = edx;
    if function == 0x1 {
        ecx &= !(1u32 << 31);
        ecx &= !(1u32 << 21);
    }
    if function == 0x40000000 {
        ebx = 0;
        ecx = 0;
        edx = 0;
    }
    (ebx, ecx, edx)
}

/// Why the virtual processor stopped, as reported to the debugger.
#[derive(Clone, Copy, PartialEq, Eq, Structural, Debug)]
pub enum StopReason {
    /// A single step or breakpoint completed.
    DoneStep,
    /// SIGTRAP.
    Trap,
    /// SIGSEGV: the guest shut down (triple fault).
    Segv,
}

/// An exit of the virtual processor, as far as the decision depends on it.
#[derive(Clone, Copy, PartialEq, Eq, Structural, Debug)]
pub enum VcpuExitKind {
    Debug,
    IrqWindowOpen,
    IoIn,
    IoOut { port: u16, value: u8 },
    MmioRead,
    MmioWrite,
    Hlt,
    Shutdown,
    Other,
}

/// What to do after an exit.
#[derive(Clone, Copy, PartialEq, Eq, Structural, Debug)]
pub enum ExitAction {
    /// Run the processor again (after serving the access, for I/O and MMIO).
    Resume,
    /// Print the byte written to the serial port and pass it to WinDbg, then run again.
    SerialOut(u8),
    /// Handle the diagnostic byte written to port 0xF9, then stop.
    Diagnostic(u8),
    /// Stop and report to the debugger.
    Stop(StopReason),
}

/// Port of the diagnostic trap.
pub const DIAGNOSTIC_PORT: u16 = 0xF9;

/// The decision taken on an exit of the virtual processor.
pub fn exit_action(exit: VcpuExitKind) -> (r: ExitAction)
    ensures
        r == match exit {
            VcpuExitKind::Debug => ExitAction::Stop(StopReason::DoneStep),
            VcpuExitKind::IoOut { port, value } => if port == DIAGNOSTIC_PORT {
                ExitAction::Diagnostic(value)
            } else if port == 0x3F8 {
                ExitAction::SerialOut(value)
            } else {
                ExitAction::Resume
            },
            VcpuExitKind::Shutdown => ExitAction::Stop(StopReason::Segv),
            VcpuExitKind::Other => ExitAction::Stop(StopReason::Trap),
            _ => ExitAction::Resume,
        },
{
    match exit {
        VcpuExitKind::Debug => ExitAction::Stop(StopReason::DoneStep),
        VcpuExitKind::IrqWindowOpen => ExitAction::Resume,
        VcpuExitKind::IoIn => ExitAction::Resume,
        VcpuExitKind::IoOut { port, value } => {
            if port == DIAGNOSTIC_PORT {
                ExitAction::Diagnostic(value)
            } else if port == 0x3F8 {
                ExitAction::SerialOut(value)
            } else {
                ExitAction::Resume
            }
        },
        VcpuExitKind::MmioRead => ExitAction::Resume,
        VcpuExitKind::MmioWrite => ExitAction::Resume,
        VcpuExitKind::Hlt => ExitAction::Resume,
        VcpuExitKind::Shutdown => ExitAction::Stop(StopReason::Segv),
        VcpuExitKind::Other => ExitAction::Stop(StopReason::Trap),
    }
}

} // verus!
