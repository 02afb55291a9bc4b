//! The debugger's view of the guest: resume actions, registers, and memory
//! read and written through the guest's page tables.
use vstd::prelude::*;
use crate::paging::{translate, virt_to_phys};
use crate::vm::{in_bounds, spec_write, Vm};

verus! {

/// How the debugger asked the guest to resume.
#[derive(Clone, Copy, Debug, PartialEq, Eq, Structural)]
pub enum GdbResumeAction {
    Continue,
    Step,
}

/// Guest-debug control bit of the KVM interface: debugging enabled.
pub const GUESTDBG_ENABLE: u32 = 0x1;

/// Guest-debug control bit of the KVM interface: single-step.
pub const GUESTDBG_SINGLESTEP: u32 = 0x2;

/// Guest-debug control bit of the KVM interface: software breakpoints.
pub const GUESTDBG_USE_SW_BP: u32 = 0x10000;

/// The guest-debug control word for resuming: debugging and software
/// breakpoints always enabled, single-stepping when the action is a step.
pub fn resume_control(action: Option<GdbResumeAction>) -> (r: u32)
    ensures
        r == (if action == Some(GdbResumeAction::Step) { 0x10003u32 } else { 0x10001u32 }),
{
    let mut control = GUESTDBG_ENABLE | GUESTDBG_USE_SW_BP;
    assert(1u32 | 0x10000u32 == 0x10001u32) by (bit_vector);
    if let Some(GdbResumeAction::Step) = action {
        control |= GUESTDBG_SINGLESTEP;
        assert(0x10001u32 | 2u32 == 0x10003u32) by (bit_vector);
    }
    control
}

/// The general-purpose registers of the virtual processor, in KVM's order.
#[derive(Clone, Copy)]
pub struct GeneralRegisters {
    pub rax: u64,
    pub rbx: u64,
    pub rcx: u64,
    pub rdx: u64,
    pub rsi: u64,
    pub rdi: u64,
    pub rsp: u64,
    pub rbp: u64,
    pub r8: u64,
    pub r9: u64,
    pub r10: u64,
    pub r11: u64,
    pub r12: u64,
    pub r13: u64,
    pub r14: u64,
    pub r15: u64,
    pub rip: u64,
    pub rflags: u64,
}

/// The x86-64 core registers as the debugger numbers them: RAX, RBX, RCX,
/// RDX, RSI, RDI, RBP, RSP, R8..R15, then RIP, EFLAGS and the selectors of
/// CS, SS, DS, ES, FS and GS.
#[derive(Clone, Copy)]
pub struct CoreRegisters {
    pub regs: [u64; 16],
    pub rip: u64,
    pub eflags: u32,
    pub segments: [u32; 6],
}

/// The general-purpose registers in the debugger's order.
pub open spec fn gdb_order(g: GeneralRegisters) -> Seq<u64> {
    seq![g.rax, g.rbx, g.rcx, g.rdx, g.rsi, g.rdi, g.rbp, g.rsp, g.r8, g.r9, g.r10, g.r11, g.r12, g.r13, g.r14, g.r15]
}

/// The core registers the debugger reads: the general-purpose registers in
/// its order, RIP, the low 32 bits of RFLAGS and the six segment selectors
/// (CS, SS, DS, ES, FS, GS), widened.
pub fn read_core_registers(g: &GeneralRegisters, selectors: [u16; 6]) -> (r: CoreRegisters)
    ensures
        r.regs@ == gdb_order(*g),
        r.rip == g.rip,
        r.eflags == g.rflags as u32,
        forall|i: int| 0 <= i < 6 ==> r.segments@[i] == selectors@[i] as u32,
{
    let regs = [
        g.rax, g.rbx, g.rcx, g.rdx, g.rsi, g.rdi, g.rbp, g.rsp, g.r8, g.r9, g.r10, g.r11, g.r12, g.r13,
        g.r14, g.r15,
    ];
    assert(regs@ =~= gdb_order(*g));
    let segments = [
        selectors[0] as u32,
        selectors[1] as u32,
        selectors[2] as u32,
        selectors[3] as u32,
        selectors[4] as u32,
        selectors[5] as u32,
    ];
    CoreRegisters { regs, rip: g.rip, eflags: #[verifier::truncate] (g.rflags as u32), segments }
}

/// The general-purpose registers after the debugger writes `core`: each
/// register from its slot, RIP, and RFLAGS from the 32-bit EFLAGS.
pub fn write_core_registers(core: &CoreRegisters) -> (g: GeneralRegisters)
    ensures
        gdb_order(g) == core.regs@,
        g.rip == core.rip,
        g.rflags == core.eflags as u64,
{
    let r = core.regs;
    let g = GeneralRegisters {
        rax: r[0],
        rbx: r[1],
        rcx: r[2],
        rdx: r[3],
        rsi: r[4],
        rdi: r[5],
        rbp: r[6],
        rsp: r[7],
        r8: r[8],
        r9: r[9],
        r10: r[10],
        r11: r[11],
        r12: r[12],
        r13: r[13],
        r14: r[14],
        r15: r[15],
        rip: core.rip,
        rflags: core.eflags as u64,
    };
    assert(gdb_order(g) =~= core.regs@);
    g
}

/// Reads guest memory at virtual address `start_addr` into `data`, through
/// the page tables rooted at `cr3` (translating the start address only);
/// returns the number of bytes read: all of them, or none when the range
/// lies outside memory.
pub fn read_addrs(vm: &Vm, cr3: u64, start_addr: u64, data: &mut [u8]) -> (n: usize)
    ensures
        in_bounds(vm@.len(), translate(vm@, cr3, start_addr) as int, old(data)@.len() as int) ==> n
            == old(data)@.len() && final(data)@ == vm@.subrange(
            translate(vm@, cr3, start_addr) as int,
            translate(vm@, cr3, start_addr) + old(data)@.len(),
        ),
        !in_bounds(vm@.len(), translate(vm@, cr3, start_addr) as int, old(data)@.len() as int) ==> n == 0
            && final(data)@ == old(data)@,
{
    let paddr = virt_to_phys(vm, cr3, start_addr);
    match vm.read_memory_at(paddr, data) {
        Ok(()) => data.len(),
        Err(_) => 0,
    }
}

/// Writes `data` to guest memory at virtual address `start_addr`, through the
/// page tables rooted at `cr3` (translating the start address only); fails,
/// writing nothing, when the range lies outside memory.
pub fn write_addrs(vm: &mut Vm, cr3: u64, start_addr: u64, data: &[u8]) -> (r: Result<(), ()>)
    ensures
        ({
            let p = translate(old(vm)@, cr3, start_addr) as int;
            &&& in_bounds(old(vm)@.len(), p, data@.len() as int) ==> r is Ok && final(vm)@ == spec_write(
                old(vm)@,
                p,
                data@,
            )
            &&& !in_bounds(old(vm)@.len(), p, data@.len() as int) ==> r is Err && final(vm)@ == old(vm)@
        }),
{
    let paddr = virt_to_phys(vm, cr3, start_addr);
    match vm.write_memory_at(paddr, data) {
        Ok(()) => Ok(()),
        Err(_) => Err(()),
    }
}

/// What the debugger writes at a virtual address it reads back from there,
/// as long as the write leaves that address's translation as it was (it does
/// not rewrite the page tables used for it): `read_addrs` after `write_addrs`
/// at the same address and length gives the bytes written.
pub proof fn lemma_debugger_read_after_write(mem: Seq<u8>, cr3: u64, start_addr: u64, data: Seq<u8>)
    requires
        in_bounds(mem.len(), translate(mem, cr3, start_addr) as int, data.len() as int),
        translate(spec_write(mem, translate(mem, cr3, start_addr) as int, data), cr3, start_addr) == translate(
            mem,
            cr3,
            start_addr,
        ),
    ensures
        ({
            let m = spec_write(mem, translate(mem, cr3, start_addr) as int, data);
            let p = translate(m, cr3, start_addr) as int;
            &&& in_bounds(m.len(), p, data.len() as int)
            &&& m.subrange(p, p + data.len()) == data
        }),
{
    let p = translate(mem, cr3, start_addr) as int;
    assert(spec_write(mem, p, data).subrange(p, p + data.len()) =~= data);
}

} // verus!
