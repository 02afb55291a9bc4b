//! The structures that the Windows kernel reads at boot: the processor
//! control region and block, the loader parameter block and its extension,
//! memory descriptors and module entries; and the code that writes them into
//! guest memory.
use vstd::prelude::*;
use crate::bytes::{le16, le32, le32s, le64, le64s, put, u16_le, u32_le, u32s_le, u64_le, u64s_le, zeroed, zeros};
use crate::nt_types::{LIST_ENTRY, UNICODE_STRING};
use crate::vm::{write_refused, in_bounds, spec_write, Vm};
use vstd::array::spec_array_fill_for_copy_type;

verus! {

/// _TYPE_OF_MEMORY: the kind of a memory descriptor; its code is its position,
/// from LoaderFree = 0 to LoaderMemoryMax = 18.
#[allow(non_camel_case_types)]
#[derive(Clone, Copy, Debug, PartialEq, Eq, Structural)]
pub enum TYPE_OF_MEMORY {
    LoaderFree,
    LoaderBad,
    LoaderLoadedProgram,
    LoaderFirmwareTemporary,
    LoaderFirmwarePermanent,
    LoaderOsloaderHeap,
    LoaderOsloaderStack,
    LoaderSystemCode,
    LoaderHalCode,
    LoaderBootLdrPage,
    LoaderConsoleInPage,
    LoaderConsoleOutPage,
    LoaderStartupPcrPage,
    LoaderStartupStackPage,
    LoaderStartupDataPage,
    LoaderMemoryData,
    LoaderMemoryTemp,
    LoaderMemorySpecial,
    LoaderMemoryMax,
}

impl TYPE_OF_MEMORY {
    /// The 32-bit code the kernel stores for this kind.
    pub open spec fn code(self) -> u32 {
        match self {
            TYPE_OF_MEMORY::LoaderFree => 0,
            TYPE_OF_MEMORY::LoaderBad => 1,
            TYPE_OF_MEMORY::LoaderLoadedProgram => 2,
            TYPE_OF_MEMORY::LoaderFirmwareTemporary => 3,
            TYPE_OF_MEMORY::LoaderFirmwarePermanent => 4,
            TYPE_OF_MEMORY::LoaderOsloaderHeap => 5,
            TYPE_OF_MEMORY::LoaderOsloaderStack => 6,
            TYPE_OF_MEMORY::LoaderSystemCode => 7,
            TYPE_OF_MEMORY::LoaderHalCode => 8,
            TYPE_OF_MEMORY::LoaderBootLdrPage => 9,
            TYPE_OF_MEMORY::LoaderConsoleInPage => 10,
            TYPE_OF_MEMORY::LoaderConsoleOutPage => 11,
            TYPE_OF_MEMORY::LoaderStartupPcrPage => 12,
            TYPE_OF_MEMORY::LoaderStartupStackPage => 13,
            TYPE_OF_MEMORY::LoaderStartupDataPage => 14,
            TYPE_OF_MEMORY::LoaderMemoryData => 15,
            TYPE_OF_MEMORY::LoaderMemoryTemp => 16,
            TYPE_OF_MEMORY::LoaderMemorySpecial => 17,
            TYPE_OF_MEMORY::LoaderMemoryMax => 18,
        }
    }

    /// The 32-bit code the kernel stores for this kind.
    pub fn to_code(&self) -> (r: u32)
        ensures
            r == self.code(),
    {
        match self {
            TYPE_OF_MEMORY::LoaderFree => 0,
            TYPE_OF_MEMORY::LoaderBad => 1,
            TYPE_OF_MEMORY::LoaderLoadedProgram => 2,
            TYPE_OF_MEMORY::LoaderFirmwareTemporary => 3,
            TYPE_OF_MEMORY::LoaderFirmwarePermanent => 4,
            TYPE_OF_MEMORY::LoaderOsloaderHeap => 5,
            TYPE_OF_MEMORY::LoaderOsloaderStack => 6,
            TYPE_OF_MEMORY::LoaderSystemCode => 7,
            TYPE_OF_MEMORY::LoaderHalCode => 8,
            TYPE_OF_MEMORY::LoaderBootLdrPage => 9,
            TYPE_OF_MEMORY::LoaderConsoleInPage => 10,
            TYPE_OF_MEMORY::LoaderConsoleOutPage => 11,
            TYPE_OF_MEMORY::LoaderStartupPcrPage => 12,
            TYPE_OF_MEMORY::LoaderStartupStackPage => 13,
            TYPE_OF_MEMORY::LoaderStartupDataPage => 14,
            TYPE_OF_MEMORY::LoaderMemoryData => 15,
            TYPE_OF_MEMORY::LoaderMemoryTemp => 16,
            TYPE_OF_MEMORY::LoaderMemorySpecial => 17,
            TYPE_OF_MEMORY::LoaderMemoryMax => 18,
        }
    }

    /// The kind whose code is `v`, if there is one.
    pub fn from_code(v: u32) -> (r: Option<TYPE_OF_MEMORY>)
        ensures
            v < 19 ==> r is Some && r->0.code() == v,
            v >= 19 ==> r is None,
    {
        match v {
            0 => Some(TYPE_OF_MEMORY::LoaderFree),
            1 => Some(TYPE_OF_MEMORY::LoaderBad),
            2 => Some(TYPE_OF_MEMORY::LoaderLoadedProgram),
            3 => Some(TYPE_OF_MEMORY::LoaderFirmwareTemporary),
            4 => Some(TYPE_OF_MEMORY::LoaderFirmwarePermanent),
            5 => Some(TYPE_OF_MEMORY::LoaderOsloaderHeap),
            6 => Some(TYPE_OF_MEMORY::LoaderOsloaderStack),
            7 => Some(TYPE_OF_MEMORY::LoaderSystemCode),
            8 => Some(TYPE_OF_MEMORY::LoaderHalCode),
            9 => Some(TYPE_OF_MEMORY::LoaderBootLdrPage),
            10 => Some(TYPE_OF_MEMORY::LoaderConsoleInPage),
            11 => Some(TYPE_OF_MEMORY::LoaderConsoleOutPage),
            12 => Some(TYPE_OF_MEMORY::LoaderStartupPcrPage),
            13 => Some(TYPE_OF_MEMORY::LoaderStartupStackPage),
            14 => Some(TYPE_OF_MEMORY::LoaderStartupDataPage),
            15 => Some(TYPE_OF_MEMORY::LoaderMemoryData),
            16 => Some(TYPE_OF_MEMORY::LoaderMemoryTemp),
            17 => Some(TYPE_OF_MEMORY::LoaderMemorySpecial),
            18 => Some(TYPE_OF_MEMORY::LoaderMemoryMax),
            _ => None,
        }
    }
}

/// _KSPECIAL_REGISTERS: the processor's special registers, 0xf0 bytes.
#[allow(non_camel_case_types, non_snake_case)]
pub struct KSPECIAL_REGISTERS {
    /// Offset 0x0.
    pub Cr0: u64,
    /// Offset 0x8.
    pub Cr2: u64,
    /// Offset 0x10.
    pub Cr3: u64,
    /// Offset 0x18.
    pub Cr4: u64,
    /// Offset 0x20.
    pub KernelDr0: u64,
    /// Offset 0x28.
    pub KernelDr1: u64,
    /// Offset 0x30.
    pub KernelDr2: u64,
    /// Offset 0x38.
    pub KernelDr3: u64,
    /// Offset 0x40.
    pub KernelDr6: u64,
    /// Offset 0x48.
    pub KernelDr7: u64,
    /// Offset 0x50.
    pub Gdtr: [u8; 16],
    /// Offset 0x60.
    pub Idtr: [u8; 16],
    /// Offset 0x70.
    pub Tr: u16,
    /// Offset 0x72.
    pub Ldtr: u16,
    /// Offset 0x74.
    pub MxCsr: u32,
    /// Offset 0x78.
    pub DebugControl: u64,
    /// Offset 0x80.
    pub LastBranchToRip: u64,
    /// Offset 0x88.
    pub LastBranchFromRip: u64,
    /// Offset 0x90.
    pub LastExceptionToRip: u64,
    /// Offset 0x98.
    pub LastExceptionFromRip: u64,
    /// Offset 0xa0.
    pub Cr8: u64,
    /// Offset 0xa8.
    pub MsrGsBase: u64,
    /// Offset 0xb0.
    pub MsrGsSwap: u64,
    /// Offset 0xb8.
    pub MsrStar: u64,
    /// Offset 0xc0.
    pub MsrLStar: u64,
    /// Offset 0xc8.
    pub MsrCStar: u64,
    /// Offset 0xd0.
    pub MsrSyscallMask: u64,
    /// Offset 0xd8.
    pub Xcr0: u64,
    /// Offset 0xe0.
    pub MsrFsBase: u64,
    /// Offset 0xe8.
    pub SpecialPadding0: u64,
}

impl KSPECIAL_REGISTERS {
    /// The structure as the kernel reads it: each field little endian at its
    /// offset, padding bytes zero.
    pub open spec fn image(self) -> Seq<u8> {
        let b = zeros(0xf0);
        let b = spec_write(b, 0x0, le64(self.Cr0));
        let b = spec_write(b, 0x8, le64(self.Cr2));
        let b = spec_write(b, 0x10, le64(self.Cr3));
        let b = spec_write(b, 0x18, le64(self.Cr4));
        let b = spec_write(b, 0x20, le64(self.KernelDr0));
        let b = spec_write(b, 0x28, le64(self.KernelDr1));
        let b = spec_write(b, 0x30, le64(self.KernelDr2));
        let b = spec_write(b, 0x38, le64(self.KernelDr3));
        let b = spec_write(b, 0x40, le64(self.KernelDr6));
        let b = spec_write(b, 0x48, le64(self.KernelDr7));
        let b = spec_write(b, 0x50, self.Gdtr@);
        let b = spec_write(b, 0x60, self.Idtr@);
        let b = spec_write(b, 0x70, le16(self.Tr));
        let b = spec_write(b, 0x72, le16(self.Ldtr));
        let b = spec_write(b, 0x74, le32(self.MxCsr));
        let b = spec_write(b, 0x78, le64(self.DebugControl));
        let b = spec_write(b, 0x80, le64(self.LastBranchToRip));
        let b = spec_write(b, 0x88, le64(self.LastBranchFromRip));
        let b = spec_write(b, 0x90, le64(self.LastExceptionToRip));
        let b = spec_write(b, 0x98, le64(self.LastExceptionFromRip));
        let b = spec_write(b, 0xa0, le64(self.Cr8));
        let b = spec_write(b, 0xa8, le64(self.MsrGsBase));
        let b = spec_write(b, 0xb0, le64(self.MsrGsSwap));
        let b = spec_write(b, 0xb8, le64(self.MsrStar));
        let b = spec_write(b, 0xc0, le64(self.MsrLStar));
        let b = spec_write(b, 0xc8, le64(self.MsrCStar));
        let b = spec_write(b, 0xd0, le64(self.MsrSyscallMask));
        let b = spec_write(b, 0xd8, le64(self.Xcr0));
        let b = spec_write(b, 0xe0, le64(self.MsrFsBase));
        let b = spec_write(b, 0xe8, le64(self.SpecialPadding0));
        b
    }

    /// The structure with every field zero.
    #[allow(non_snake_case)]
    pub open spec fn spec_zeroed() -> Self {
        KSPECIAL_REGISTERS {
            Cr0: 0,
            Cr2: 0,
            Cr3: 0,
            Cr4: 0,
            KernelDr0: 0,
            KernelDr1: 0,
            KernelDr2: 0,
            KernelDr3: 0,
            KernelDr6: 0,
            KernelDr7: 0,
            Gdtr: spec_array_fill_for_copy_type::<u8, 16>(0),
            Idtr: spec_array_fill_for_copy_type::<u8, 16>(0),
            Tr: 0,
            Ldtr: 0,
            MxCsr: 0,
            DebugControl: 0,
            LastBranchToRip: 0,
            LastBranchFromRip: 0,
            LastExceptionToRip: 0,
            LastExceptionFromRip: 0,
            Cr8: 0,
            MsrGsBase: 0,
            MsrGsSwap: 0,
            MsrStar: 0,
            MsrLStar: 0,
            MsrCStar: 0,
            MsrSyscallMask: 0,
            Xcr0: 0,
            MsrFsBase: 0,
            SpecialPadding0: 0,
        }
    }

    /// The structure with every field zero.
    pub fn zeroed() -> (r: Self)
        ensures
            r == Self::spec_zeroed(),
    {
        KSPECIAL_REGISTERS {
            Cr0: 0,
            Cr2: 0,
            Cr3: 0,
            Cr4: 0,
            KernelDr0: 0,
            KernelDr1: 0,
            KernelDr2: 0,
            KernelDr3: 0,
            KernelDr6: 0,
            KernelDr7: 0,
            Gdtr: [0u8; 16],
            Idtr: [0u8; 16],
            Tr: 0,
            Ldtr: 0,
            MxCsr: 0,
            DebugControl: 0,
            LastBranchToRip: 0,
            LastBranchFromRip: 0,
            LastExceptionToRip: 0,
            LastExceptionFromRip: 0,
            Cr8: 0,
            MsrGsBase: 0,
            MsrGsSwap: 0,
            MsrStar: 0,
            MsrLStar: 0,
            MsrCStar: 0,
            MsrSyscallMask: 0,
            Xcr0: 0,
            MsrFsBase: 0,
            SpecialPadding0: 0,
        }
    }

    /// The bytes of the structure as the kernel reads it.
    #[verifier::rlimit(50)]
    pub fn to_bytes(&self) -> (r: Vec<u8>)
        ensures
            r@ == self.image(),
            r@.len() == 0xf0,
    {
        let mut b = zeroed(0xf0);
        put(b.as_mut_slice(), 0x0, &u64_le(self.Cr0));
        put(b.as_mut_slice(), 0x8, &u64_le(self.Cr2));
        put(b.as_mut_slice(), 0x10, &u64_le(self.Cr3));
        put(b.as_mut_slice(), 0x18, &u64_le(self.Cr4));
        put(b.as_mut_slice(), 0x20, &u64_le(self.KernelDr0));
        put(b.as_mut_slice(), 0x28, &u64_le(self.KernelDr1));
        put(b.as_mut_slice(), 0x30, &u64_le(self.KernelDr2));
        put(b.as_mut_slice(), 0x38, &u64_le(self.KernelDr3));
        put(b.as_mut_slice(), 0x40, &u64_le(self.KernelDr6));
        put(b.as_mut_slice(), 0x48, &u64_le(self.KernelDr7));
        put(b.as_mut_slice(), 0x50, self.Gdtr.as_slice());
        put(b.as_mut_slice(), 0x60, self.Idtr.as_slice());
        put(b.as_mut_slice(), 0x70, &u16_le(self.Tr));
        put(b.as_mut_slice(), 0x72, &u16_le(self.Ldtr));
        put(b.as_mut_slice(), 0x74, &u32_le(self.MxCsr));
        put(b.as_mut_slice(), 0x78, &u64_le(self.DebugControl));
        put(b.as_mut_slice(), 0x80, &u64_le(self.LastBranchToRip));
        put(b.as_mut_slice(), 0x88, &u64_le(self.LastBranchFromRip));
        put(b.as_mut_slice(), 0x90, &u64_le(self.LastExceptionToRip));
        put(b.as_mut_slice(), 0x98, &u64_le(self.LastExceptionFromRip));
        put(b.as_mut_slice(), 0xa0, &u64_le(self.Cr8));
        put(b.as_mut_slice(), 0xa8, &u64_le(self.MsrGsBase));
        put(b.as_mut_slice(), 0xb0, &u64_le(self.MsrGsSwap));
        put(b.as_mut_slice(), 0xb8, &u64_le(self.MsrStar));
        put(b.as_mut_slice(), 0xc0, &u64_le(self.MsrLStar));
        put(b.as_mut_slice(), 0xc8, &u64_le(self.MsrCStar));
        put(b.as_mut_slice(), 0xd0, &u64_le(self.MsrSyscallMask));
        put(b.as_mut_slice(), 0xd8, &u64_le(self.Xcr0));
        put(b.as_mut_slice(), 0xe0, &u64_le(self.MsrFsBase));
        put(b.as_mut_slice(), 0xe8, &u64_le(self.SpecialPadding0));
        b
    }
}

/// _KPROCESSOR_STATE: special registers and a context frame, 0x5c0 bytes.
#[allow(non_camel_case_types, non_snake_case)]
pub struct KPROCESSOR_STATE {
    /// Offset 0x0.
    pub SpecialRegisters: KSPECIAL_REGISTERS,
    /// Offset 0xf0.
    pub ContextFrame: [u8; 1232],
}

impl KPROCESSOR_STATE {
    /// The structure as the kernel reads it: each field little endian at its
    /// offset, padding bytes zero.
    pub open spec fn image(self) -> Seq<u8> {
        let b = zeros(0x5c0);
        let b = spec_write(b, 0x0, self.SpecialRegisters.image());
        let b = spec_write(b, 0xf0, self.ContextFrame@);
        b
    }

    /// The structure with every field zero.
    #[allow(non_snake_case)]
    pub open spec fn spec_zeroed() -> Self {
        KPROCESSOR_STATE {
            SpecialRegisters: KSPECIAL_REGISTERS::spec_zeroed(),
            ContextFrame: spec_array_fill_for_copy_type::<u8, 1232>(0),
        }
    }

    /// The structure with every field zero.
    pub fn zeroed() -> (r: Self)
        ensures
            r == Self::spec_zeroed(),
    {
        KPROCESSOR_STATE {
            SpecialRegisters: KSPECIAL_REGISTERS::zeroed(),
            ContextFrame: [0u8; 1232],
        }
    }

    /// The bytes of the structure as the kernel reads it.
    #[verifier::rlimit(50)]
    pub fn to_bytes(&self) -> (r: Vec<u8>)
        ensures
            r@ == self.image(),
            r@.len() == 0x5c0,
    {
        let mut b = zeroed(0x5c0);
        let w = self.SpecialRegisters.to_bytes();
        put(b.as_mut_slice(), 0x0, w.as_slice());
        put(b.as_mut_slice(), 0xf0, self.ContextFrame.as_slice());
        b
    }
}

/// _KPRCB, the kernel processor control block: 0x700 bytes.
#[allow(non_camel_case_types, non_snake_case)]
pub struct KPRCB {
    /// Offset 0x0.
    pub MxCsr: u32,
    /// Offset 0x4.
    pub LegacyNumber: u8,
    /// Offset 0x5.
    pub ReservedMustBeZero: u8,
    /// Offset 0x6.
    pub InterruptRequest: u8,
    /// Offset 0x7.
    pub IdleHalt: u8,
    /// Offset 0x8.
    pub CurrentThread: u64,
    /// Offset 0x10.
    pub NextThread: u64,
    /// Offset 0x18.
    pub IdleThread: u64,
    /// Offset 0x20.
    pub NestingLevel: u8,
    /// Offset 0x21.
    pub ClockOwner: u8,
    /// Offset 0x22.
    pub PendingTickFlags: u8,
    /// Offset 0x23.
    pub IdleState: u8,
    /// Offset 0x24.
    pub Number: u32,
    /// Offset 0x28.
    pub RspBase: u64,
    /// Offset 0x30.
    pub PrcbLock: u64,
    /// Offset 0x38.
    pub PriorityState: u64,
    /// Offset 0x40.
    pub CpuType: u8,
    /// Offset 0x41.
    pub CpuID: u8,
    /// Offset 0x42.
    pub CpuStep: u16,
    /// Offset 0x44.
    pub MHz: u32,
    /// Offset 0x48.
    pub HalReserved: [u64; 8],
    /// Offset 0x88.
    pub MinorVersion: u16,
    /// Offset 0x8a.
    pub MajorVersion: u16,
    /// Offset 0x8c.
    pub BuildType: u8,
    /// Offset 0x8d.
    pub CpuVendor: u8,
    /// Offset 0x8e.
    pub LegacyCoresPerPhysicalProcessor: u8,
    /// Offset 0x8f.
    pub LegacyLogicalProcessorsPerCore: u8,
    /// Offset 0x90.
    pub TscFrequency: u64,
    /// Offset 0x98.
    pub CoresPerPhysicalProcessor: u32,
    /// Offset 0x9c.
    pub LogicalProcessorsPerCore: u32,
    /// Offset 0xa0.
    pub PrcbPad04: [u64; 4],
    /// Offset 0xc0.
    pub ParentNode: u64,
    /// Offset 0xc8.
    pub GroupSetMember: u64,
    /// Offset 0xd0.
    pub Group: u8,
    /// Offset 0xd1.
    pub GroupIndex: u8,
    /// Offset 0xd2.
    pub PrcbPad05: [u8; 2],
    /// Offset 0xd4.
    pub InitialApicId: u32,
    /// Offset 0xd8.
    pub ScbOffset: u32,
    /// Offset 0xdc.
    pub ApicMask: u32,
    /// Offset 0xe0.
    pub AcpiReserved: u64,
    /// Offset 0xe8.
    pub CFlushSize: u32,
    /// Offset 0xf0.
    pub PrcbPad11: [u64; 2],
    /// Offset 0x100.
    pub ProcessorState: KPROCESSOR_STATE,
    /// Offset 0x6c0.
    pub ExtendedSupervisorState: u64,
    /// Offset 0x6c8.
    pub ProcessorSignature: u32,
    /// Offset 0x6cc.
    pub ProcessorFlags: u32,
    /// Offset 0x6d0.
    pub PrcbPad12a: u64,
    /// Offset 0x6d8.
    pub PrcbPad12: [u64; 3],
}

impl KPRCB {
    /// The structure as the kernel reads it: each field little endian at its
    /// offset, padding bytes zero.
    pub open spec fn image(self) -> Seq<u8> {
        let b = zeros(0x700);
        let b = spec_write(b, 0x0, le32(self.MxCsr));
        let b = spec_write(b, 0x4, seq![self.LegacyNumber]);
        let b = spec_write(b, 0x5, seq![self.ReservedMustBeZero]);
        let b = spec_write(b, 0x6, seq![self.InterruptRequest]);
        let b = spec_write(b, 0x7, seq![self.IdleHalt]);
        let b = spec_write(b, 0x8, le64(self.CurrentThread));
        let b = spec_write(b, 0x10, le64(self.NextThread));
        let b = spec_write(b, 0x18, le64(self.IdleThread));
        let b = spec_write(b, 0x20, seq![self.NestingLevel]);
        let b = spec_write(b, 0x21, seq![self.ClockOwner]);
        let b = spec_write(b, 0x22, seq![self.PendingTickFlags]);
        let b = spec_write(b, 0x23, seq![self.IdleState]);
        let b = spec_write(b, 0x24, le32(self.Number));
        let b = spec_write(b, 0x28, le64(self.RspBase));
        let b = spec_write(b, 0x30, le64(self.PrcbLock));
        let b = spec_write(b, 0x38, le64(self.PriorityState));
        let b = spec_write(b, 0x40, seq![self.CpuType]);
        let b = spec_write(b, 0x41, seq![self.CpuID]);
        let b = spec_write(b, 0x42, le16(self.CpuStep));
        let b = spec_write(b, 0x44, le32(self.MHz));
        let b = spec_write(b, 0x48, le64s(self.HalReserved@));
        let b = spec_write(b, 0x88, le16(self.MinorVersion));
        let b = spec_write(b, 0x8a, le16(self.MajorVersion));
        let b = spec_write(b, 0x8c, seq![self.BuildType]);
        let b = spec_write(b, 0x8d, seq![self.CpuVendor]);
        let b = spec_write(b, 0x8e, seq![self.LegacyCoresPerPhysicalProcessor]);
        let b = spec_write(b, 0x8f, seq![self.LegacyLogicalProcessorsPerCore]);
        let b = spec_write(b, 0x90, le64(self.TscFrequency));
        let b = spec_write(b, 0x98, le32(self.CoresPerPhysicalProcessor));
        let b = spec_write(b, 0x9c, le32(self.LogicalProcessorsPerCore));
        let b = spec_write(b, 0xa0, le64s(self.PrcbPad04@));
        let b = spec_write(b, 0xc0, le64(self.ParentNode));
        let b = spec_write(b, 0xc8, le64(self.GroupSetMember));
        let b = spec_write(b, 0xd0, seq![self.Group]);
        let b = spec_write(b, 0xd1, seq![self.GroupIndex]);
        let b = spec_write(b, 0xd2, self.PrcbPad05@);
        let b = spec_write(b, 0xd4, le32(self.InitialApicId));
        let b = spec_write(b, 0xd8, le32(self.ScbOffset));
        let b = spec_write(b, 0xdc, le32(self.ApicMask));
        let b = spec_write(b, 0xe0, le64(self.AcpiReserved));
        let b = spec_write(b, 0xe8, le32(self.CFlushSize));
        let b = spec_write(b, 0xf0, le64s(self.PrcbPad11@));
        let b = spec_write(b, 0x100, self.ProcessorState.image());
        let b = spec_write(b, 0x6c0, le64(self.ExtendedSupervisorState));
        let b = spec_write(b, 0x6c8, le32(self.ProcessorSignature));
        let b = spec_write(b, 0x6cc, le32(self.ProcessorFlags));
        let b = spec_write(b, 0x6d0, le64(self.PrcbPad12a));
        let b = spec_write(b, 0x6d8, le64s(self.PrcbPad12@));
        b
    }

    /// The structure with every field zero.
    #[allow(non_snake_case)]
    pub open spec fn spec_zeroed() -> Self {
        KPRCB {
            MxCsr: 0,
            LegacyNumber: 0,
            ReservedMustBeZero: 0,
            InterruptRequest: 0,
            IdleHalt: 0,
            CurrentThread: 0,
            NextThread: 0,
            IdleThread: 0,
            NestingLevel: 0,
            ClockOwner: 0,
            PendingTickFlags: 0,
            IdleState: 0,
            Number: 0,
            RspBase: 0,
            PrcbLock: 0,
            PriorityState: 0,
            CpuType: 0,
            CpuID: 0,
            CpuStep: 0,
            MHz: 0,
            HalReserved: spec_array_fill_for_copy_type::<u64, 8>(0),
            MinorVersion: 0,
            MajorVersion: 0,
            BuildType: 0,
            CpuVendor: 0,
            LegacyCoresPerPhysicalProcessor: 0,
            LegacyLogicalProcessorsPerCore: 0,
            TscFrequency: 0,
            CoresPerPhysicalProcessor: 0,
            LogicalProcessorsPerCore: 0,
            PrcbPad04: spec_array_fill_for_copy_type::<u64, 4>(0),
            ParentNode: 0,
            GroupSetMember: 0,
            Group: 0,
            GroupIndex: 0,
            PrcbPad05: spec_array_fill_for_copy_type::<u8, 2>(0),
            InitialApicId: 0,
            ScbOffset: 0,
            ApicMask: 0,
            AcpiReserved: 0,
            CFlushSize: 0,
            PrcbPad11: spec_array_fill_for_copy_type::<u64, 2>(0),
            ProcessorState: KPROCESSOR_STATE::spec_zeroed(),
            ExtendedSupervisorState: 0,
            ProcessorSignature: 0,
            ProcessorFlags: 0,
            PrcbPad12a: 0,
            PrcbPad12: spec_array_fill_for_copy_type::<u64, 3>(0),
        }
    }

    /// The structure with every field zero.
    pub fn zeroed() -> (r: Self)
        ensures
            r == Self::spec_zeroed(),
    {
        KPRCB {
            MxCsr: 0,
            LegacyNumber: 0,
            ReservedMustBeZero: 0,
            InterruptRequest: 0,
            IdleHalt: 0,
            CurrentThread: 0,
            NextThread: 0,
            IdleThread: 0,
            NestingLevel: 0,
            ClockOwner: 0,
            PendingTickFlags: 0,
            IdleState: 0,
            Number: 0,
            RspBase: 0,
            PrcbLock: 0,
            PriorityState: 0,
            CpuType: 0,
            CpuID: 0,
            CpuStep: 0,
            MHz: 0,
            HalReserved: [0u64; 8],
            MinorVersion: 0,
            MajorVersion: 0,
            BuildType: 0,
            CpuVendor: 0,
            LegacyCoresPerPhysicalProcessor: 0,
            LegacyLogicalProcessorsPerCore: 0,
            TscFrequency: 0,
            CoresPerPhysicalProcessor: 0,
            LogicalProcessorsPerCore: 0,
            PrcbPad04: [0u64; 4],
            ParentNode: 0,
            GroupSetMember: 0,
            Group: 0,
            GroupIndex: 0,
            PrcbPad05: [0u8; 2],
            InitialApicId: 0,
            ScbOffset: 0,
            ApicMask: 0,
            AcpiReserved: 0,
            CFlushSize: 0,
            PrcbPad11: [0u64; 2],
            ProcessorState: KPROCESSOR_STATE::zeroed(),
            ExtendedSupervisorState: 0,
            ProcessorSignature: 0,
            ProcessorFlags: 0,
            PrcbPad12a: 0,
            PrcbPad12: [0u64; 3],
        }
    }

    /// The bytes of the structure as the kernel reads it.
    #[verifier::rlimit(50)]
    pub fn to_bytes(&self) -> (r: Vec<u8>)
        ensures
            r@ == self.image(),
            r@.len() == 0x700,
    {
        let mut b = zeroed(0x700);
        put(b.as_mut_slice(), 0x0, &u32_le(self.MxCsr));
        let one: [u8; 1] = [self.LegacyNumber];
        assert(one@ =~= seq![self.LegacyNumber]);
        put(b.as_mut_slice(), 0x4, &one);
        let one: [u8; 1] = [self.ReservedMustBeZero];
        assert(one@ =~= seq![self.ReservedMustBeZero]);
        put(b.as_mut_slice(), 0x5, &one);
        let one: [u8; 1] = [self.InterruptRequest];
        assert(one@ =~= seq![self.InterruptRequest]);
        put(b.as_mut_slice(), 0x6, &one);
        let one: [u8; 1] = [self.IdleHalt];
        assert(one@ =~= seq![self.IdleHalt]);
        put(b.as_mut_slice(), 0x7, &one);
        put(b.as_mut_slice(), 0x8, &u64_le(self.CurrentThread));
        put(b.as_mut_slice(), 0x10, &u64_le(self.NextThread));
        put(b.as_mut_slice(), 0x18, &u64_le(self.IdleThread));
        let one: [u8; 1] = [self.NestingLevel];
        assert(one@ =~= seq![self.NestingLevel]);
        put(b.as_mut_slice(), 0x20, &one);
        let one: [u8; 1] = [self.ClockOwner];
        assert(one@ =~= seq![self.ClockOwner]);
        put(b.as_mut_slice(), 0x21, &one);
        let one: [u8; 1] = [self.PendingTickFlags];
        assert(one@ =~= seq![self.PendingTickFlags]);
        put(b.as_mut_slice(), 0x22, &one);
        let one: [u8; 1] = [self.IdleState];
        assert(one@ =~= seq![self.IdleState]);
        put(b.as_mut_slice(), 0x23, &one);
        put(b.as_mut_slice(), 0x24, &u32_le(self.Number));
        put(b.as_mut_slice(), 0x28, &u64_le(self.RspBase));
        put(b.as_mut_slice(), 0x30, &u64_le(self.PrcbLock));
        put(b.as_mut_slice(), 0x38, &u64_le(self.PriorityState));
        let one: [u8; 1] = [self.CpuType];
        assert(one@ =~= seq![self.CpuType]);
        put(b.as_mut_slice(), 0x40, &one);
        let one: [u8; 1] = [self.CpuID];
        assert(one@ =~= seq![self.CpuID]);
        put(b.as_mut_slice(), 0x41, &one);
        put(b.as_mut_slice(), 0x42, &u16_le(self.CpuStep));
        put(b.as_mut_slice(), 0x44, &u32_le(self.MHz));
        let w = u64s_le(self.HalReserved.as_slice());
        put(b.as_mut_slice(), 0x48, w.as_slice());
        put(b.as_mut_slice(), 0x88, &u16_le(self.MinorVersion));
        put(b.as_mut_slice(), 0x8a, &u16_le(self.MajorVersion));
        let one: [u8; 1] = [self.BuildType];
        assert(one@ =~= seq![self.BuildType]);
        put(b.as_mut_slice(), 0x8c, &one);
        let one: [u8; 1] = [self.CpuVendor];
        assert(one@ =~= seq![self.CpuVendor]);
        put(b.as_mut_slice(), 0x8d, &one);
        let one: [u8; 1] = [self.LegacyCoresPerPhysicalProcessor];
        assert(one@ =~= seq![self.LegacyCoresPerPhysicalProcessor]);
        put(b.as_mut_slice(), 0x8e, &one);
        let one: [u8; 1] = [self.LegacyLogicalProcessorsPerCore];
        assert(one@ =~= seq![self.LegacyLogicalProcessorsPerCore]);
        put(b.as_mut_slice(), 0x8f, &one);
        put(b.as_mut_slice(), 0x90, &u64_le(self.TscFrequency));
        put(b.as_mut_slice(), 0x98, &u32_le(self.CoresPerPhysicalProcessor));
        put(b.as_mut_slice(), 0x9c, &u32_le(self.LogicalProcessorsPerCore));
        let w = u64s_le(self.PrcbPad04.as_slice());
        put(b.as_mut_slice(), 0xa0, w.as_slice());
        put(b.as_mut_slice(), 0xc0, &u64_le(self.ParentNode));
        put(b.as_mut_slice(), 0xc8, &u64_le(self.GroupSetMember));
        let one: [u8; 1] = [self.Group];
        assert(one@ =~= seq![self.Group]);
        put(b.as_mut_slice(), 0xd0, &one);
        let one: [u8; 1] = [self.GroupIndex];
        assert(one@ =~= seq![self.GroupIndex]);
        put(b.as_mut_slice(), 0xd1, &one);
        put(b.as_mut_slice(), 0xd2, self.PrcbPad05.as_slice());
        put(b.as_mut_slice(), 0xd4, &u32_le(self.InitialApicId));
        put(b.as_mut_slice(), 0xd8, &u32_le(self.ScbOffset));
        put(b.as_mut_slice(), 0xdc, &u32_le(self.ApicMask));
        put(b.as_mut_slice(), 0xe0, &u64_le(self.AcpiReserved));
        put(b.as_mut_slice(), 0xe8, &u32_le(self.CFlushSize));
        let w = u64s_le(self.PrcbPad11.as_slice());
        put(b.as_mut_slice(), 0xf0, w.as_slice());
        let w = self.ProcessorState.to_bytes();
        put(b.as_mut_slice(), 0x100, w.as_slice());
        put(b.as_mut_slice(), 0x6c0, &u64_le(self.ExtendedSupervisorState));
        put(b.as_mut_slice(), 0x6c8, &u32_le(self.ProcessorSignature));
        put(b.as_mut_slice(), 0x6cc, &u32_le(self.ProcessorFlags));
        put(b.as_mut_slice(), 0x6d0, &u64_le(self.PrcbPad12a));
        let w = u64s_le(self.PrcbPad12.as_slice());
        put(b.as_mut_slice(), 0x6d8, w.as_slice());
        b
    }
}

/// _KPCR, the kernel processor control region: 0x180 bytes with its alignment padding.
#[allow(non_camel_case_types, non_snake_case)]
pub struct KPCR {
    /// Offset 0x0.
    pub GdtBase: u64,
    /// Offset 0x8.
    pub TssBase: u64,
    /// Offset 0x10.
    pub UserRsp: u64,
    /// Offset 0x18.
    pub SelfPcr: u64,
    /// Offset 0x20.
    pub CurrentPrcb: u64,
    /// Offset 0x28.
    pub LockArray: u64,
    /// Offset 0x30.
    pub Used_Self: u64,
    /// Offset 0x38.
    pub IdtBase: u64,
    /// Offset 0x40.
    pub Unused: [u64; 2],
    /// Offset 0x50.
    pub Irql: u8,
    /// Offset 0x51.
    pub SecondLevelCacheAssociativity: u8,
    /// Offset 0x52.
    pub ObsoleteNumber: u8,
    /// Offset 0x53.
    pub Fill0: u8,
    /// Offset 0x54.
    pub Unused0: [u32; 3],
    /// Offset 0x60.
    pub MajorVersion: u16,
    /// Offset 0x62.
    pub MinorVersion: u16,
    /// Offset 0x64.
    pub StallScaleFactor: u32,
    /// Offset 0x68.
    pub Unused1: [u64; 3],
    /// Offset 0x80.
    pub KernelReserved: [u32; 15],
    /// Offset 0xbc.
    pub SecondLevelCacheSize: u32,
    /// Offset 0xc0.
    pub HalReserved: [u32; 16],
    /// Offset 0x100.
    pub Unused2: u32,
    /// Offset 0x104.
    pub Padding_Align: u32,
    /// Offset 0x108.
    pub KdVersionBlock: u64,
    /// Offset 0x110.
    pub Unused3: u64,
    /// Offset 0x118.
    pub PcrAlign1: [u32; 24],
}

impl KPCR {
    /// The structure as the kernel reads it: each field little endian at its
    /// offset, padding bytes zero.
    pub open spec fn image(self) -> Seq<u8> {
        let b = zeros(0x180);
        let b = spec_write(b, 0x0, le64(self.GdtBase));
        let b = spec_write(b, 0x8, le64(self.TssBase));
        let b = spec_write(b, 0x10, le64(self.UserRsp));
        let b = spec_write(b, 0x18, le64(self.SelfPcr));
        let b = spec_write(b, 0x20, le64(self.CurrentPrcb));
        let b = spec_write(b, 0x28, le64(self.LockArray));
        let b = spec_write(b, 0x30, le64(self.Used_Self));
        let b = spec_write(b, 0x38, le64(self.IdtBase));
        let b = spec_write(b, 0x40, le64s(self.Unused@));
        let b = spec_write(b, 0x50, seq![self.Irql]);
        let b = spec_write(b, 0x51, seq![self.SecondLevelCacheAssociativity]);
        let b = spec_write(b, 0x52, seq![self.ObsoleteNumber]);
        let b = spec_write(b, 0x53, seq![self.Fill0]);
        let b = spec_write(b, 0x54, le32s(self.Unused0@));
        let b = spec_write(b, 0x60, le16(self.MajorVersion));
        let b = spec_write(b, 0x62, le16(self.MinorVersion));
        let b = spec_write(b, 0x64, le32(self.StallScaleFactor));
        let b = spec_write(b, 0x68, le64s(self.Unused1@));
        let b = spec_write(b, 0x80, le32s(self.KernelReserved@));
        let b = spec_write(b, 0xbc, le32(self.SecondLevelCacheSize));
        let b = spec_write(b, 0xc0, le32s(self.HalReserved@));
        let b = spec_write(b, 0x100, le32(self.Unused2));
        let b = spec_write(b, 0x104, le32(self.Padding_Align));
        let b = spec_write(b, 0x108, le64(self.KdVersionBlock));
        let b = spec_write(b, 0x110, le64(self.Unused3));
        let b = spec_write(b, 0x118, le32s(self.PcrAlign1@));
        b
    }

    /// The structure with every field zero.
    #[allow(non_snake_case)]
    pub open spec fn spec_zeroed() -> Self {
        KPCR {
            GdtBase: 0,
            TssBase: 0,
            UserRsp: 0,
            SelfPcr: 0,
            CurrentPrcb: 0,
            LockArray: 0,
            Used_Self: 0,
            IdtBase: 0,
            Unused: spec_array_fill_for_copy_type::<u64, 2>(0),
            Irql: 0,
            SecondLevelCacheAssociativity: 0,
            ObsoleteNumber: 0,
            Fill0: 0,
            Unused0: spec_array_fill_for_copy_type::<u32, 3>(0),
            MajorVersion: 0,
            MinorVersion: 0,
            StallScaleFactor: 0,
            Unused1: spec_array_fill_for_copy_type::<u64, 3>(0),
            KernelReserved: spec_array_fill_for_copy_type::<u32, 15>(0),
            SecondLevelCacheSize: 0,
            HalReserved: spec_array_fill_for_copy_type::<u32, 16>(0),
            Unused2: 0,
            Padding_Align: 0,
            KdVersionBlock: 0,
            Unused3: 0,
            PcrAlign1: spec_array_fill_for_copy_type::<u32, 24>(0),
        }
    }

    /// The structure with every field zero.
    pub fn zeroed() -> (r: Self)
        ensures
            r == Self::spec_zeroed(),
    {
        KPCR {
            GdtBase: 0,
            TssBase: 0,
            UserRsp: 0,
            SelfPcr: 0,
            CurrentPrcb: 0,
            LockArray: 0,
            Used_Self: 0,
            IdtBase: 0,
            Unused: [0u64; 2],
            Irql: 0,
            SecondLevelCacheAssociativity: 0,
            ObsoleteNumber: 0,
            Fill0: 0,
            Unused0: [0u32; 3],
            MajorVersion: 0,
            MinorVersion: 0,
            StallScaleFactor: 0,
            Unused1: [0u64; 3],
            KernelReserved: [0u32; 15],
            SecondLevelCacheSize: 0,
            HalReserved: [0u32; 16],
            Unused2: 0,
            Padding_Align: 0,
            KdVersionBlock: 0,
            Unused3: 0,
            PcrAlign1: [0u32; 24],
        }
    }

    /// The bytes of the structure as the kernel reads it.
    #[verifier::rlimit(50)]
    pub fn to_bytes(&self) -> (r: Vec<u8>)
        ensures
            r@ == self.image(),
            r@.len() == 0x180,
    {
        let mut b = zeroed(0x180);
        put(b.as_mut_slice(), 0x0, &u64_le(self.GdtBase));
        put(b.as_mut_slice(), 0x8, &u64_le(self.TssBase));
        put(b.as_mut_slice(), 0x10, &u64_le(self.UserRsp));
        put(b.as_mut_slice(), 0x18, &u64_le(self.SelfPcr));
        put(b.as_mut_slice(), 0x20, &u64_le(self.CurrentPrcb));
        put(b.as_mut_slice(), 0x28, &u64_le(self.LockArray));
        put(b.as_mut_slice(), 0x30, &u64_le(self.Used_Self));
        put(b.as_mut_slice(), 0x38, &u64_le(self.IdtBase));
        let w = u64s_le(self.Unused.as_slice());
        put(b.as_mut_slice(), 0x40, w.as_slice());
        let one: [u8; 1] = [self.Irql];
        assert(one@ =~= seq![self.Irql]);
        put(b.as_mut_slice(), 0x50, &one);
        let one: [u8; 1] = [self.SecondLevelCacheAssociativity];
        assert(one@ =~= seq![self.SecondLevelCacheAssociativity]);
        put(b.as_mut_slice(), 0x51, &one);
        let one: [u8; 1] = [self.ObsoleteNumber];
        assert(one@ =~= seq![self.ObsoleteNumber]);
        put(b.as_mut_slice(), 0x52, &one);
        let one: [u8; 1] = [self.Fill0];
        assert(one@ =~= seq![self.Fill0]);
        put(b.as_mut_slice(), 0x53, &one);
        let w = u32s_le(self.Unused0.as_slice());
        put(b.as_mut_slice(), 0x54, w.as_slice());
        put(b.as_mut_slice(), 0x60, &u16_le(self.MajorVersion));
        put(b.as_mut_slice(), 0x62, &u16_le(self.MinorVersion));
        put(b.as_mut_slice(), 0x64, &u32_le(self.StallScaleFactor));
        let w = u64s_le(self.Unused1.as_slice());
        put(b.as_mut_slice(), 0x68, w.as_slice());
        let w = u32s_le(self.KernelReserved.as_slice());
        put(b.as_mut_slice(), 0x80, w.as_slice());
        put(b.as_mut_slice(), 0xbc, &u32_le(self.SecondLevelCacheSize));
        let w = u32s_le(self.HalReserved.as_slice());
        put(b.as_mut_slice(), 0xc0, w.as_slice());
        put(b.as_mut_slice(), 0x100, &u32_le(self.Unused2));
        put(b.as_mut_slice(), 0x104, &u32_le(self.Padding_Align));
        put(b.as_mut_slice(), 0x108, &u64_le(self.KdVersionBlock));
        put(b.as_mut_slice(), 0x110, &u64_le(self.Unused3));
        let w = u32s_le(self.PcrAlign1.as_slice());
        put(b.as_mut_slice(), 0x118, w.as_slice());
        b
    }
}

/// _LOADER_PARAMETER_BLOCK: 0x160 bytes.
#[allow(non_camel_case_types, non_snake_case)]
pub struct LOADER_PARAMETER_BLOCK {
    /// Offset 0x0.
    pub OsMajorVersion: u32,
    /// Offset 0x4.
    pub OsMinorVersion: u32,
    /// Offset 0x8.
    pub Size: u32,
    /// Offset 0xc.
    pub OsLoaderSecurityVersion: u32,
    /// Offset 0x10.
    pub LoadOrderListHead: LIST_ENTRY,
    /// Offset 0x20.
    pub MemoryDescriptorListHead: LIST_ENTRY,
    /// Offset 0x30.
    pub BootDriverListHead: LIST_ENTRY,
    /// Offset 0x40.
    pub EarlyLaunchListHead: LIST_ENTRY,
    /// Offset 0x50.
    pub CoreDriverListHead: LIST_ENTRY,
    /// Offset 0x60.
    pub CoreExtensionsDriverListHead: LIST_ENTRY,
    /// Offset 0x70.
    pub TpmCoreDriverListHead: LIST_ENTRY,
    /// Offset 0x80.
    pub KernelStack: u64,
    /// Offset 0x88.
    pub Prcb: u64,
    /// Offset 0x90.
    pub Process: u64,
    /// Offset 0x98.
    pub Thread: u64,
    /// Offset 0xa0.
    pub KernelStackSize: u32,
    /// Offset 0xa4.
    pub RegistryLength: u32,
    /// Offset 0xa8.
    pub RegistryBase: u64,
    /// Offset 0xb0.
    pub ConfigurationRoot: u64,
    /// Offset 0xb8.
    pub ArcBootDeviceName: u64,
    /// Offset 0xc0.
    pub ArcHalDeviceName: u64,
    /// Offset 0xc8.
    pub NtBootPathName: u64,
    /// Offset 0xd0.
    pub NtHalPathName: u64,
    /// Offset 0xd8.
    pub LoadOptions: u64,
    /// Offset 0xe0.
    pub NlsData: u64,
    /// Offset 0xe8.
    pub ArcDiskInformation: u64,
    /// Offset 0xf0.
    pub Extension: u64,
    /// Offset 0xf8.
    pub u: [u8; 16],
    /// Offset 0x108.
    pub FirmwareInformation: [u8; 64],
    /// Offset 0x148.
    pub OsBootstatPathName: u64,
    /// Offset 0x150.
    pub ArcOSDataDeviceName: u64,
    /// Offset 0x158.
    pub ArcWindowsSysPartName: u64,
}

impl LOADER_PARAMETER_BLOCK {
    /// The structure as the kernel reads it: each field little endian at its
    /// offset, padding bytes zero.
    pub open spec fn image(self) -> Seq<u8> {
        let b = zeros(0x160);
        let b = spec_write(b, 0x0, le32(self.OsMajorVersion));
        let b = spec_write(b, 0x4, le32(self.OsMinorVersion));
        let b = spec_write(b, 0x8, le32(self.Size));
        let b = spec_write(b, 0xc, le32(self.OsLoaderSecurityVersion));
        let b = spec_write(b, 0x10, le64(self.LoadOrderListHead.Flink));
        let b = spec_write(b, 0x18, le64(self.LoadOrderListHead.Blink));
        let b = spec_write(b, 0x20, le64(self.MemoryDescriptorListHead.Flink));
        let b = spec_write(b, 0x28, le64(self.MemoryDescriptorListHead.Blink));
        let b = spec_write(b, 0x30, le64(self.BootDriverListHead.Flink));
        let b = spec_write(b, 0x38, le64(self.BootDriverListHead.Blink));
        let b = spec_write(b, 0x40, le64(self.EarlyLaunchListHead.Flink));
        let b = spec_write(b, 0x48, le64(self.EarlyLaunchListHead.Blink));
        let b = spec_write(b, 0x50, le64(self.CoreDriverListHead.Flink));
        let b = spec_write(b, 0x58, le64(self.CoreDriverListHead.Blink));
        let b = spec_write(b, 0x60, le64(self.CoreExtensionsDriverListHead.Flink));
        let b = spec_write(b, 0x68, le64(self.CoreExtensionsDriverListHead.Blink));
        let b = spec_write(b, 0x70, le64(self.TpmCoreDriverListHead.Flink));
        let b = spec_write(b, 0x78, le64(self.TpmCoreDriverListHead.Blink));
        let b = spec_write(b, 0x80, le64(self.KernelStack));
        let b = spec_write(b, 0x88, le64(self.Prcb));
        let b = spec_write(b, 0x90, le64(self.Process));
        let b = spec_write(b, 0x98, le64(self.Thread));
        let b = spec_write(b, 0xa0, le32(self.KernelStackSize));
        let b = spec_write(b, 0xa4, le32(self.RegistryLength));
        let b = spec_write(b, 0xa8, le64(self.RegistryBase));
        let b = spec_write(b, 0xb0, le64(self.ConfigurationRoot));
        let b = spec_write(b, 0xb8, le64(self.ArcBootDeviceName));
        let b = spec_write(b, 0xc0, le64(self.ArcHalDeviceName));
        let b = spec_write(b, 0xc8, le64(self.NtBootPathName));
        let b = spec_write(b, 0xd0, le64(self.NtHalPathName));
        let b = spec_write(b, 0xd8, le64(self.LoadOptions));
        let b = spec_write(b, 0xe0, le64(self.NlsData));
        let b = spec_write(b, 0xe8, le64(self.ArcDiskInformation));
        let b = spec_write(b, 0xf0, le64(self.Extension));
        let b = spec_write(b, 0xf8, self.u@);
        let b = spec_write(b, 0x108, self.FirmwareInformation@);
        let b = spec_write(b, 0x148, le64(self.OsBootstatPathName));
        let b = spec_write(b, 0x150, le64(self.ArcOSDataDeviceName));
        let b = spec_write(b, 0x158, le64(self.ArcWindowsSysPartName));
        b
    }

    /// The structure with every field zero.
    #[allow(non_snake_case)]
    pub open spec fn spec_zeroed() -> Self {
        LOADER_PARAMETER_BLOCK {
            OsMajorVersion: 0,
            OsMinorVersion: 0,
            Size: 0,
            OsLoaderSecurityVersion: 0,
            LoadOrderListHead: LIST_ENTRY { Flink: 0, Blink: 0 },
            MemoryDescriptorListHead: LIST_ENTRY { Flink: 0, Blink: 0 },
            BootDriverListHead: LIST_ENTRY { Flink: 0, Blink: 0 },
            EarlyLaunchListHead: LIST_ENTRY { Flink: 0, Blink: 0 },
            CoreDriverListHead: LIST_ENTRY { Flink: 0, Blink: 0 },
            CoreExtensionsDriverListHead: LIST_ENTRY { Flink: 0, Blink: 0 },
            TpmCoreDriverListHead: LIST_ENTRY { Flink: 0, Blink: 0 },
            KernelStack: 0,
            Prcb: 0,
            Process: 0,
            Thread: 0,
            KernelStackSize: 0,
            RegistryLength: 0,
            RegistryBase: 0,
            ConfigurationRoot: 0,
            ArcBootDeviceName: 0,
            ArcHalDeviceName: 0,
            NtBootPathName: 0,
            NtHalPathName: 0,
            LoadOptions: 0,
            NlsData: 0,
            ArcDiskInformation: 0,
            Extension: 0,
            u: spec_array_fill_for_copy_type::<u8, 16>(0),
            FirmwareInformation: spec_array_fill_for_copy_type::<u8, 64>(0),
            OsBootstatPathName: 0,
            ArcOSDataDeviceName: 0,
            ArcWindowsSysPartName: 0,
        }
    }

    /// The structure with every field zero.
    pub fn zeroed() -> (r: Self)
        ensures
            r == Self::spec_zeroed(),
    {
        LOADER_PARAMETER_BLOCK {
            OsMajorVersion: 0,
            OsMinorVersion: 0,
            Size: 0,
            OsLoaderSecurityVersion: 0,
            LoadOrderListHead: LIST_ENTRY { Flink: 0, Blink: 0 },
            MemoryDescriptorListHead: LIST_ENTRY { Flink: 0, Blink: 0 },
            BootDriverListHead: LIST_ENTRY { Flink: 0, Blink: 0 },
            EarlyLaunchListHead: LIST_ENTRY { Flink: 0, Blink: 0 },
            CoreDriverListHead: LIST_ENTRY { Flink: 0, Blink: 0 },
            CoreExtensionsDriverListHead: LIST_ENTRY { Flink: 0, Blink: 0 },
            TpmCoreDriverListHead: LIST_ENTRY { Flink: 0, Blink: 0 },
            KernelStack: 0,
            Prcb: 0,
            Process: 0,
            Thread: 0,
            KernelStackSize: 0,
            RegistryLength: 0,
            RegistryBase: 0,
            ConfigurationRoot: 0,
            ArcBootDeviceName: 0,
            ArcHalDeviceName: 0,
            NtBootPathName: 0,
            NtHalPathName: 0,
            LoadOptions: 0,
            NlsData: 0,
            ArcDiskInformation: 0,
            Extension: 0,
            u: [0u8; 16],
            FirmwareInformation: [0u8; 64],
            OsBootstatPathName: 0,
            ArcOSDataDeviceName: 0,
            ArcWindowsSysPartName: 0,
        }
    }

    /// The bytes of the structure as the kernel reads it.
    #[verifier::rlimit(50)]
    pub fn to_bytes(&self) -> (r: Vec<u8>)
        ensures
            r@ == self.image(),
            r@.len() == 0x160,
    {
        let mut b = zeroed(0x160);
        put(b.as_mut_slice(), 0x0, &u32_le(self.OsMajorVersion));
        put(b.as_mut_slice(), 0x4, &u32_le(self.OsMinorVersion));
        put(b.as_mut_slice(), 0x8, &u32_le(self.Size));
        put(b.as_mut_slice(), 0xc, &u32_le(self.OsLoaderSecurityVersion));
        put(b.as_mut_slice(), 0x10, &u64_le(self.LoadOrderListHead.Flink));
        put(b.as_mut_slice(), 0x18, &u64_le(self.LoadOrderListHead.Blink));
        put(b.as_mut_slice(), 0x20, &u64_le(self.MemoryDescriptorListHead.Flink));
        put(b.as_mut_slice(), 0x28, &u64_le(self.MemoryDescriptorListHead.Blink));
        put(b.as_mut_slice(), 0x30, &u64_le(self.BootDriverListHead.Flink));
        put(b.as_mut_slice(), 0x38, &u64_le(self.BootDriverListHead.Blink));
        put(b.as_mut_slice(), 0x40, &u64_le(self.EarlyLaunchListHead.Flink));
        put(b.as_mut_slice(), 0x48, &u64_le(self.EarlyLaunchListHead.Blink));
        put(b.as_mut_slice(), 0x50, &u64_le(self.CoreDriverListHead.Flink));
        put(b.as_mut_slice(), 0x58, &u64_le(self.CoreDriverListHead.Blink));
        put(b.as_mut_slice(), 0x60, &u64_le(self.CoreExtensionsDriverListHead.Flink));
        put(b.as_mut_slice(), 0x68, &u64_le(self.CoreExtensionsDriverListHead.Blink));
        put(b.as_mut_slice(), 0x70, &u64_le(self.TpmCoreDriverListHead.Flink));
        put(b.as_mut_slice(), 0x78, &u64_le(self.TpmCoreDriverListHead.Blink));
        put(b.as_mut_slice(), 0x80, &u64_le(self.KernelStack));
        put(b.as_mut_slice(), 0x88, &u64_le(self.Prcb));
        put(b.as_mut_slice(), 0x90, &u64_le(self.Process));
        put(b.as_mut_slice(), 0x98, &u64_le(self.Thread));
        put(b.as_mut_slice(), 0xa0, &u32_le(self.KernelStackSize));
        put(b.as_mut_slice(), 0xa4, &u32_le(self.RegistryLength));
        put(b.as_mut_slice(), 0xa8, &u64_le(self.RegistryBase));
        put(b.as_mut_slice(), 0xb0, &u64_le(self.ConfigurationRoot));
        put(b.as_mut_slice(), 0xb8, &u64_le(self.ArcBootDeviceName));
        put(b.as_mut_slice(), 0xc0, &u64_le(self.ArcHalDeviceName));
        put(b.as_mut_slice(), 0xc8, &u64_le(self.NtBootPathName));
        put(b.as_mut_slice(), 0xd0, &u64_le(self.NtHalPathName));
        put(b.as_mut_slice(), 0xd8, &u64_le(self.LoadOptions));
        put(b.as_mut_slice(), 0xe0, &u64_le(self.NlsData));
        put(b.as_mut_slice(), 0xe8, &u64_le(self.ArcDiskInformation));
        put(b.as_mut_slice(), 0xf0, &u64_le(self.Extension));
        put(b.as_mut_slice(), 0xf8, self.u.as_slice());
        put(b.as_mut_slice(), 0x108, self.FirmwareInformation.as_slice());
        put(b.as_mut_slice(), 0x148, &u64_le(self.OsBootstatPathName));
        put(b.as_mut_slice(), 0x150, &u64_le(self.ArcOSDataDeviceName));
        put(b.as_mut_slice(), 0x158, &u64_le(self.ArcWindowsSysPartName));
        b
    }
}

/// _LOADER_PARAMETER_EXTENSION: 0xe38 bytes, each field at the offset the
/// kernel's layout gives it; the bytes from 0xb90 on are reserved and zero.
#[allow(non_camel_case_types, non_snake_case)]
pub struct LOADER_PARAMETER_EXTENSION {
    /// Offset 0x0.
    pub Size: u32,
    /// Offset 0x4.
    pub Profile: [u8; 20],
    /// Offset 0x18.
    pub EmInfFileImage: u64,
    /// Offset 0x20.
    pub EmInfFileSize: u32,
    /// Offset 0x28.
    pub TriageDumpBlock: u64,
    /// Offset 0x30.
    pub HeadlessLoaderBlock: u64,
    /// Offset 0x38.
    pub SMBiosEPSHeader: u64,
    /// Offset 0x40.
    pub DrvDBImage: u64,
    /// Offset 0x48.
    pub DrvDBSize: u32,
    /// Offset 0x50.
    pub DrvDBPatchImage: u64,
    /// Offset 0x58.
    pub DrvDBPatchSize: u32,
    /// Offset 0x60.
    pub NetworkLoaderBlock: u64,
    /// Offset 0x68.
    pub FirmwareDescriptorListHead: LIST_ENTRY,
    /// Offset 0x78.
    pub AcpiTable: u64,
    /// Offset 0x80.
    pub AcpiTableSize: u32,
    /// Offset 0x84.
    pub Bitfields: u32,
    /// Offset 0x88.
    pub LoaderPerformanceData: [u8; 96],
    /// Offset 0xe8.
    pub BootApplicationPersistentData: LIST_ENTRY,
    /// Offset 0xf8.
    pub Padding1: [u8; 2248],
    /// Offset 0x9c0.
    pub ProcessorCounterFrequency: u64,
    /// Offset 0x9c8.
    pub HypervisorExtension: [u8; 64],
    /// Offset 0xa08.
    pub HardwareConfigurationId: [u8; 16],
    /// Offset 0xa18.
    pub HalExtensionModuleList: LIST_ENTRY,
    /// Offset 0xa28.
    pub SystemTime: u64,
    /// Offset 0xa30.
    pub TimeStampAtSystemTimeRead: u64,
    /// Offset 0xa38.
    pub BootFlags: u64,
    /// Offset 0xa40.
    pub InternalBootFlags: u64,
    /// Offset 0xa48.
    pub WfsFPData: u64,
    /// Offset 0xa50.
    pub WfsFPDataSize: u32,
    /// Offset 0xa58.
    pub BugcheckParameters: [u8; 40],
    /// Offset 0xa80.
    pub ApiSetSchema: u64,
    /// Offset 0xa88.
    pub ApiSetSchemaSize: u32,
    /// Offset 0xa90.
    pub ApiSetSchemaExtensions: LIST_ENTRY,
    /// Offset 0xaa0.
    pub PaddingFinal: [u8; 232],
    /// Offset 0xb88.
    pub MajorRelease: u32,
    /// Offset 0xb8c.
    pub MinorRelease: u32,
}

impl LOADER_PARAMETER_EXTENSION {
    /// The structure as the kernel reads it: each field little endian at its
    /// offset, padding and reserved bytes zero.
    pub open spec fn image(self) -> Seq<u8> {
        let b = zeros(0xe38);
        let b = spec_write(b, 0x0, le32(self.Size));
        let b = spec_write(b, 0x4, self.Profile@);
        let b = spec_write(b, 0x18, le64(self.EmInfFileImage));
        let b = spec_write(b, 0x20, le32(self.EmInfFileSize));
        let b = spec_write(b, 0x28, le64(self.TriageDumpBlock));
        let b = spec_write(b, 0x30, le64(self.HeadlessLoaderBlock));
        let b = spec_write(b, 0x38, le64(self.SMBiosEPSHeader));
        let b = spec_write(b, 0x40, le64(self.DrvDBImage));
        let b = spec_write(b, 0x48, le32(self.DrvDBSize));
        let b = spec_write(b, 0x50, le64(self.DrvDBPatchImage));
        let b = spec_write(b, 0x58, le32(self.DrvDBPatchSize));
        let b = spec_write(b, 0x60, le64(self.NetworkLoaderBlock));
        let b = spec_write(b, 0x68, le64(self.FirmwareDescriptorListHead.Flink));
        let b = spec_write(b, 0x70, le64(self.FirmwareDescriptorListHead.Blink));
        let b = spec_write(b, 0x78, le64(self.AcpiTable));
        let b = spec_write(b, 0x80, le32(self.AcpiTableSize));
        let b = spec_write(b, 0x84, le32(self.Bitfields));
        let b = spec_write(b, 0x88, self.LoaderPerformanceData@);
        let b = spec_write(b, 0xe8, le64(self.BootApplicationPersistentData.Flink));
        let b = spec_write(b, 0xf0, le64(self.BootApplicationPersistentData.Blink));
        let b = spec_write(b, 0xf8, self.Padding1@);
        let b = spec_write(b, 0x9c0, le64(self.ProcessorCounterFrequency));
        let b = spec_write(b, 0x9c8, self.HypervisorExtension@);
        let b = spec_write(b, 0xa08, self.HardwareConfigurationId@);
        let b = spec_write(b, 0xa18, le64(self.HalExtensionModuleList.Flink));
        let b = spec_write(b, 0xa20, le64(self.HalExtensionModuleList.Blink));
        let b = spec_write(b, 0xa28, le64(self.SystemTime));
        let b = spec_write(b, 0xa30, le64(self.TimeStampAtSystemTimeRead));
        let b = spec_write(b, 0xa38, le64(self.BootFlags));
        let b = spec_write(b, 0xa40, le64(self.InternalBootFlags));
        let b = spec_write(b, 0xa48, le64(self.WfsFPData));
        let b = spec_write(b, 0xa50, le32(self.WfsFPDataSize));
        let b = spec_write(b, 0xa58, self.BugcheckParameters@);
        let b = spec_write(b, 0xa80, le64(self.ApiSetSchema));
        let b = spec_write(b, 0xa88, le32(self.ApiSetSchemaSize));
        let b = spec_write(b, 0xa90, le64(self.ApiSetSchemaExtensions.Flink));
        let b = spec_write(b, 0xa98, le64(self.ApiSetSchemaExtensions.Blink));
        let b = spec_write(b, 0xaa0, self.PaddingFinal@);
        let b = spec_write(b, 0xb88, le32(self.MajorRelease));
        let b = spec_write(b, 0xb8c, le32(self.MinorRelease));
        b
    }

    /// The structure with every field zero.
    #[allow(non_snake_case)]
    pub open spec fn spec_zeroed() -> Self {
        LOADER_PARAMETER_EXTENSION {
            Size: 0,
            Profile: spec_array_fill_for_copy_type::<u8, 20>(0),
            EmInfFileImage: 0,
            EmInfFileSize: 0,
            TriageDumpBlock: 0,
            HeadlessLoaderBlock: 0,
            SMBiosEPSHeader: 0,
            DrvDBImage: 0,
            DrvDBSize: 0,
            DrvDBPatchImage: 0,
            DrvDBPatchSize: 0,
            NetworkLoaderBlock: 0,
            FirmwareDescriptorListHead: LIST_ENTRY { Flink: 0, Blink: 0 },
            AcpiTable: 0,
            AcpiTableSize: 0,
            Bitfields: 0,
            LoaderPerformanceData: spec_array_fill_for_copy_type::<u8, 96>(0),
            BootApplicationPersistentData: LIST_ENTRY { Flink: 0, Blink: 0 },
            Padding1: spec_array_fill_for_copy_type::<u8, 2248>(0),
            ProcessorCounterFrequency: 0,
            HypervisorExtension: spec_array_fill_for_copy_type::<u8, 64>(0),
            HardwareConfigurationId: spec_array_fill_for_copy_type::<u8, 16>(0),
            HalExtensionModuleList: LIST_ENTRY { Flink: 0, Blink: 0 },
            SystemTime: 0,
            TimeStampAtSystemTimeRead: 0,
            BootFlags: 0,
            InternalBootFlags: 0,
            WfsFPData: 0,
            WfsFPDataSize: 0,
            BugcheckParameters: spec_array_fill_for_copy_type::<u8, 40>(0),
            ApiSetSchema: 0,
            ApiSetSchemaSize: 0,
            ApiSetSchemaExtensions: LIST_ENTRY { Flink: 0, Blink: 0 },
            PaddingFinal: spec_array_fill_for_copy_type::<u8, 232>(0),
            MajorRelease: 0,
            MinorRelease: 0,
        }
    }

    /// The structure with every field zero.
    pub fn zeroed() -> (r: Self)
        ensures
            r == Self::spec_zeroed(),
    {
        LOADER_PARAMETER_EXTENSION {
            Size: 0,
            Profile: [0u8; 20],
            EmInfFileImage: 0,
            EmInfFileSize: 0,
            TriageDumpBlock: 0,
            HeadlessLoaderBlock: 0,
            SMBiosEPSHeader: 0,
            DrvDBImage: 0,
            DrvDBSize: 0,
            DrvDBPatchImage: 0,
            DrvDBPatchSize: 0,
            NetworkLoaderBlock: 0,
            FirmwareDescriptorListHead: LIST_ENTRY { Flink: 0, Blink: 0 },
            AcpiTable: 0,
            AcpiTableSize: 0,
            Bitfields: 0,
            LoaderPerformanceData: [0u8; 96],
            BootApplicationPersistentData: LIST_ENTRY { Flink: 0, Blink: 0 },
            Padding1: [0u8; 2248],
            ProcessorCounterFrequency: 0,
            HypervisorExtension: [0u8; 64],
            HardwareConfigurationId: [0u8; 16],
            HalExtensionModuleList: LIST_ENTRY { Flink: 0, Blink: 0 },
            SystemTime: 0,
            TimeStampAtSystemTimeRead: 0,
            BootFlags: 0,
            InternalBootFlags: 0,
            WfsFPData: 0,
            WfsFPDataSize: 0,
            BugcheckParameters: [0u8; 40],
            ApiSetSchema: 0,
            ApiSetSchemaSize: 0,
            ApiSetSchemaExtensions: LIST_ENTRY { Flink: 0, Blink: 0 },
            PaddingFinal: [0u8; 232],
            MajorRelease: 0,
            MinorRelease: 0,
        }
    }

    /// The bytes of the structure as the kernel reads it.
    #[verifier::rlimit(50)]
    pub fn to_bytes(&self) -> (r: Vec<u8>)
        ensures
            r@ == self.image(),
            r@.len() == 0xe38,
    {
        let mut b = zeroed(0xe38);
        put(b.as_mut_slice(), 0x0, &u32_le(self.Size));
        put(b.as_mut_slice(), 0x4, self.Profile.as_slice());
        put(b.as_mut_slice(), 0x18, &u64_le(self.EmInfFileImage));
        put(b.as_mut_slice(), 0x20, &u32_le(self.EmInfFileSize));
        put(b.as_mut_slice(), 0x28, &u64_le(self.TriageDumpBlock));
        put(b.as_mut_slice(), 0x30, &u64_le(self.HeadlessLoaderBlock));
        put(b.as_mut_slice(), 0x38, &u64_le(self.SMBiosEPSHeader));
        put(b.as_mut_slice(), 0x40, &u64_le(self.DrvDBImage));
        put(b.as_mut_slice(), 0x48, &u32_le(self.DrvDBSize));
        put(b.as_mut_slice(), 0x50, &u64_le(self.DrvDBPatchImage));
        put(b.as_mut_slice(), 0x58, &u32_le(self.DrvDBPatchSize));
        put(b.as_mut_slice(), 0x60, &u64_le(self.NetworkLoaderBlock));
        put(b.as_mut_slice(), 0x68, &u64_le(self.FirmwareDescriptorListHead.Flink));
        put(b.as_mut_slice(), 0x70, &u64_le(self.FirmwareDescriptorListHead.Blink));
        put(b.as_mut_slice(), 0x78, &u64_le(self.AcpiTable));
        put(b.as_mut_slice(), 0x80, &u32_le(self.AcpiTableSize));
        put(b.as_mut_slice(), 0x84, &u32_le(self.Bitfields));
        put(b.as_mut_slice(), 0x88, self.LoaderPerformanceData.as_slice());
        put(b.as_mut_slice(), 0xe8, &u64_le(self.BootApplicationPersistentData.Flink));
        put(b.as_mut_slice(), 0xf0, &u64_le(self.BootApplicationPersistentData.Blink));
        put(b.as_mut_slice(), 0xf8, self.Padding1.as_slice());
        put(b.as_mut_slice(), 0x9c0, &u64_le(self.ProcessorCounterFrequency));
        put(b.as_mut_slice(), 0x9c8, self.HypervisorExtension.as_slice());
        put(b.as_mut_slice(), 0xa08, self.HardwareConfigurationId.as_slice());
        put(b.as_mut_slice(), 0xa18, &u64_le(self.HalExtensionModuleList.Flink));
        put(b.as_mut_slice(), 0xa20, &u64_le(self.HalExtensionModuleList.Blink));
        put(b.as_mut_slice(), 0xa28, &u64_le(self.SystemTime));
        put(b.as_mut_slice(), 0xa30, &u64_le(self.TimeStampAtSystemTimeRead));
        put(b.as_mut_slice(), 0xa38, &u64_le(self.BootFlags));
        put(b.as_mut_slice(), 0xa40, &u64_le(self.InternalBootFlags));
        put(b.as_mut_slice(), 0xa48, &u64_le(self.WfsFPData));
        put(b.as_mut_slice(), 0xa50, &u32_le(self.WfsFPDataSize));
        put(b.as_mut_slice(), 0xa58, self.BugcheckParameters.as_slice());
        put(b.as_mut_slice(), 0xa80, &u64_le(self.ApiSetSchema));
        put(b.as_mut_slice(), 0xa88, &u32_le(self.ApiSetSchemaSize));
        put(b.as_mut_slice(), 0xa90, &u64_le(self.ApiSetSchemaExtensions.Flink));
        put(b.as_mut_slice(), 0xa98, &u64_le(self.ApiSetSchemaExtensions.Blink));
        put(b.as_mut_slice(), 0xaa0, self.PaddingFinal.as_slice());
        put(b.as_mut_slice(), 0xb88, &u32_le(self.MajorRelease));
        put(b.as_mut_slice(), 0xb8c, &u32_le(self.MinorRelease));
        b
    }
}

/// _MEMORY_ALLOCATION_DESCRIPTOR: 0x28 bytes.
#[allow(non_camel_case_types, non_snake_case)]
pub struct MEMORY_ALLOCATION_DESCRIPTOR {
    /// Offset 0x0.
    pub ListEntry: LIST_ENTRY,
    /// Offset 0x10.
    pub MemoryType: TYPE_OF_MEMORY,
    /// Offset 0x18.
    pub BasePage: u64,
    /// Offset 0x20.
    pub PageCount: u64,
}

impl MEMORY_ALLOCATION_DESCRIPTOR {
    /// The structure as the kernel reads it: each field little endian at its
    /// offset, padding bytes zero.
    pub open spec fn image(self) -> Seq<u8> {
        let b = zeros(0x28);
        let b = spec_write(b, 0x0, le64(self.ListEntry.Flink));
        let b = spec_write(b, 0x8, le64(self.ListEntry.Blink));
        let b = spec_write(b, 0x10, le32(self.MemoryType.code()));
        let b = spec_write(b, 0x18, le64(self.BasePage));
        let b = spec_write(b, 0x20, le64(self.PageCount));
        b
    }

    /// The structure with every field zero.
    #[allow(non_snake_case)]
    pub open spec fn spec_zeroed() -> Self {
        MEMORY_ALLOCATION_DESCRIPTOR {
            ListEntry: LIST_ENTRY { Flink: 0, Blink: 0 },
            MemoryType: TYPE_OF_MEMORY::LoaderFree,
            BasePage: 0,
            PageCount: 0,
        }
    }

    /// The structure with every field zero.
    pub fn zeroed() -> (r: Self)
        ensures
            r == Self::spec_zeroed(),
    {
        MEMORY_ALLOCATION_DESCRIPTOR {
            ListEntry: LIST_ENTRY { Flink: 0, Blink: 0 },
            MemoryType: TYPE_OF_MEMORY::LoaderFree,
            BasePage: 0,
            PageCount: 0,
        }
    }

    /// The bytes of the structure as the kernel reads it.
    #[verifier::rlimit(50)]
    pub fn to_bytes(&self) -> (r: Vec<u8>)
        ensures
            r@ == self.image(),
            r@.len() == 0x28,
    {
        let mut b = zeroed(0x28);
        put(b.as_mut_slice(), 0x0, &u64_le(self.ListEntry.Flink));
        put(b.as_mut_slice(), 0x8, &u64_le(self.ListEntry.Blink));
        put(b.as_mut_slice(), 0x10, &u32_le(self.MemoryType.to_code()));
        put(b.as_mut_slice(), 0x18, &u64_le(self.BasePage));
        put(b.as_mut_slice(), 0x20, &u64_le(self.PageCount));
        b
    }
}

/// _KLDR_DATA_TABLE_ENTRY of Windows 10: 0x120 bytes.
#[allow(non_camel_case_types, non_snake_case)]
pub struct LDR_DATA_TABLE_ENTRY {
    /// Offset 0x0.
    pub InLoadOrderLinks: LIST_ENTRY,
    /// Offset 0x10.
    pub InMemoryOrderLinks: LIST_ENTRY,
    /// Offset 0x20.
    pub InInitializationOrderLinks: LIST_ENTRY,
    /// Offset 0x30.
    pub DllBase: u64,
    /// Offset 0x38.
    pub EntryPoint: u64,
    /// Offset 0x40.
    pub SizeOfImage: u32,
    /// Offset 0x44.
    pub Padding_After_Size: u32,
    /// Offset 0x48.
    pub FullDllName: UNICODE_STRING,
    /// Offset 0x58.
    pub BaseDllName: UNICODE_STRING,
    /// Offset 0x68.
    pub Flags: u32,
    /// Offset 0x6c.
    pub ObsoleteLoadCount: u16,
    /// Offset 0x6e.
    pub TlsIndex: u16,
    /// Offset 0x70.
    pub HashLinks: LIST_ENTRY,
    /// Offset 0x80.
    pub TimeDateStamp: u32,
    /// Offset 0x88.
    pub EntryPointActivationContext: u64,
    /// Offset 0x90.
    pub Lock: u64,
    /// Offset 0x98.
    pub DdagNode: u64,
    /// Offset 0xa0.
    pub NodeModuleLink: LIST_ENTRY,
    /// Offset 0xb0.
    pub LoadContext: u64,
    /// Offset 0xb8.
    pub ParentDllBase: u64,
    /// Offset 0xc0.
    pub SwitchBackContext: u64,
    /// Offset 0xc8.
    pub BaseAddressIndexNode: [u8; 24],
    /// Offset 0xe0.
    pub MappingInfoIndexNode: [u8; 24],
    /// Offset 0xf8.
    pub OriginalBase: u64,
    /// Offset 0x100.
    pub LoadTime: u64,
    /// Offset 0x108.
    pub BaseNameHashValue: u32,
    /// Offset 0x10c.
    pub LoadReason: u32,
    /// Offset 0x110.
    pub ImplicitPathOptions: u32,
    /// Offset 0x114.
    pub ReferenceCount: u32,
    /// Offset 0x118.
    pub DependentLoadFlags: u32,
    /// Offset 0x11c.
    pub SigningLevel: u8,
    /// Offset 0x11d.
    pub Padding_Final: [u8; 3],
}

impl LDR_DATA_TABLE_ENTRY {
    /// The structure as the kernel reads it: each field little endian at its
    /// offset, padding bytes zero.
    pub open spec fn image(self) -> Seq<u8> {
        let b = zeros(0x120);
        let b = spec_write(b, 0x0, le64(self.InLoadOrderLinks.Flink));
        let b = spec_write(b, 0x8, le64(self.InLoadOrderLinks.Blink));
        let b = spec_write(b, 0x10, le64(self.InMemoryOrderLinks.Flink));
        let b = spec_write(b, 0x18, le64(self.InMemoryOrderLinks.Blink));
        let b = spec_write(b, 0x20, le64(self.InInitializationOrderLinks.Flink));
        let b = spec_write(b, 0x28, le64(self.InInitializationOrderLinks.Blink));
        let b = spec_write(b, 0x30, le64(self.DllBase));
        let b = spec_write(b, 0x38, le64(self.EntryPoint));
        let b = spec_write(b, 0x40, le32(self.SizeOfImage));
        let b = spec_write(b, 0x44, le32(self.Padding_After_Size));
        let b = spec_write(b, 0x48, le16(self.FullDllName.Length));
        let b = spec_write(b, 0x4a, le16(self.FullDllName.MaximumLength));
        let b = spec_write(b, 0x50, le64(self.FullDllName.Buffer));
        let b = spec_write(b, 0x58, le16(self.BaseDllName.Length));
        let b = spec_write(b, 0x5a, le16(self.BaseDllName.MaximumLength));
        let b = spec_write(b, 0x60, le64(self.BaseDllName.Buffer));
        let b = spec_write(b, 0x68, le32(self.Flags));
        let b = spec_write(b, 0x6c, le16(self.ObsoleteLoadCount));
        let b = spec_write(b, 0x6e, le16(self.TlsIndex));
        let b = spec_write(b, 0x70, le64(self.HashLinks.Flink));
        let b = spec_write(b, 0x78, le64(self.HashLinks.Blink));
        let b = spec_write(b, 0x80, le32(self.TimeDateStamp));
        let b = spec_write(b, 0x88, le64(self.EntryPointActivationContext));
        let b = spec_write(b, 0x90, le64(self.Lock));
        let b = spec_write(b, 0x98, le64(self.DdagNode));
        let b = spec_write(b, 0xa0, le64(self.NodeModuleLink.Flink));
        let b = spec_write(b, 0xa8, le64(self.NodeModuleLink.Blink));
        let b = spec_write(b, 0xb0, le64(self.LoadContext));
        let b = spec_write(b, 0xb8, le64(self.ParentDllBase));
        let b = spec_write(b, 0xc0, le64(self.SwitchBackContext));
        let b = spec_write(b, 0xc8, self.BaseAddressIndexNode@);
        let b = spec_write(b, 0xe0, self.MappingInfoIndexNode@);
        let b = spec_write(b, 0xf8, le64(self.OriginalBase));
        let b = spec_write(b, 0x100, le64(self.LoadTime));
        let b = spec_write(b, 0x108, le32(self.BaseNameHashValue));
        let b = spec_write(b, 0x10c, le32(self.LoadReason));
        let b = spec_write(b, 0x110, le32(self.ImplicitPathOptions));
        let b = spec_write(b, 0x114, le32(self.ReferenceCount));
        let b = spec_write(b, 0x118, le32(self.DependentLoadFlags));
        let b = spec_write(b, 0x11c, seq![self.SigningLevel]);
        let b = spec_write(b, 0x11d, self.Padding_Final@);
        b
    }

    /// The structure with every field zero.
    #[allow(non_snake_case)]
    pub open spec fn spec_zeroed() -> Self {
        LDR_DATA_TABLE_ENTRY {
            InLoadOrderLinks: LIST_ENTRY { Flink: 0, Blink: 0 },
            InMemoryOrderLinks: LIST_ENTRY { Flink: 0, Blink: 0 },
            InInitializationOrderLinks: LIST_ENTRY { Flink: 0, Blink: 0 },
            DllBase: 0,
            EntryPoint: 0,
            SizeOfImage: 0,
            Padding_After_Size: 0,
            FullDllName: UNICODE_STRING { Length: 0, MaximumLength: 0, Buffer: 0 },
            BaseDllName: UNICODE_STRING { Length: 0, MaximumLength: 0, Buffer: 0 },
            Flags: 0,
            ObsoleteLoadCount: 0,
            TlsIndex: 0,
            HashLinks: LIST_ENTRY { Flink: 0, Blink: 0 },
            TimeDateStamp: 0,
            EntryPointActivationContext: 0,
            Lock: 0,
            DdagNode: 0,
            NodeModuleLink: LIST_ENTRY { Flink: 0, Blink: 0 },
            LoadContext: 0,
            ParentDllBase: 0,
            SwitchBackContext: 0,
            BaseAddressIndexNode: spec_array_fill_for_copy_type::<u8, 24>(0),
            MappingInfoIndexNode: spec_array_fill_for_copy_type::<u8, 24>(0),
            OriginalBase: 0,
            LoadTime: 0,
            BaseNameHashValue: 0,
            LoadReason: 0,
            ImplicitPathOptions: 0,
            ReferenceCount: 0,
            DependentLoadFlags: 0,
            SigningLevel: 0,
            Padding_Final: spec_array_fill_for_copy_type::<u8, 3>(0),
        }
    }

    /// The structure with every field zero.
    pub fn zeroed() -> (r: Self)
        ensures
            r == Self::spec_zeroed(),
    {
        LDR_DATA_TABLE_ENTRY {
            InLoadOrderLinks: LIST_ENTRY { Flink: 0, Blink: 0 },
            InMemoryOrderLinks: LIST_ENTRY { Flink: 0, Blink: 0 },
            InInitializationOrderLinks: LIST_ENTRY { Flink: 0, Blink: 0 },
            DllBase: 0,
            EntryPoint: 0,
            SizeOfImage: 0,
            Padding_After_Size: 0,
            FullDllName: UNICODE_STRING { Length: 0, MaximumLength: 0, Buffer: 0 },
            BaseDllName: UNICODE_STRING { Length: 0, MaximumLength: 0, Buffer: 0 },
            Flags: 0,
            ObsoleteLoadCount: 0,
            TlsIndex: 0,
            HashLinks: LIST_ENTRY { Flink: 0, Blink: 0 },
            TimeDateStamp: 0,
            EntryPointActivationContext: 0,
            Lock: 0,
            DdagNode: 0,
            NodeModuleLink: LIST_ENTRY { Flink: 0, Blink: 0 },
            LoadContext: 0,
            ParentDllBase: 0,
            SwitchBackContext: 0,
            BaseAddressIndexNode: [0u8; 24],
            MappingInfoIndexNode: [0u8; 24],
            OriginalBase: 0,
            LoadTime: 0,
            BaseNameHashValue: 0,
            LoadReason: 0,
            ImplicitPathOptions: 0,
            ReferenceCount: 0,
            DependentLoadFlags: 0,
            SigningLevel: 0,
            Padding_Final: [0u8; 3],
        }
    }

    /// The bytes of the structure as the kernel reads it.
    #[verifier::rlimit(50)]
    pub fn to_bytes(&self) -> (r: Vec<u8>)
        ensures
            r@ == self.image(),
            r@.len() == 0x120,
    {
        let mut b = zeroed(0x120);
        put(b.as_mut_slice(), 0x0, &u64_le(self.InLoadOrderLinks.Flink));
        put(b.as_mut_slice(), 0x8, &u64_le(self.InLoadOrderLinks.Blink));
        put(b.as_mut_slice(), 0x10, &u64_le(self.InMemoryOrderLinks.Flink));
        put(b.as_mut_slice(), 0x18, &u64_le(self.InMemoryOrderLinks.Blink));
        put(b.as_mut_slice(), 0x20, &u64_le(self.InInitializationOrderLinks.Flink));
        put(b.as_mut_slice(), 0x28, &u64_le(self.InInitializationOrderLinks.Blink));
        put(b.as_mut_slice(), 0x30, &u64_le(self.DllBase));
        put(b.as_mut_slice(), 0x38, &u64_le(self.EntryPoint));
        put(b.as_mut_slice(), 0x40, &u32_le(self.SizeOfImage));
        put(b.as_mut_slice(), 0x44, &u32_le(self.Padding_After_Size));
        put(b.as_mut_slice(), 0x48, &u16_le(self.FullDllName.Length));
        put(b.as_mut_slice(), 0x4a, &u16_le(self.FullDllName.MaximumLength));
        put(b.as_mut_slice(), 0x50, &u64_le(self.FullDllName.Buffer));
        put(b.as_mut_slice(), 0x58, &u16_le(self.BaseDllName.Length));
        put(b.as_mut_slice(), 0x5a, &u16_le(self.BaseDllName.MaximumLength));
        put(b.as_mut_slice(), 0x60, &u64_le(self.BaseDllName.Buffer));
        put(b.as_mut_slice(), 0x68, &u32_le(self.Flags));
        put(b.as_mut_slice(), 0x6c, &u16_le(self.ObsoleteLoadCount));
        put(b.as_mut_slice(), 0x6e, &u16_le(self.TlsIndex));
        put(b.as_mut_slice(), 0x70, &u64_le(self.HashLinks.Flink));
        put(b.as_mut_slice(), 0x78, &u64_le(self.HashLinks.Blink));
        put(b.as_mut_slice(), 0x80, &u32_le(self.TimeDateStamp));
        put(b.as_mut_slice(), 0x88, &u64_le(self.EntryPointActivationContext));
        put(b.as_mut_slice(), 0x90, &u64_le(self.Lock));
        put(b.as_mut_slice(), 0x98, &u64_le(self.DdagNode));
        put(b.as_mut_slice(), 0xa0, &u64_le(self.NodeModuleLink.Flink));
        put(b.as_mut_slice(), 0xa8, &u64_le(self.NodeModuleLink.Blink));
        put(b.as_mut_slice(), 0xb0, &u64_le(self.LoadContext));
        put(b.as_mut_slice(), 0xb8, &u64_le(self.ParentDllBase));
        put(b.as_mut_slice(), 0xc0, &u64_le(self.SwitchBackContext));
        put(b.as_mut_slice(), 0xc8, self.BaseAddressIndexNode.as_slice());
        put(b.as_mut_slice(), 0xe0, self.MappingInfoIndexNode.as_slice());
        put(b.as_mut_slice(), 0xf8, &u64_le(self.OriginalBase));
        put(b.as_mut_slice(), 0x100, &u64_le(self.LoadTime));
        put(b.as_mut_slice(), 0x108, &u32_le(self.BaseNameHashValue));
        put(b.as_mut_slice(), 0x10c, &u32_le(self.LoadReason));
        put(b.as_mut_slice(), 0x110, &u32_le(self.ImplicitPathOptions));
        put(b.as_mut_slice(), 0x114, &u32_le(self.ReferenceCount));
        put(b.as_mut_slice(), 0x118, &u32_le(self.DependentLoadFlags));
        let one: [u8; 1] = [self.SigningLevel];
        assert(one@ =~= seq![self.SigningLevel]);
        put(b.as_mut_slice(), 0x11c, &one);
        put(b.as_mut_slice(), 0x11d, self.Padding_Final.as_slice());
        b
    }
}

/// The KPCR that `Kpcr::setup` writes: descriptor tables, TSS, self
/// pointers and the processor block 0x180 bytes after it.
pub open spec fn kpcr_value(vaddr: u64, gdt_v: u64, idt_v: u64, tss_v: u64) -> KPCR {
    KPCR {
        GdtBase: gdt_v,
        TssBase: tss_v,
        SelfPcr: vaddr,
        CurrentPrcb: (vaddr + 0x180) as u64,
        Used_Self: vaddr,
        IdtBase: idt_v,
        MajorVersion: 1,
        MinorVersion: 1,
        StallScaleFactor: 0x24,
        ..KPCR::spec_zeroed()
    }
}

/// The KPRCB that `Kpcr::setup` writes: MXCSR, stack, Windows 10 build
/// 19041, a 3.6 GHz clock and the control registers of long mode.
pub open spec fn prcb_value(stack_v: u64) -> KPRCB {
    KPRCB {
        MxCsr: 0x1F80,
        RspBase: stack_v,
        MinorVersion: 19041,
        MajorVersion: 10,
        TscFrequency: 3600000000,
        MHz: 3600,
        ProcessorState: KPROCESSOR_STATE {
            SpecialRegisters: KSPECIAL_REGISTERS {
                Cr3: 0x8102000,
                Cr0: 0x80050033,
                Cr4: 0x6f8,
                ..KSPECIAL_REGISTERS::spec_zeroed()
            },
            ..KPROCESSOR_STATE::spec_zeroed()
        },
        ..KPRCB::spec_zeroed()
    }
}

/// Guest memory after the KPCR at `paddr`, the KPRCB after it, and the two
/// corrections of the KPRCB (GroupSetMember 1, InitialApicId 0) are written.
pub open spec fn kpcr_memory(
    mem: Seq<u8>,
    vaddr: u64,
    paddr: u64,
    gdt_v: u64,
    idt_v: u64,
    tss_v: u64,
    stack_v: u64,
) -> Seq<u8> {
    let m1 = spec_write(mem, paddr as int, kpcr_value(vaddr, gdt_v, idt_v, tss_v).image());
    let m2 = spec_write(m1, paddr + 0x180, prcb_value(stack_v).image());
    let m3 = spec_write(m2, paddr + 0x180 + 0xc8, le64(1));
    spec_write(m3, paddr + 0x180 + 0xd4, le32(0))
}

/// The processor control region of the boot processor.
pub struct Kpcr;

impl Kpcr {
    /// Writes the KPCR at physical `paddr` (virtual `vaddr`) and the KPRCB
    /// 0x180 bytes after it. Fails when either does not fit in memory; a
    /// KPCR that fits is then already written.
    pub fn setup(
        vm: &mut Vm,
        vaddr: u64,
        paddr: u64,
        gdt_v: u64,
        idt_v: u64,
        tss_v: u64,
        stack_v: u64,
    ) -> (r: Result<(), &'static str>)
        requires
            vaddr + 0x180 <= u64::MAX,
            paddr + 0x180 + 0xd4 <= u64::MAX,
        ensures
            !in_bounds(old(vm)@.len(), paddr as int, 0x180) ==> write_refused(r) && final(vm)@ == old(vm)@,
            in_bounds(old(vm)@.len(), paddr as int, 0x180) && !in_bounds(old(vm)@.len(), paddr + 0x180, 0x700) ==> write_refused(r)
                && final(vm)@ == spec_write(old(vm)@, paddr as int, kpcr_value(vaddr, gdt_v, idt_v, tss_v).image()),
            in_bounds(old(vm)@.len(), paddr + 0x180, 0x700) ==> r is Ok && final(vm)@ == kpcr_memory(
                old(vm)@, vaddr, paddr, gdt_v, idt_v, tss_v, stack_v),
    {
        let mut kpcr = KPCR::zeroed();
        kpcr.GdtBase = gdt_v;
        kpcr.TssBase = tss_v;
        kpcr.SelfPcr = vaddr;
        kpcr.CurrentPrcb = vaddr + 0x180;
        kpcr.Used_Self = vaddr;
        kpcr.IdtBase = idt_v;
        kpcr.MajorVersion = 1;
        kpcr.MinorVersion = 1;
        kpcr.StallScaleFactor = 0x00000024;
        assert(kpcr == kpcr_value(vaddr, gdt_v, idt_v, tss_v));

        let mut prcb = KPRCB::zeroed();
        prcb.MxCsr = 0x1F80;
        prcb.RspBase = stack_v;
        prcb.MinorVersion = 19041;
        prcb.MajorVersion = 10;
        prcb.TscFrequency = 3600000000;
        prcb.MHz = 3600;
        prcb.ProcessorState.SpecialRegisters.Cr3 = 0x8102000;
        prcb.ProcessorState.SpecialRegisters.Cr0 = 0x80050033;
        prcb.ProcessorState.SpecialRegisters.Cr4 = 0x6f8;
        assert(prcb == prcb_value(stack_v));

        let kpcr_bytes = kpcr.to_bytes();
        vm.write_memory_at(paddr, kpcr_bytes.as_slice())?;
        let prcb_bytes = prcb.to_bytes();
        vm.write_memory_at(paddr + 0x180, prcb_bytes.as_slice())?;

        // corrections of the KPRCB
        let _ = vm.write_memory_at(paddr + 0x180 + 0xc8, &u64_le(1));
        let _ = vm.write_memory_at(paddr + 0x180 + 0xd4, &u32_le(0));
        Ok(())
    }
}

/// The loader parameter block that `LoaderParameterBlock::setup` writes.
pub open spec fn lpb_value(
    lpb_v: u64,
    prcb_v: u64,
    stack_v: u64,
    stack_size: u32,
    registry_v: u64,
    registry_size: u32,
    nls_v: u64,
) -> LOADER_PARAMETER_BLOCK {
    LOADER_PARAMETER_BLOCK {
        OsMajorVersion: 10,
        Size: 0x160,
        KernelStack: stack_v,
        Prcb: prcb_v,
        Process: (prcb_v - 0x180 + 0x6000) as u64,
        Thread: (prcb_v - 0x180 + 0x5000) as u64,
        KernelStackSize: stack_size,
        RegistryLength: registry_size,
        RegistryBase: registry_v,
        NlsData: nls_v,
        Extension: (lpb_v + 0x8000) as u64,
        LoadOptions: (lpb_v + 0xC000) as u64,
        ..LOADER_PARAMETER_BLOCK::spec_zeroed()
    }
}

/// The loader parameter block handed to the kernel's entry point.
pub struct LoaderParameterBlock;

impl LoaderParameterBlock {
    /// Writes the empty load-options string at `lpb_p + 0xC000` (skipped when it
    /// does not fit) and then the loader parameter block at `lpb_p`; the
    /// process and thread objects lie 0x6000 and 0x5000 bytes after the KPCR,
    /// which is 0x180 bytes before `prcb_v`. Fails when the block does not fit.
    pub fn setup(
        vm: &mut Vm,
        lpb_v: u64,
        lpb_p: u64,
        prcb_v: u64,
        stack_v: u64,
        stack_size: u32,
        registry_v: u64,
        registry_size: u32,
        nls_v: u64,
    ) -> (r: Result<(), &'static str>)
        requires
            lpb_v + 0xC000 <= u64::MAX,
            lpb_p + 0xC000 <= u64::MAX,
            prcb_v >= 0x180,
            prcb_v - 0x180 + 0x6000 <= u64::MAX,
        ensures
            ({
                let m1 = if in_bounds(old(vm)@.len(), lpb_p + 0xC000, 1) {
                    spec_write(old(vm)@, lpb_p + 0xC000, seq![0u8])
                } else {
                    old(vm)@
                };
                &&& in_bounds(old(vm)@.len(), lpb_p as int, 0x160) ==> r is Ok && final(vm)@ == spec_write(
                    m1,
                    lpb_p as int,
                    lpb_value(lpb_v, prcb_v, stack_v, stack_size, registry_v, registry_size, nls_v).image(),
                )
                &&& !in_bounds(old(vm)@.len(), lpb_p as int, 0x160) ==> write_refused(r) && final(vm)@ == m1
            }),
    {
        let mut lpb = LOADER_PARAMETER_BLOCK::zeroed();
        lpb.OsMajorVersion = 10;
        lpb.Size = 0x160;
        lpb.KernelStack = stack_v;
        lpb.Prcb = prcb_v;
        let kpcr_v = prcb_v - 0x180;
        lpb.Process = kpcr_v + 0x6000;
        lpb.Thread = kpcr_v + 0x5000;
        lpb.KernelStackSize = stack_size;
        lpb.RegistryLength = registry_size;
        lpb.RegistryBase = registry_v;
        lpb.NlsData = nls_v;
        lpb.Extension = lpb_v + 0x8000;

        // the load options: an empty, NUL-terminated string
        let options_bytes: Vec<u8> = vec![0u8];
        assert(options_bytes@ =~= seq![0u8]);
        let _ = vm.write_memory_at(lpb_p + 0xC000, options_bytes.as_slice());
        lpb.LoadOptions = lpb_v + 0xC000;
        assert(lpb == lpb_value(lpb_v, prcb_v, stack_v, stack_size, registry_v, registry_size, nls_v));

        let bytes = lpb.to_bytes();
        vm.write_memory_at(lpb_p, bytes.as_slice())?;
        Ok(())
    }

    /// Writes a memory descriptor of type `mem_type` covering `size` bytes from
    /// `base_addr` at physical `entry_p`; its list links are left zero.
    pub fn add_memory(
        vm: &mut Vm,
        _lpb_v: u64,
        _lpb_p: u64,
        _entry_v: u64,
        entry_p: u64,
        base_addr: u64,
        size: u64,
        mem_type: u32,
    ) -> (r: Result<(), &'static str>)
        requires
            mem_type < 19,
        ensures
            in_bounds(old(vm)@.len(), entry_p as int, 0x28) ==> r is Ok && final(vm)@ == spec_write(
                old(vm)@,
                entry_p as int,
                zeros(0x10) + le32(mem_type) + zeros(4) + le64(base_addr >> 12) + le64(size >> 12),
            ),
            !in_bounds(old(vm)@.len(), entry_p as int, 0x28) ==> write_refused(r) && final(vm)@ == old(vm)@,
    {
        let mut desc = MEMORY_ALLOCATION_DESCRIPTOR::zeroed();
        match TYPE_OF_MEMORY::from_code(mem_type) {
            Some(t) => {
                desc.MemoryType = t;
            },
            None => {},
        }
        desc.BasePage = base_addr >> 12;
        desc.PageCount = size >> 12;
        let bytes = desc.to_bytes();
        proof {
            lemma_le64_zero();
            assert(bytes@ =~= zeros(0x10) + le32(mem_type) + zeros(4) + le64(base_addr >> 12) + le64(size >> 12));
        }
        vm.write_memory_at(entry_p, bytes.as_slice())?;
        Ok(())
    }
}

/// The loader parameter extension that `LoaderParameterExtension::setup`
/// builds: its size, boot flags, Windows 10.0, and an empty HAL extension
/// module list whose links point at `ext_v + 0xA18`.
pub open spec fn extension_value(ext_v: u64) -> LOADER_PARAMETER_EXTENSION {
    LOADER_PARAMETER_EXTENSION {
        Size: 0xE38,
        Bitfields: 0x4000,
        MajorRelease: 10,
        MinorRelease: 0,
        HalExtensionModuleList: LIST_ENTRY {
            Flink: (ext_v + 0xA18) as u64,
            Blink: (ext_v + 0xA18) as u64,
        },
        ..LOADER_PARAMETER_EXTENSION::spec_zeroed()
    }
}

/// The extension of the loader parameter block.
pub struct LoaderParameterExtension;

impl LoaderParameterExtension {
    /// Offset of the extension from the loader parameter block.
    pub const OFFSET_IN_LPB: u64 = 0x8000;

    /// Writes the extension's 0xE38 bytes at physical `ext_p`. Fails, writing
    /// nothing, when they do not fit.
    pub fn setup(vm: &mut Vm, ext_p: u64, ext_v: u64) -> (r: Result<(), &'static str>)
        requires
            ext_v + 0xA18 <= u64::MAX,
        ensures
            in_bounds(old(vm)@.len(), ext_p as int, 0xE38) ==> r is Ok && final(vm)@ == spec_write(
                old(vm)@,
                ext_p as int,
                extension_value(ext_v).image(),
            ),
            !in_bounds(old(vm)@.len(), ext_p as int, 0xE38) ==> write_refused(r) && final(vm)@ == old(vm)@,
    {
        let mut ext = LOADER_PARAMETER_EXTENSION::zeroed();
        ext.Size = 0xE38;
        ext.Bitfields = 0x4000;
        ext.MajorRelease = 10;
        ext.MinorRelease = 0;
        let list_head_v = ext_v + 0xA18;
        ext.HalExtensionModuleList.Flink = list_head_v;
        ext.HalExtensionModuleList.Blink = list_head_v;
        assert(ext == extension_value(ext_v));
        let bytes = ext.to_bytes();
        vm.write_memory_at(ext_p, bytes.as_slice())?;
        Ok(())
    }

    /// Points the extension at physical `ext_p` to the ACPI tables: the RSDP's
    /// virtual address at +0x78 and its size, 36, at +0x80. Fails when a field
    /// does not fit; the first is then written if it fits.
    pub fn set_acpi(vm: &mut Vm, ext_p: u64, rsdp_v: u64) -> (r: Result<(), &'static str>)
        requires
            ext_p + 0x80 <= u64::MAX,
        ensures
            !in_bounds(old(vm)@.len(), ext_p + 0x78, 8) ==> write_refused(r) && final(vm)@ == old(vm)@,
            in_bounds(old(vm)@.len(), ext_p + 0x78, 8) && !in_bounds(old(vm)@.len(), ext_p + 0x80, 4)
                ==> write_refused(r) && final(vm)@ == spec_write(old(vm)@, ext_p + 0x78, le64(rsdp_v)),
            in_bounds(old(vm)@.len(), ext_p + 0x80, 4) ==> r is Ok && final(vm)@ == spec_write(
                spec_write(old(vm)@, ext_p + 0x78, le64(rsdp_v)),
                ext_p + 0x80,
                le32(36),
            ),
    {
        vm.write_memory_at(ext_p + 0x78, &u64_le(rsdp_v))?;
        vm.write_memory_at(ext_p + 0x80, &u32_le(36))?;
        Ok(())
    }

    /// Points the extension at physical `ext_p` to the API set schema: its
    /// virtual address at +0xA80 and its size at +0xA88. Fails when a field
    /// does not fit; the first is then written if it fits.
    pub fn set_apiset(vm: &mut Vm, ext_p: u64, apiset_v: u64, size: u32) -> (r: Result<
        (),
        &'static str,
    >)
        requires
            ext_p + 0xA88 <= u64::MAX,
        ensures
            !in_bounds(old(vm)@.len(), ext_p + 0xA80, 8) ==> write_refused(r) && final(vm)@ == old(vm)@,
            in_bounds(old(vm)@.len(), ext_p + 0xA80, 8) && !in_bounds(old(vm)@.len(), ext_p + 0xA88, 4)
                ==> write_refused(r) && final(vm)@ == spec_write(old(vm)@, ext_p + 0xA80, le64(apiset_v)),
            in_bounds(old(vm)@.len(), ext_p + 0xA88, 4) ==> r is Ok && final(vm)@ == spec_write(
                spec_write(old(vm)@, ext_p + 0xA80, le64(apiset_v)),
                ext_p + 0xA88,
                le32(size),
            ),
    {
        vm.write_memory_at(ext_p + 0xA80, &u64_le(apiset_v))?;
        vm.write_memory_at(ext_p + 0xA88, &u32_le(size))?;
        Ok(())
    }
}

/// Pointing the extension at the ACPI tables after setting it up keeps the
/// rest of it: the extension then holds its size, the RSDP's address and
/// size, its empty HAL extension list at 0xA18 and its release number.
pub proof fn lemma_acpi_after_extension(mem: Seq<u8>, ext_p: u64, ext_v: u64, rsdp_v: u64)
    requires
        in_bounds(mem.len(), ext_p as int, 0xE38),
        ext_v + 0xA18 <= u64::MAX,
    ensures
        ({
            let m1 = spec_write(mem, ext_p as int, extension_value(ext_v).image());
            let m2 = spec_write(spec_write(m1, ext_p + 0x78, le64(rsdp_v)), ext_p + 0x80, le32(36));
            &&& m2.subrange(ext_p as int, ext_p + 4) == le32(0xE38)
            &&& m2.subrange(ext_p + 0x78, ext_p + 0x80) == le64(rsdp_v)
            &&& m2.subrange(ext_p + 0x80, ext_p + 0x84) == le32(36)
            &&& m2.subrange(ext_p + 0xA18, ext_p + 0xA20) == le64((ext_v + 0xA18) as u64)
            &&& m2.subrange(ext_p + 0xA20, ext_p + 0xA28) == le64((ext_v + 0xA18) as u64)
            &&& m2.subrange(ext_p + 0xB88, ext_p + 0xB8C) == le32(10)
        }),
{
    let img = extension_value(ext_v).image();
    let m1 = spec_write(mem, ext_p as int, img);
    let m2 = spec_write(spec_write(m1, ext_p + 0x78, le64(rsdp_v)), ext_p + 0x80, le32(36));
    let p = ext_p as int;
    assert(img.subrange(0, 4) =~= le32(0xE38));
    assert(img.subrange(0xA18, 0xA20) =~= le64((ext_v + 0xA18) as u64));
    assert(img.subrange(0xA20, 0xA28) =~= le64((ext_v + 0xA18) as u64));
    assert(img.subrange(0xB88, 0xB8C) =~= le32(10));
    assert(m2.subrange(p, p + 4) =~= img.subrange(0, 4));
    assert(m2.subrange(p + 0x78, p + 0x80) =~= le64(rsdp_v));
    assert(m2.subrange(p + 0x80, p + 0x84) =~= le32(36));
    assert(m2.subrange(p + 0xA18, p + 0xA20) =~= img.subrange(0xA18, 0xA20));
    assert(m2.subrange(p + 0xA20, p + 0xA28) =~= img.subrange(0xA20, 0xA28));
    assert(m2.subrange(p + 0xB88, p + 0xB8C) =~= img.subrange(0xB88, 0xB8C));
}

/// The UTF-16 code units of `c`: one unit below 0x10000, else a surrogate pair.
pub open spec fn utf16_units(c: char) -> Seq<u16> {
    let v = c as u32;
    if v < 0x10000 {
        seq![v as u16]
    } else {
        seq![(0xD800 + ((v - 0x10000) as u32 >> 10)) as u16, (0xDC00 + ((v - 0x10000) as u32 & 0x3FF)) as u16]
    }
}

/// The UTF-16 encoding of `s`, each code unit little endian.
pub open spec fn utf16le(s: Seq<char>) -> Seq<u8>
    decreases s.len(),
{
    if s.len() == 0 {
        Seq::empty()
    } else {
        let u = utf16_units(s.last());
        utf16le(s.drop_last()) + if u.len() == 1 {
            le16(u[0])
        } else {
            le16(u[0]) + le16(u[1])
        }
    }
}

/// The module entry that `LdrDataTableEntry::add_module` writes for an image
/// whose UTF-16 name is `name_len` bytes long and stored at `name_v`.
pub open spec fn ldr_value(
    img_base: u64,
    entry_point: u64,
    size: u32,
    name_len: u16,
    name_v: u64,
) -> LDR_DATA_TABLE_ENTRY {
    LDR_DATA_TABLE_ENTRY {
        DllBase: img_base,
        EntryPoint: entry_point,
        SizeOfImage: size,
        Flags: 0x40004,
        ObsoleteLoadCount: 1,
        FullDllName: UNICODE_STRING { Length: name_len, MaximumLength: (name_len + 2) as u16, Buffer: name_v },
        BaseDllName: UNICODE_STRING { Length: name_len, MaximumLength: (name_len + 2) as u16, Buffer: name_v },
        ..LDR_DATA_TABLE_ENTRY::spec_zeroed()
    }
}

/// A loaded module's entry in the kernel's module lists.
pub struct LdrDataTableEntry;

impl LdrDataTableEntry {
    /// Writes a module entry at physical `entry_p` (virtual `entry_v`) and the
    /// module's name in UTF-16 0x150 bytes after it, where the entry points.
    /// Fails when the entry, or then the name, does not fit; the list links are
    /// left zero.
    pub fn add_module(
        vm: &mut Vm,
        _entry_v: u64,
        entry_p: u64,
        img_base: u64,
        entry_point: u64,
        size: u32,
        name: &str,
    ) -> (r: Result<(), &'static str>)
        requires
            _entry_v + 0x150 <= u64::MAX,
            entry_p + 0x150 <= u64::MAX,
            utf16le(name@).len() % 0x10000 + 2 <= 0xFFFF,
        ensures
            ({
                let len = (utf16le(name@).len() % 0x10000) as u16;
                let entry = ldr_value(img_base, entry_point, size, len, (_entry_v + 0x150) as u64).image();
                let m1 = spec_write(old(vm)@, entry_p as int, entry);
                &&& !in_bounds(old(vm)@.len(), entry_p as int, 0x120) ==> write_refused(r) && final(vm)@ == old(vm)@
                &&& in_bounds(old(vm)@.len(), entry_p as int, 0x120) && !in_bounds(
                    old(vm)@.len(),
                    entry_p + 0x150,
                    utf16le(name@).len() as int,
                ) ==> write_refused(r) && final(vm)@ == m1
                &&& in_bounds(old(vm)@.len(), entry_p as int, 0x120) && in_bounds(
                    old(vm)@.len(),
                    entry_p + 0x150,
                    utf16le(name@).len() as int,
                ) ==> r is Ok && final(vm)@ == spec_write(m1, entry_p + 0x150, utf16le(name@))
            }),
    {
        let mut ldr = LDR_DATA_TABLE_ENTRY::zeroed();
        ldr.DllBase = img_base;
        ldr.EntryPoint = entry_point;
        ldr.SizeOfImage = size;
        ldr.Flags = 0x40004;
        ldr.ObsoleteLoadCount = 1;
        let name_v = _entry_v + 0x150;
        let name_u16 = encode_utf16_le(name);
        let len = (name_u16.len() % 0x10000) as u16;
        ldr.FullDllName.Length = len;
        ldr.FullDllName.MaximumLength = len + 2;
        ldr.FullDllName.Buffer = name_v;
        ldr.BaseDllName.Length = len;
        ldr.BaseDllName.MaximumLength = len + 2;
        ldr.BaseDllName.Buffer = name_v;
        assert(ldr == ldr_value(img_base, entry_point, size, len, name_v));
        let bytes = ldr.to_bytes();
        vm.write_memory_at(entry_p, bytes.as_slice())?;
        vm.write_memory_at(entry_p + 0x150, name_u16.as_slice())?;
        Ok(())
    }
}

/// The UTF-16 encoding of `s`, each code unit little endian.
pub fn encode_utf16_le(s: &str) -> (out: Vec<u8>)
    ensures
        out@ == utf16le(s@),
{
    let mut out: Vec<u8> = Vec::new();
    let ghost all = s@;
    for c in it: s.chars()
        invariant
            it.seq() == all,
            out@ == utf16le(all.take(it.index() as int)),
    {
        let v = c as u32;
        proof {
            assert(all.take(it.index() + 1).drop_last() =~= all.take(it.index() as int));
        }
        if v < 0x10000 {
            out.extend_from_slice(&u16_le(v as u16));
        } else {
            proof {
                vstd::utf8::char_is_scalar(c);
            }
            assert(v <= 0x10FFFF);
            let w = v - 0x10000;
            assert(w >> 10 <= 0x3FF && w & 0x3FF <= 0x3FF) by (bit_vector)
                requires w <= 0xFFFFF;
            out.extend_from_slice(&u16_le((0xD800 + (w >> 10)) as u16));
            out.extend_from_slice(&u16_le((0xDC00 + (w & 0x3FF)) as u16));
        }
        proof {
            assert(out@ =~= utf16le(all.take(it.index() + 1)));
        }
    }
    assert(all.take(all.len() as int) =~= all);
    out
}

/// The bytes of zero, little endian, are all zero.
pub proof fn lemma_le64_zero()
    ensures
        le64(0) == zeros(8),
        le32(0) == zeros(4),
        le16(0) == zeros(2),
{
    assert(le64(0) =~= zeros(8)) by {
        assert((0u64 >> 8) as u8 == 0 && (0u64 >> 16) as u8 == 0 && (0u64 >> 24) as u8 == 0 && (0u64 >> 32) as u8 == 0
            && (0u64 >> 40) as u8 == 0 && (0u64 >> 48) as u8 == 0 && (0u64 >> 56) as u8 == 0) by (bit_vector);
    }
    assert(le32(0) =~= zeros(4)) by {
        assert((0u32 >> 8) as u8 == 0 && (0u32 >> 16) as u8 == 0 && (0u32 >> 24) as u8 == 0) by (bit_vector);
    }
    assert(le16(0) =~= zeros(2)) by {
        assert((0u16 >> 8) as u8 == 0) by (bit_vector);
    }
}

} // verus!
