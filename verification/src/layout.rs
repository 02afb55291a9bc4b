//! The guest's physical and virtual memory layout.
use vstd::prelude::*;

verus! {

/// Physical base of the kernel image.
pub const KRNL_PBASE: u64 = 0x200000;

/// Physical base of the HAL image.
pub const HAL_PBASE: u64 = 0x2000000;

/// Physical base of the system area: GDT, TSS, IDT and page tables.
pub const SYSTEM_BASE: u64 = 0x8000000;

/// Physical base of the loader parameter block.
pub const LPB_PBASE: u64 = 0x4000000;

/// Physical address of the KPCR.
pub const KPCR_PBASE: u64 = 0x4010000;

/// Physical base of the ACPI tables.
pub const ACPI_PBASE: u64 = 0x5000000;

/// Physical address of KUSER_SHARED_DATA.
pub const KUSER_PBASE: u64 = 0x9000000;

/// Physical base of the kernel stack area.
pub const STACK_PBASE: u64 = 0x0A000000;

/// Virtual address at which the low physical memory is mapped for the kernel.
pub const K_VIRT_ANY: u64 = 0xFFFFF80000000000;

/// Virtual base of the loader parameter block.
pub const LPB_VBASE: u64 = 0xFFFFF80004000000;

/// Virtual address of the KPCR.
pub const KPCR_VBASE: u64 = 0xFFFFF80004010000;

/// Virtual base of the ACPI tables.
pub const ACPI_VBASE: u64 = 0xFFFFF80005000000;

/// Virtual base of the kernel stack area.
pub const STACK_VBASE: u64 = 0xFFFFFE8000000000;

/// Kernel virtual address of KUSER_SHARED_DATA.
pub const KUSER_VBASE: u64 = 0xFFFFF78000000000;

} // verus!
