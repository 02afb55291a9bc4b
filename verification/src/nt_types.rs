//! Basic Windows kernel types shared by the loader structures.
use vstd::prelude::*;

verus! {

/// _LIST_ENTRY: a doubly linked list link, 0x10 bytes.
#[allow(non_camel_case_types, non_snake_case)]
#[derive(Clone, Copy)]
pub struct LIST_ENTRY {
    /// Offset 0x0: the next entry.
    pub Flink: u64,
    /// Offset 0x8: the previous entry.
    pub Blink: u64,
}

/// _UNICODE_STRING: a counted UTF-16 string, 0x10 bytes.
#[allow(non_camel_case_types, non_snake_case)]
#[derive(Clone, Copy)]
pub struct UNICODE_STRING {
    /// Offset 0x0: length of the string in bytes.
    pub Length: u16,
    /// Offset 0x2: size of the buffer in bytes.
    pub MaximumLength: u16,
    /// Offset 0x8: address of the buffer.
    pub Buffer: u64,
}

/// _NLS_DATA_BLOCK as the loader hands it over: the code page and case
/// tables, 0x28 bytes.
#[allow(non_camel_case_types, non_snake_case)]
#[derive(Clone, Copy)]
pub struct NLS_DATA_BLOCK {
    /// Offset 0x0: the ANSI code page table.
    pub AnsiCodePageData: u64,
    /// Offset 0x8: the OEM code page table.
    pub OemCodePageData: u64,
    /// Offset 0x10: the Unicode upcase table.
    pub UnicodeCaseTableData: u64,
    /// Offset 0x18.
    pub AppXDefaultRegion: u64,
    /// Offset 0x20.
    pub DefaultLocale: u64,
}

} // verus!
