//! A minimal Windows kernel loader and KVM host: guest memory, ACPI tables,
//! page tables, loader block images and PE image parsing.
use vstd::prelude::*;

pub mod bytes;
pub mod vm;
pub mod acpi;
pub mod layout;
pub mod paging;
pub mod nt_types;
pub mod loaderblock;
pub mod nls;
pub mod text;
pub mod pe;
pub mod object_file;
pub mod devices;
pub mod cpu;
pub mod gdb;
pub mod boot;

