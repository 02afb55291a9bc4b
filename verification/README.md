# vwfl

A minimal Windows 10 kernel loader and KVM host. The library (`src/`) builds
everything the kernel expects to find in guest memory at its entry point and
decides what the virtual processor's exits mean. Its functions carry
contracts proved by Verus, except the few that call into std or the `object`
crate (`text::lossy_string`, `text::lowercase` and the wrappers in
`object_file`): their contracts are assumed, and each one's doc comment says
what it claims of the outside code.

- `vm`: guest physical memory, bounds-checked reads and writes, and the
  algebra of sequences of writes used by the other modules' contracts.
- `bytes`, `text`: little-endian encodings, byte sums, decimal and
  hexadecimal text, and text produced by std's conversions.
- `acpi`: RSDP, XSDT, MADT, FADT, HPET and DSDT tables with valid checksums.
- `paging`: the kernel's page tables and a page-table walker.
- `loaderblock`, `nt_types`, `nls`: the KPCR/KPRCB, the loader parameter block
  and its extension, memory descriptors, module entries and NLS data.
- `boot`: KUSER_SHARED_DATA, the boot GDT, the module, HAL extension and
  memory descriptor lists, the SYSTEM hive and the API set schema.
- `pe`, `object_file`: PE images (sections, exports, imports, relocations),
  read with the `object` crate.
- `cpu`, `devices`, `gdb`: the long-mode entry state, the emulated APIC, HPET
  and serial port, the exit decisions, and the debugger's view of registers
  and memory.

`app/` is the program around it: KVM setup, the processor's run loop, the
GDB stub and the WinDbg bridge.
