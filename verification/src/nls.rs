//! National language support data that the kernel expects from its loader.
use vstd::prelude::*;
use crate::bytes::{le16, le64, u16_le, u64_le};
use crate::nt_types::NLS_DATA_BLOCK;
use crate::vm::{try_writes, Vm};

verus! {

/// The upper case of UTF-16 code unit `c` as the boot upcase table gives it:
/// ASCII and Latin-1 letters lose 0x20 (but not 0xF7), odd code units of the
/// Latin Extended-A pairs in 0x100..=0x12E and 0x132..=0x148 lose 1; every
/// other unit is its own upper case.
pub open spec fn upcase(c: int) -> int {
    if 0x61 <= c <= 0x7A {
        c - 0x20
    } else if 0xE0 <= c <= 0xFE && c != 0xF7 {
        c - 0x20
    } else if 0x100 <= c <= 0x12E && c % 2 != 0 {
        c - 1
    } else if 0x132 <= c <= 0x148 && c % 2 != 0 {
        c - 1
    } else {
        c
    }
}

/// Upper-casing is idempotent and never raises a code unit: the upper case
/// of an upper case is itself, and each unit maps to itself or a unit below.
pub proof fn lemma_upcase_idempotent(c: int)
    requires
        0 <= c < 0x10000,
    ensures
        upcase(upcase(c)) == upcase(c),
        0 <= upcase(c) <= c,
{
}

/// The upcase table of all 65536 UTF-16 code units: the upper case of unit `i`
/// as a little-endian 16-bit value at bytes `2 * i` and `2 * i + 1`.
pub fn generate_windows_upcase_table() -> (raw_bytes: Vec<u8>)
    ensures
        raw_bytes@.len() == 131072,
        forall|k: int|
            0 <= k < 131072 ==> #[trigger] raw_bytes@[k] == le16(upcase(k / 2) as u16)[k % 2],
{
    let mut raw_bytes: Vec<u8> = Vec::with_capacity(131072);
    let mut i: u32 = 0;
    while i < 65536
        invariant
            i <= 65536,
            raw_bytes@.len() == 2 * i,
            forall|k: int|
                0 <= k < raw_bytes@.len() ==> #[trigger] raw_bytes@[k] == le16(upcase(k / 2) as u16)[k
                    % 2],
        decreases 65536 - i,
    {
        let mut c = i;
        if c >= 0x0061 && c <= 0x007A {
            c -= 0x20;
        } else if c >= 0x00E0 && c <= 0x00FE && c != 0x00F7 {
            c -= 0x20;
        } else if c >= 0x0100 && c <= 0x012E && (c % 2 != 0) {
            c -= 1;
        } else if c >= 0x0132 && c <= 0x0148 && (c % 2 != 0) {
            c -= 1;
        }
        assert(c == upcase(i as int));
        let b = u16_le(c as u16);
        let ghost before = raw_bytes@;
        raw_bytes.push(b[0]);
        raw_bytes.push(b[1]);
        assert forall|k: int| 0 <= k < raw_bytes@.len() implies #[trigger] raw_bytes@[k] == le16(
            upcase(k / 2) as u16,
        )[k % 2] by {
            if k >= before.len() {
                assert(k / 2 == i as int);
                assert(k % 2 == k - before.len());
            }
        }
        i += 1;
    }
    raw_bytes
}

impl NLS_DATA_BLOCK {
    /// The block's bytes in memory.
    pub open spec fn image(self) -> Seq<u8> {
        le64(self.AnsiCodePageData) + le64(self.OemCodePageData) + le64(self.UnicodeCaseTableData) + le64(
            self.AppXDefaultRegion,
        ) + le64(self.DefaultLocale)
    }

    /// The block's bytes in memory.
    pub fn to_bytes(&self) -> (r: Vec<u8>)
        ensures
            r@ == self.image(),
    {
        let mut r: Vec<u8> = Vec::new();
        r.extend_from_slice(&u64_le(self.AnsiCodePageData));
        r.extend_from_slice(&u64_le(self.OemCodePageData));
        r.extend_from_slice(&u64_le(self.UnicodeCaseTableData));
        r.extend_from_slice(&u64_le(self.AppXDefaultRegion));
        r.extend_from_slice(&u64_le(self.DefaultLocale));
        assert(r@ =~= self.image());
        r
    }
}

/// The NLS data block for tables laid out from `nls_v`: the ANSI code page
/// 0x1020 bytes in, the OEM code page 0x11020 bytes in (both past their
/// 0x20-byte file headers) and the upcase table 0x21000 bytes in.
pub open spec fn nls_block_value(nls_v: u64) -> NLS_DATA_BLOCK {
    NLS_DATA_BLOCK {
        AnsiCodePageData: (nls_v + 0x1020) as u64,
        OemCodePageData: (nls_v + 0x11020) as u64,
        UnicodeCaseTableData: (nls_v + 0x21000) as u64,
        AppXDefaultRegion: 0,
        DefaultLocale: 0,
    }
}

/// The writes of the NLS data: the ANSI and OEM code page files and the
/// upcase table at 0x1000, 0x11000 and 0x21000 past `nls_p`, then the data
/// block at `nls_p`.
pub open spec fn nls_writes(nls_p: u64, nls_v: u64, ansi: Seq<u8>, oem: Seq<u8>, upcase: Seq<u8>) -> Seq<(int, Seq<u8>)> {
    seq![
        (nls_p + 0x1000, ansi),
        (nls_p + 0x11000, oem),
        (nls_p + 0x21000, upcase),
        (nls_p as int, nls_block_value(nls_v).image()),
    ]
}

/// Places the code page files `ansi` and `oem`, the upcase table and the
/// NLS data block describing them at physical `nls_p` (virtual `nls_v`);
/// each write is skipped when it does not fit.
pub fn write_nls_data(vm: &mut Vm, nls_p: u64, nls_v: u64, ansi: &[u8], oem: &[u8], upcase: &[u8])
    requires
        nls_p + 0x21000 <= u64::MAX,
        nls_v + 0x21000 <= u64::MAX,
    ensures
        final(vm)@ == try_writes(old(vm)@, nls_writes(nls_p, nls_v, ansi@, oem@, upcase@)),
{
    let ghost ws = nls_writes(nls_p, nls_v, ansi@, oem@, upcase@);
    let ghost m0 = vm@;
    let _ = vm.write_memory_at(nls_p + 0x1000, ansi);
    let ghost m1 = vm@;
    let _ = vm.write_memory_at(nls_p + 0x11000, oem);
    let ghost m2 = vm@;
    let _ = vm.write_memory_at(nls_p + 0x21000, upcase);
    let ghost m3 = vm@;
    let block = NLS_DATA_BLOCK {
        AnsiCodePageData: nls_v + 0x1000 + 0x20,
        OemCodePageData: nls_v + 0x11000 + 0x20,
        UnicodeCaseTableData: nls_v + 0x21000,
        AppXDefaultRegion: 0,
        DefaultLocale: 0,
    };
    let bytes = block.to_bytes();
    let _ = vm.write_memory_at(nls_p, bytes.as_slice());
    proof {
        let w1 = ws.drop_last().drop_last().drop_last();
        let w2 = ws.drop_last().drop_last();
        let w3 = ws.drop_last();
        assert(w1.drop_last() =~= Seq::<(int, Seq<u8>)>::empty());
        assert(w1.last() == ws[0]);
        assert(w2.drop_last() == w1);
        assert(w2.last() == ws[1]);
        assert(w3.drop_last() == w2);
        assert(w3.last() == ws[2]);
        assert(ws.last() == ws[3]);
        assert(try_writes(m0, w1.drop_last()) == m0);
        assert(try_writes(m0, w1) == m1);
        assert(try_writes(m0, w2) == m2);
        assert(try_writes(m0, w3) == m3);
    }
}

} // verus!
