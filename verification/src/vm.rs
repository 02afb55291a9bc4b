//! Guest physical memory of the virtual machine.
use vstd::prelude::*;

verus! {

/// Size of guest memory: 8 GiB.
pub const MEM_SIZE: u64 = 0x2_0000_0000;

/// Guest physical address where the MMIO hole begins (3 GiB).
pub const MMIO_HOLE_START: u64 = 0xC000_0000;

/// Size of the MMIO hole, which ends at 4 GiB.
pub const MMIO_HOLE_SIZE: u64 = 0x4000_0000;

/// `mem` with `data` written at `offset`; the other bytes are unchanged.
pub open spec fn spec_write(mem: Seq<u8>, offset: int, data: Seq<u8>) -> Seq<u8> {
    Seq::new(
        mem.len(),
        |i: int|
            if offset <= i < offset + data.len() {
                data[i - offset]
            } else {
                mem[i]
            },
    )
}

/// `mem` after a write whose failure is ignored: `data` written at `offset`
/// when it fits, else `mem` unchanged.
pub open spec fn try_write(mem: Seq<u8>, offset: int, data: Seq<u8>) -> Seq<u8> {
    if in_bounds(mem.len(), offset, data.len() as int) {
        spec_write(mem, offset, data)
    } else {
        mem
    }
}

/// `r` is the refusal of a write that would run past the end of memory.
pub open spec fn write_refused<T>(r: Result<T, &'static str>) -> bool {
    r matches Err(e) && e@ == "Memory write out of bounds"@
}

/// `r` is the refusal of a read that would run past the end of memory.
pub open spec fn read_refused<T>(r: Result<T, &'static str>) -> bool {
    r matches Err(e) && e@ == "Memory read out of bounds"@
}

/// A write of `len` bytes at `offset` lies inside memory of `size` bytes.
pub open spec fn in_bounds(size: nat, offset: int, len: int) -> bool {
    offset + len <= size
}

/// The guest's physical memory, a flat byte array addressed from 0.
pub struct Vm {
    mem: Vec<u8>,
}

impl View for Vm {
    type V = Seq<u8>;

    closed spec fn view(&self) -> Seq<u8> {
        self.mem@
    }
}

impl Vm {
    /// Guest memory of `size` bytes, all zero.
    pub fn with_memory_size(size: usize) -> (vm: Vm)
        ensures
            vm@ == Seq::new(size as nat, |i: int| 0u8),
    {
        let mem = vec![0u8; size];
        proof {
            assert forall|i: int| 0 <= i < size implies mem@[i] == 0u8 by {
                assert(vstd::pervasive::cloned(0u8, mem@[i]));
            }
        }
        let vm = Vm { mem };
        assert(vm@ =~= Seq::new(size as nat, |i: int| 0u8));
        vm
    }

    /// The number of bytes of guest memory.
    pub fn mem_size(&self) -> (n: usize)
        ensures
            n == self@.len(),
    {
        self.mem.len()
    }

    /// The guest memory itself, to be shared with the hypervisor: what is
    /// written through it is what the memory then holds.
    pub fn memory_mut(&mut self) -> (r: &mut [u8])
        ensures
            r@ == old(self)@,
            final(self)@ == final(r)@,
    {
        self.mem.as_mut_slice()
    }

    /// Copies `data` into guest memory at `offset`; refuses a write that would
    /// run past the end of memory and then changes nothing.
    pub fn write_memory(&mut self, offset: usize, data: &[u8]) -> (r: Result<(), &'static str>)
        ensures
            in_bounds(old(self)@.len(), offset as int, data@.len() as int) ==> r is Ok && final(self)@ == spec_write(old(self)@, offset as int, data@),
            !in_bounds(old(self)@.len(), offset as int, data@.len() as int) ==> write_refused(r) && final(self)@ == old(self)@,
    {
        if offset > self.mem.len() || data.len() > self.mem.len() - offset {
            return Err("Memory write out of bounds");
        }
        let mut i: usize = 0;
        while i < data.len()
            invariant
                offset + data@.len() <= self.mem@.len() <= usize::MAX,
                self.mem@.len() == old(self)@.len(),
                i <= data@.len(),
                forall|j: int|
                    #![trigger self.mem@[j]]
                    0 <= j < self.mem@.len() ==> self.mem@[j] == (if offset <= j < offset + i {
                        data@[j - offset]
                    } else {
                        old(self)@[j]
                    }),
            decreases data@.len() - i,
        {
            self.mem.set(offset + i, data[i]);
            i += 1;
        }
        assert(self.mem@ =~= spec_write(old(self)@, offset as int, data@));
        Ok(())
    }

    /// `write_memory` at a guest physical address given as a 64-bit value.
    pub fn write_memory_at(&mut self, paddr: u64, data: &[u8]) -> (r: Result<(), &'static str>)
        ensures
            in_bounds(old(self)@.len(), paddr as int, data@.len() as int) ==> r is Ok && final(self)@ == spec_write(old(self)@, paddr as int, data@),
            !in_bounds(old(self)@.len(), paddr as int, data@.len() as int) ==> write_refused(r) && final(self)@ == old(self)@,
    {
        if paddr > self.mem_size() as u64 {
            return Err("Memory write out of bounds");
        }
        self.write_memory(paddr as usize, data)
    }

    /// `read_memory` at a guest physical address given as a 64-bit value.
    pub fn read_memory_at(&self, paddr: u64, data: &mut [u8]) -> (r: Result<(), &'static str>)
        ensures
            in_bounds(self@.len(), paddr as int, old(data)@.len() as int) ==> r is Ok && final(data)@ == self@.subrange(paddr as int, paddr + old(data)@.len()),
            !in_bounds(self@.len(), paddr as int, old(data)@.len() as int) ==> read_refused(r) && final(data)@ == old(data)@,
    {
        if paddr > self.mem_size() as u64 {
            return Err("Memory read out of bounds");
        }
        self.read_memory(paddr as usize, data)
    }

    /// Copies the bytes of guest memory at `offset` into `data`; refuses a read
    /// that would run past the end of memory and then leaves `data` unchanged.
    pub fn read_memory(&self, offset: usize, data: &mut [u8]) -> (r: Result<(), &'static str>)
        ensures
            in_bounds(self@.len(), offset as int, old(data)@.len() as int) ==> r is Ok && final(data)@ == self@.subrange(offset as int, offset + old(data)@.len()),
            !in_bounds(self@.len(), offset as int, old(data)@.len() as int) ==> read_refused(r) && final(data)@ == old(data)@,
    {
        if offset > self.mem.len() || data.len() > self.mem.len() - offset {
            return Err("Memory read out of bounds");
        }
        let mut i: usize = 0;
        while i < data.len()
            invariant
                offset + data@.len() <= self.mem@.len() <= usize::MAX,
                data@.len() == old(data)@.len(),
                i <= data@.len(),
                forall|j: int| 0 <= j < i ==> data@[j] == self.mem@[offset + j],
            decreases data@.len() - i,
        {
            data[i] = self.mem[offset + i];
            i += 1;
        }
        assert(data@ =~= self@.subrange(offset as int, offset + old(data)@.len()));
        Ok(())
    }
}

/// A read of a region just written gives back the bytes written, and memory
/// outside the region keeps its old bytes.
pub proof fn lemma_read_after_write(mem: Seq<u8>, offset: int, data: Seq<u8>)
    requires
        0 <= offset,
        in_bounds(mem.len(), offset, data.len() as int),
    ensures
        spec_write(mem, offset, data).subrange(offset, offset + data.len()) == data,
        spec_write(mem, offset, data).len() == mem.len(),
        forall|i: int|
            0 <= i < mem.len() && !(offset <= i < offset + data.len()) ==> spec_write(
                mem,
                offset,
                data,
            )[i] == mem[i],
{
    assert(spec_write(mem, offset, data).subrange(offset, offset + data.len()) =~= data);
}

/// `mem` after the writes `ws` in order, each one skipped when it does not fit.
pub open spec fn try_writes(mem: Seq<u8>, ws: Seq<(int, Seq<u8>)>) -> Seq<u8>
    decreases ws.len(),
{
    if ws.len() == 0 {
        mem
    } else {
        try_write(try_writes(mem, ws.drop_last()), ws.last().0, ws.last().1)
    }
}

/// Two writes touch no common byte.
pub open spec fn disjoint_writes(a: (int, Seq<u8>), b: (int, Seq<u8>)) -> bool {
    a.0 + a.1.len() <= b.0 || b.0 + b.1.len() <= a.0
}

/// Writes skipped or not, memory keeps its size.
pub proof fn lemma_try_writes_len(mem: Seq<u8>, ws: Seq<(int, Seq<u8>)>)
    ensures
        try_writes(mem, ws).len() == mem.len(),
    decreases ws.len(),
{
    if ws.len() > 0 {
        lemma_try_writes_len(mem, ws.drop_last());
    }
}

/// After a sequence of writes, the bytes of write `k` read back as written
/// when it fits in memory and no later write touches them.
pub proof fn lemma_try_writes_read(mem: Seq<u8>, ws: Seq<(int, Seq<u8>)>, k: int)
    requires
        0 <= k < ws.len(),
        0 <= ws[k].0,
        in_bounds(mem.len(), ws[k].0, ws[k].1.len() as int),
        forall|j: int| k < j < ws.len() ==> #[trigger] disjoint_writes(ws[j], ws[k]),
    ensures
        try_writes(mem, ws).subrange(ws[k].0, ws[k].0 + ws[k].1.len()) == ws[k].1,
    decreases ws.len(),
{
    let w = ws[k];
    if k == ws.len() - 1 {
        lemma_try_writes_len(mem, ws.drop_last());
        assert(try_writes(mem, ws).subrange(w.0, w.0 + w.1.len()) =~= w.1);
    } else {
        assert(ws.drop_last()[k] == w);
        assert forall|j: int| k < j < ws.drop_last().len() implies #[trigger] disjoint_writes(ws.drop_last()[j], ws.drop_last()[k]) by {
            assert(ws.drop_last()[j] == ws[j]);
            assert(disjoint_writes(ws[j], ws[k]));
        }
        lemma_try_writes_read(mem, ws.drop_last(), k);
        let before = try_writes(mem, ws.drop_last());
        lemma_try_writes_len(mem, ws.drop_last());
        assert(disjoint_writes(ws[ws.len() - 1], ws[k]));
        assert(try_writes(mem, ws).subrange(w.0, w.0 + w.1.len()) =~= before.subrange(w.0, w.0 + w.1.len()));
    }
}

/// Write `w` leaves the bytes `lo..hi` alone.
pub open spec fn misses(w: (int, Seq<u8>), lo: int, hi: int) -> bool {
    w.0 + w.1.len() <= lo || hi <= w.0
}

/// After a sequence of writes, the bytes `lo..hi` of write `k` read back as
/// written when the write fits in memory and no later write touches them.
pub proof fn lemma_try_writes_read_range(mem: Seq<u8>, ws: Seq<(int, Seq<u8>)>, k: int, lo: int, hi: int)
    requires
        0 <= k < ws.len(),
        0 <= ws[k].0 <= lo <= hi <= ws[k].0 + ws[k].1.len(),
        in_bounds(mem.len(), ws[k].0, ws[k].1.len() as int),
        forall|j: int| k < j < ws.len() ==> misses(#[trigger] ws[j], lo, hi),
    ensures
        try_writes(mem, ws).subrange(lo, hi) == ws[k].1.subrange(lo - ws[k].0, hi - ws[k].0),
    decreases ws.len(),
{
    let w = ws[k];
    if k == ws.len() - 1 {
        lemma_try_writes_len(mem, ws.drop_last());
        assert(try_writes(mem, ws).subrange(lo, hi) =~= w.1.subrange(lo - w.0, hi - w.0));
    } else {
        assert(ws.drop_last()[k] == w);
        assert forall|j: int| k < j < ws.drop_last().len() implies misses(#[trigger] ws.drop_last()[j], lo, hi) by {
            assert(ws.drop_last()[j] == ws[j]);
        }
        lemma_try_writes_read_range(mem, ws.drop_last(), k, lo, hi);
        let before = try_writes(mem, ws.drop_last());
        lemma_try_writes_len(mem, ws.drop_last());
        assert(misses(ws[ws.len() - 1], lo, hi));
        assert(try_writes(mem, ws).subrange(lo, hi) =~= before.subrange(lo, hi));
    }
}

} // verus!
