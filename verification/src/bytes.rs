//! Little-endian encodings of integers and byte sums, in spec and in code.
use vstd::prelude::*;
use crate::vm::spec_write;

verus! {

/// The two bytes of `v`, least significant first.
pub open spec fn le16(v: u16) -> Seq<u8> {
    seq![v as u8, (v >> 8) as u8]
}

/// The four bytes of `v`, least significant first.
pub open spec fn le32(v: u32) -> Seq<u8> {
    seq![v as u8, (v >> 8) as u8, (v >> 16) as u8, (v >> 24) as u8]
}

/// The eight bytes of `v`, least significant first.
pub open spec fn le64(v: u64) -> Seq<u8> {
    seq![
        v as u8, (v >> 8) as u8, (v >> 16) as u8, (v >> 24) as u8,
        (v >> 32) as u8, (v >> 40) as u8, (v >> 48) as u8, (v >> 56) as u8,
    ]
}

/// The 16-bit value whose little-endian bytes are `s[0..2]`.
pub open spec fn from_le16(s: Seq<u8>) -> u16 {
    (s[0] as u16) | ((s[1] as u16) << 8)
}

/// The 32-bit value whose little-endian bytes are `s[0..4]`.
pub open spec fn from_le32(s: Seq<u8>) -> u32 {
    (s[0] as u32) | ((s[1] as u32) << 8) | ((s[2] as u32) << 16) | ((s[3] as u32) << 24)
}

/// The 64-bit value whose little-endian bytes are `s[0..8]`.
pub open spec fn from_le64(s: Seq<u8>) -> u64 {
    (s[0] as u64) | ((s[1] as u64) << 8) | ((s[2] as u64) << 16) | ((s[3] as u64) << 24)
        | ((s[4] as u64) << 32) | ((s[5] as u64) << 40) | ((s[6] as u64) << 48) | ((s[7]
        as u64) << 56)
}

/// The sum of all bytes of `s`, as an unbounded integer.
pub open spec fn byte_sum(s: Seq<u8>) -> nat
    decreases s.len(),
{
    if s.len() == 0 {
        0
    } else {
        byte_sum(s.drop_last()) + s.last() as nat
    }
}

/// `s` sums to zero modulo 256: the checksum rule of ACPI tables.
pub open spec fn sums_to_zero(s: Seq<u8>) -> bool {
    byte_sum(s) % 256 == 0
}

/// The little-endian bytes of a 16-bit value.
pub fn u16_le(v: u16) -> (r: [u8; 2])
    ensures
        r@ == le16(v),
{
    let r = [v as u8, (v >> 8) as u8];
    assert(r@ =~= le16(v));
    r
}

/// The little-endian bytes of a 32-bit value.
pub fn u32_le(v: u32) -> (r: [u8; 4])
    ensures
        r@ == le32(v),
{
    let r = [v as u8, (v >> 8) as u8, (v >> 16) as u8, (v >> 24) as u8];
    assert(r@ =~= le32(v));
    r
}

/// The little-endian bytes of a 64-bit value.
pub fn u64_le(v: u64) -> (r: [u8; 8])
    ensures
        r@ == le64(v),
{
    let r = [
        v as u8,
        (v >> 8) as u8,
        (v >> 16) as u8,
        (v >> 24) as u8,
        (v >> 32) as u8,
        (v >> 40) as u8,
        (v >> 48) as u8,
        (v >> 56) as u8,
    ];
    assert(r@ =~= le64(v));
    r
}

/// Reads a little-endian 16-bit value at `pos`.
pub fn read_u16_le(data: &[u8], pos: usize) -> (r: u16)
    requires
        pos + 2 <= data@.len(),
    ensures
        r == from_le16(data@.subrange(pos as int, pos + 2)),
{
    (data[pos] as u16) | ((data[pos + 1] as u16) << 8)
}

/// Reads a little-endian 32-bit value at `pos`.
pub fn read_u32_le(data: &[u8], pos: usize) -> (r: u32)
    requires
        pos + 4 <= data@.len(),
    ensures
        r == from_le32(data@.subrange(pos as int, pos + 4)),
{
    (data[pos] as u32) | ((data[pos + 1] as u32) << 8) | ((data[pos + 2] as u32) << 16) | ((
    data[pos + 3] as u32) << 24)
}

/// Reads a little-endian 64-bit value at `pos`.
pub fn read_u64_le(data: &[u8], pos: usize) -> (r: u64)
    requires
        pos + 8 <= data@.len(),
    ensures
        r == from_le64(data@.subrange(pos as int, pos + 8)),
{
    (data[pos] as u64) | ((data[pos + 1] as u64) << 8) | ((data[pos + 2] as u64) << 16) | ((
    data[pos + 3] as u64) << 24) | ((data[pos + 4] as u64) << 32) | ((data[pos + 5] as u64) << 40)
        | ((data[pos + 6] as u64) << 48) | ((data[pos + 7] as u64) << 56)
}

/// Decoding the little-endian bytes of a value gives the value back.
pub proof fn lemma_le64_roundtrip(v: u64)
    ensures
        from_le64(le64(v)) == v,
{
    let s = le64(v);
    assert(s[0] == v as u8 && s[1] == (v >> 8) as u8 && s[2] == (v >> 16) as u8 && s[3] == (v
        >> 24) as u8 && s[4] == (v >> 32) as u8 && s[5] == (v >> 40) as u8 && s[6] == (v >> 48)
        as u8 && s[7] == (v >> 56) as u8);
    assert(((v as u8) as u64) | (((v >> 8) as u8) as u64) << 8 | (((v >> 16) as u8) as u64) << 16
        | (((v >> 24) as u8) as u64) << 24 | (((v >> 32) as u8) as u64) << 32 | (((v >> 40) as u8)
        as u64) << 40 | (((v >> 48) as u8) as u64) << 48 | (((v >> 56) as u8) as u64) << 56 == v)
        by (bit_vector);
}

/// Decoding the little-endian bytes of a value gives the value back.
pub proof fn lemma_le32_roundtrip(v: u32)
    ensures
        from_le32(le32(v)) == v,
{
    let s = le32(v);
    assert(s[0] == v as u8 && s[1] == (v >> 8) as u8 && s[2] == (v >> 16) as u8 && s[3] == (v
        >> 24) as u8);
    assert(((v as u8) as u32) | (((v >> 8) as u8) as u32) << 8 | (((v >> 16) as u8) as u32) << 16
        | (((v >> 24) as u8) as u32) << 24 == v) by (bit_vector);
}

/// Decoding the little-endian bytes of a value gives the value back.
pub proof fn lemma_le16_roundtrip(v: u16)
    ensures
        from_le16(le16(v)) == v,
{
    let s = le16(v);
    assert(s[0] == v as u8 && s[1] == (v >> 8) as u8);
    assert(((v as u8) as u16) | (((v >> 8) as u8) as u16) << 8 == v) by (bit_vector);
}

/// The wrapping 8-bit sum of all bytes of `data`.
pub fn wrapping_byte_sum(data: &[u8]) -> (r: u8)
    ensures
        r == byte_sum(data@) % 256,
{
    let mut acc: u8 = 0;
    let mut i: usize = 0;
    while i < data.len()
        invariant
            i <= data@.len(),
            acc == byte_sum(data@.take(i as int)) % 256,
        decreases data@.len() - i,
    {
        assert(data@.take(i + 1).drop_last() =~= data@.take(i as int));
        acc = acc.wrapping_add(data[i]);
        i += 1;
    }
    assert(data@.take(i as int) =~= data@);
    acc
}

/// `n` zero bytes.
pub open spec fn zeros(n: nat) -> Seq<u8> {
    Seq::new(n, |i: int| 0u8)
}

/// `n` zero bytes.
pub fn zeroed(n: usize) -> (v: Vec<u8>)
    ensures
        v@ == zeros(n as nat),
{
    let v = vec![0u8; n];
    proof {
        assert forall|i: int| 0 <= i < n implies v@[i] == 0u8 by {
            assert(vstd::pervasive::cloned(0u8, v@[i]));
        }
    }
    assert(v@ =~= zeros(n as nat));
    v
}

/// Copies `src` into `data` at `pos`.
pub fn put(data: &mut [u8], pos: usize, src: &[u8])
    requires
        pos + src@.len() <= old(data)@.len(),
    ensures
        final(data)@ == spec_write(old(data)@, pos as int, src@),
{
    // the length, which fits in a usize, bounds the offsets below
    let _len = data.len();
    let mut i: usize = 0;
    while i < src.len()
        invariant
            pos + src@.len() <= data@.len() <= usize::MAX,
            data@.len() == old(data)@.len(),
            i <= src@.len(),
            forall|j: int|
                #![trigger data@[j]]
                0 <= j < data@.len() ==> data@[j] == (if pos <= j < pos + i {
                    src@[j - pos]
                } else {
                    old(data)@[j]
                }),
        decreases src@.len() - i,
    {
        data[pos + i] = src[i];
        i += 1;
    }
    assert(data@ =~= spec_write(old(data)@, pos as int, src@));
}

/// The little-endian bytes of each value of `s`, in order.
pub open spec fn le64s(s: Seq<u64>) -> Seq<u8>
    decreases s.len(),
{
    if s.len() == 0 {
        Seq::empty()
    } else {
        le64s(s.drop_last()) + le64(s.last())
    }
}

/// The little-endian bytes of each value of `s`, in order.
pub open spec fn le32s(s: Seq<u32>) -> Seq<u8>
    decreases s.len(),
{
    if s.len() == 0 {
        Seq::empty()
    } else {
        le32s(s.drop_last()) + le32(s.last())
    }
}

/// The little-endian bytes of each value of `s`, in order.
pub fn u64s_le(s: &[u64]) -> (out: Vec<u8>)
    ensures
        out@ == le64s(s@),
        out@.len() == 8 * s@.len(),
{
    let mut out: Vec<u8> = Vec::new();
    let mut i: usize = 0;
    while i < s.len()
        invariant
            i <= s@.len(),
            out@ == le64s(s@.take(i as int)),
            out@.len() == 8 * i,
        decreases s@.len() - i,
    {
        assert(s@.take(i + 1).drop_last() =~= s@.take(i as int));
        out.extend_from_slice(&u64_le(s[i]));
        assert(out@ =~= le64s(s@.take(i + 1)));
        i += 1;
    }
    assert(s@.take(i as int) =~= s@);
    out
}

/// The little-endian bytes of each value of `s`, in order.
pub fn u32s_le(s: &[u32]) -> (out: Vec<u8>)
    ensures
        out@ == le32s(s@),
        out@.len() == 4 * s@.len(),
{
    let mut out: Vec<u8> = Vec::new();
    let mut i: usize = 0;
    while i < s.len()
        invariant
            i <= s@.len(),
            out@ == le32s(s@.take(i as int)),
            out@.len() == 4 * i,
        decreases s@.len() - i,
    {
        assert(s@.take(i + 1).drop_last() =~= s@.take(i as int));
        out.extend_from_slice(&u32_le(s[i]));
        assert(out@ =~= le32s(s@.take(i + 1)));
        i += 1;
    }
    assert(s@.take(i as int) =~= s@);
    out
}

} // verus!
