use vstd::prelude::*;

use crate::pubkey::Pubkey;

verus! {

/// The unsigned integer held little-endian in `s[off..off + 8]`.
pub open spec fn le_u64_at(s: Seq<u8>, off: int) -> int {
    s[off] + s[off + 1] * 0x100 + s[off + 2] * 0x1_0000 + s[off + 3] * 0x100_0000 + s[off + 4]
        * 0x1_0000_0000 + s[off + 5] * 0x100_0000_0000 + s[off + 6] * 0x1_0000_0000_0000 + s[off
        + 7] * 0x100_0000_0000_0000
}

/// The eight little-endian bytes of `v`.
pub open spec fn le_bytes_of(v: u64) -> Seq<u8> {
    seq![
        (v % 0x100) as u8,
        (v / 0x100 % 0x100) as u8,
        (v / 0x1_0000 % 0x100) as u8,
        (v / 0x100_0000 % 0x100) as u8,
        (v / 0x1_0000_0000 % 0x100) as u8,
        (v / 0x100_0000_0000 % 0x100) as u8,
        (v / 0x1_0000_0000_0000 % 0x100) as u8,
        (v / 0x100_0000_0000_0000 % 0x100) as u8,
    ]
}

/// Whether every byte of `s` is zero.
pub open spec fn all_zero(s: Seq<u8>) -> bool {
    forall|i: int| 0 <= i < s.len() ==> s[i] == 0u8
}

/// Reads a little-endian `u64` at `off`.
pub fn read_u64_le(data: &[u8], off: usize) -> (r: u64)
    requires
        off + 8 <= data@.len(),
    ensures
        r == le_u64_at(data@, off as int),
{
    (data[off] as u64) + (data[off + 1] as u64) * 0x100 + (data[off + 2] as u64) * 0x1_0000
        + (data[off + 3] as u64) * 0x100_0000 + (data[off + 4] as u64) * 0x1_0000_0000 + (data[off
        + 5] as u64) * 0x100_0000_0000 + (data[off + 6] as u64) * 0x1_0000_0000_0000 + (data[off
        + 7] as u64) * 0x100_0000_0000_0000
}

/// Reading back the eight bytes of `v` gives `v`.
pub proof fn lemma_le_bytes_round_trip(s: Seq<u8>, off: int, v: u64)
    requires
        0 <= off,
        off + 8 <= s.len(),
        s.subrange(off, off + 8) == le_bytes_of(v),
    ensures
        le_u64_at(s, off) == v,
{
    let q1 = v / 0x100;
    let q2 = q1 / 0x100;
    let q3 = q2 / 0x100;
    let q4 = q3 / 0x100;
    let q5 = q4 / 0x100;
    let q6 = q5 / 0x100;
    let q7 = q6 / 0x100;
    assert(q2 == v / 0x1_0000);
    assert(q3 == v / 0x100_0000);
    assert(q4 == v / 0x1_0000_0000);
    assert(q5 == v / 0x100_0000_0000);
    assert(q6 == v / 0x1_0000_0000_0000);
    assert(q7 == v / 0x100_0000_0000_0000);
    assert(s[off] == v % 0x100);
    assert(s[off + 1] == q1 % 0x100);
    assert(s[off + 2] == q2 % 0x100);
    assert(s[off + 3] == q3 % 0x100);
    assert(s[off + 4] == q4 % 0x100);
    assert(s[off + 5] == q5 % 0x100);
    assert(s[off + 6] == q6 % 0x100);
    assert(s[off + 7] == q7 % 0x100);
    assert(q7 < 0x100);
}

/// Writes `v` little-endian at `off`, leaving every other byte as it was.
pub fn write_u64_le(data: &mut Vec<u8>, off: usize, v: u64)
    requires
        off + 8 <= old(data)@.len(),
    ensures
        final(data)@.len() == old(data)@.len(),
        final(data)@.subrange(off as int, off + 8) == le_bytes_of(v),
        forall|i: int|
            0 <= i < old(data)@.len() && !(off <= i < off + 8) ==> final(data)@[i] == old(
                data,
            )@[i],
        le_u64_at(final(data)@, off as int) == v,
{
    let len = data.len();
    assert(off + 8 <= len);
    data.set(off, (v % 0x100) as u8);
    data.set(off + 1, (v / 0x100 % 0x100) as u8);
    data.set(off + 2, (v / 0x1_0000 % 0x100) as u8);
    data.set(off + 3, (v / 0x100_0000 % 0x100) as u8);
    data.set(off + 4, (v / 0x1_0000_0000 % 0x100) as u8);
    data.set(off + 5, (v / 0x100_0000_0000 % 0x100) as u8);
    data.set(off + 6, (v / 0x1_0000_0000_0000 % 0x100) as u8);
    data.set(off + 7, (v / 0x100_0000_0000_0000 % 0x100) as u8);
    assert(data@.subrange(off as int, off + 8) =~= le_bytes_of(v));
    proof {
        lemma_le_bytes_round_trip(data@, off as int, v);
    }
}

/// Whether `data[from..to]` is all zero.
pub fn is_all_zero(data: &[u8], from: usize, to: usize) -> (r: bool)
    requires
        from <= to <= data@.len(),
    ensures
        r == all_zero(data@.subrange(from as int, to as int)),
{
    let mut i: usize = from;
    while i < to
        invariant
            from <= i <= to <= data@.len(),
            forall|j: int| from <= j < i ==> data@[j] == 0u8,
        decreases to - i,
    {
        if data[i] != 0 {
            assert(data@.subrange(from as int, to as int)[i - from] != 0u8);
            return false;
        }
        i = i + 1;
    }
    true
}

/// Reads the 32-byte address at `off`.
pub fn read_pubkey(data: &[u8], off: usize) -> (r: Pubkey)
    requires
        off + 32 <= data@.len(),
    ensures
        r@ == data@.subrange(off as int, off + 32),
{
    let len = data.len();
    let mut bytes: [u8; 32] = [0u8; 32];
    let mut i: usize = 0;
    while i < 32
        invariant
            0 <= i <= 32,
            off + 32 <= data@.len() == len,
            bytes@.len() == 32,
            forall|j: int| 0 <= j < i ==> bytes@[j] == data@[off + j],
        decreases 32 - i,
    {
        bytes[i] = data[off + i];
        i = i + 1;
    }
    let r = Pubkey { bytes };
    assert(r@ =~= data@.subrange(off as int, off + 32));
    r
}

} // verus!
