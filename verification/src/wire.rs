//! Little-endian field access on byte sequences.

use vstd::prelude::*;
use vstd::bytes::*;
use vstd::slice::slice_subrange;

verus! {

/// The little-endian `u32` stored at `offset` in `s`.
pub open spec fn le_u32_at(s: Seq<u8>, offset: int) -> u32 {
    spec_u32_from_le_bytes(s.subrange(offset, offset + 4))
}

/// The little-endian `u16` stored at `offset` in `s`.
pub open spec fn le_u16_at(s: Seq<u8>, offset: int) -> u16 {
    spec_u16_from_le_bytes(s.subrange(offset, offset + 2))
}

/// The four little-endian bytes of `v`.
pub open spec fn le_u32(v: u32) -> Seq<u8> {
    spec_u32_to_le_bytes(v)
}

/// The two little-endian bytes of `v`.
pub open spec fn le_u16(v: u16) -> Seq<u8> {
    spec_u16_to_le_bytes(v)
}

/// Reads the little-endian `u32` at `offset`.
pub fn read_u32_le(s: &[u8], offset: usize) -> (v: u32)
    requires
        offset + 4 <= s@.len(),
    ensures
        v == le_u32_at(s@, offset as int),
{
    let len = s.len();
    assert(offset + 4 <= len);
    u32_from_le_bytes(slice_subrange(s, offset, offset + 4))
}

/// Reads the little-endian `u16` at `offset`.
pub fn read_u16_le(s: &[u8], offset: usize) -> (v: u16)
    requires
        offset + 2 <= s@.len(),
    ensures
        v == le_u16_at(s@, offset as int),
{
    let len = s.len();
    assert(offset + 2 <= len);
    u16_from_le_bytes(slice_subrange(s, offset, offset + 2))
}

/// Appends the little-endian bytes of `v`.
pub fn push_u32_le(out: &mut Vec<u8>, v: u32)
    ensures
        final(out)@ == old(out)@ + le_u32(v),
{
    let mut bytes = u32_to_le_bytes(v);
    out.append(&mut bytes);
}

/// Appends the little-endian bytes of `v`.
pub fn push_u16_le(out: &mut Vec<u8>, v: u16)
    ensures
        final(out)@ == old(out)@ + le_u16(v),
{
    let mut bytes = u16_to_le_bytes(v);
    out.append(&mut bytes);
}

/// Appends the bytes of `s`.
pub fn push_bytes(out: &mut Vec<u8>, s: &[u8])
    ensures
        final(out)@ == old(out)@ + s@,
{
    let mut i: usize = 0;
    while i < s.len()
        invariant
            i <= s@.len(),
            out@ == old(out)@ + s@.take(i as int),
        decreases s@.len() - i,
    {
        out.push(s[i]);
        i = i + 1;
        assert(s@.take(i as int) == s@.take(i - 1 as int).push(s@[i - 1 as int]));
    }
    assert(s@.take(s@.len() as int) == s@);
}

/// Each `u32` survives its little-endian encoding, and every four bytes
/// are the encoding of the `u32` they decode to.
pub proof fn lemma_le_u32_roundtrip(v: u32, s: Seq<u8>)
    ensures
        le_u32(v).len() == 4,
        le_u32_at(le_u32(v), 0) == v,
        s.len() == 4 ==> le_u32(le_u32_at(s, 0)) == s,
{
    lemma_auto_spec_u32_to_from_le_bytes();
    assert(le_u32(v).subrange(0, 4) == le_u32(v));
    if s.len() == 4 {
        assert(s.subrange(0, 4) == s);
    }
}

/// Each `u16` survives its little-endian encoding, and every two bytes
/// are the encoding of the `u16` they decode to.
pub proof fn lemma_le_u16_roundtrip(v: u16, s: Seq<u8>)
    ensures
        le_u16(v).len() == 2,
        le_u16_at(le_u16(v), 0) == v,
        s.len() == 2 ==> le_u16(le_u16_at(s, 0)) == s,
{
    lemma_auto_spec_u16_to_from_le_bytes();
    assert(le_u16(v).subrange(0, 2) == le_u16(v));
    if s.len() == 2 {
        assert(s.subrange(0, 2) == s);
    }
}

/// Copies sixteen bytes into an array.
pub fn bytes16(s: &[u8]) -> (a: [u8; 16])
    requires
        s@.len() == 16,
    ensures
        a@ == s@,
{
    let mut a = [0u8; 16];
    let mut i: usize = 0;
    while i < 16
        invariant
            i <= 16,
            s@.len() == 16,
            a@.len() == 16,
            forall|j: int| 0 <= j < i ==> a@[j] == s@[j],
        decreases 16 - i,
    {
        a[i] = s[i];
        i = i + 1;
    }
    assert(a@ == s@);
    a
}

} // verus!
