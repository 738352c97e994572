use vstd::prelude::*;
use vstd::bytes::{
    spec_u128_to_le_bytes, spec_u32_to_le_bytes, spec_u64_from_le_bytes,
    spec_u64_to_le_bytes, u128_to_le_bytes, u32_to_le_bytes, u64_from_le_bytes,
    u64_to_le_bytes,
};

verus! {

/// Appends the little-endian encoding of `x`.
pub fn push_u64_le(v: &mut Vec<u8>, x: u64)
    ensures
        final(v)@ == old(v)@ + spec_u64_to_le_bytes(x),
{
    let mut b = u64_to_le_bytes(x);
    v.append(&mut b);
}

/// Appends the little-endian encoding of `x`.
pub fn push_u32_le(v: &mut Vec<u8>, x: u32)
    ensures
        final(v)@ == old(v)@ + spec_u32_to_le_bytes(x),
{
    let mut b = u32_to_le_bytes(x);
    v.append(&mut b);
}

/// Appends the little-endian encoding of `x`.
pub fn push_u128_le(v: &mut Vec<u8>, x: u128)
    ensures
        final(v)@ == old(v)@ + spec_u128_to_le_bytes(x),
{
    let mut b = u128_to_le_bytes(x);
    v.append(&mut b);
}

/// Appends the bytes of `s`.
pub fn push_bytes(v: &mut Vec<u8>, s: &[u8])
    ensures
        final(v)@ == old(v)@ + s@,
{
    let mut b = vstd::slice::slice_to_vec(s);
    v.append(&mut b);
}

/// Reads the little-endian `u64` at `data[off..off + 8]`.
pub fn read_u64_le(data: &[u8], off: usize) -> (r: u64)
    requires
        off + 8 <= data.len(),
    ensures
        r == spec_u64_from_le_bytes(data@.subrange(off as int, off + 8)),
{
    u64_from_le_bytes(&data[off..off + 8])
}


/// Whether two 32-byte addresses are equal.
pub fn bytes32_eq(a: &[u8; 32], b: &[u8; 32]) -> (r: bool)
    ensures
        r == (a@ == b@),
{
    let mut i: usize = 0;
    while i < 32
        invariant
            i <= 32,
            a@.len() == 32,
            b@.len() == 32,
            a@.subrange(0, i as int) == b@.subrange(0, i as int),
        decreases 32 - i,
    {
        if a[i] != b[i] {
            assert(a@[i as int] != b@[i as int]);
            return false;
        }
        assert(a@.subrange(0, i + 1) =~= a@.subrange(0, i as int).push(a@[i as int]));
        assert(b@.subrange(0, i + 1) =~= b@.subrange(0, i as int).push(b@[i as int]));
        i = i + 1;
    }
    assert(a@ =~= a@.subrange(0, 32));
    assert(b@ =~= b@.subrange(0, 32));
    true
}

} // verus!
