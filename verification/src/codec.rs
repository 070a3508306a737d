//! Little-endian and big-endian field codecs over byte buffers.
use vstd::bytes::{
    spec_u32_from_le_bytes, spec_u32_to_le_bytes, spec_u64_from_le_bytes, spec_u64_to_le_bytes,
};
use vstd::prelude::*;

verus! {

/// A 32-byte account address.
pub type Address = [u8; 32];

/// The big-endian encoding of `v`: its little-endian bytes, reversed.
pub open spec fn spec_u64_to_be_bytes(v: u64) -> Seq<u8> {
    spec_u64_to_le_bytes(v).reverse()
}

/// The address whose first `n` bytes are those of `t`, the others zero.
pub open spec fn address_prefix(t: Seq<u8>, n: nat) -> Address
    decreases n,
{
    if n == 0 {
        vstd::array::spec_array_fill_for_copy_type::<u8, 32>(0u8)
    } else {
        vstd::array::spec_array_update(address_prefix(t, (n - 1) as nat), n - 1, t[n - 1])
    }
}

/// The address made of the 32 bytes `t`.
pub open spec fn address_of(t: Seq<u8>) -> Address {
    address_prefix(t, 32)
}

proof fn lemma_address_prefix(t: Seq<u8>, n: nat)
    requires
        n <= 32,
        n <= t.len(),
    ensures
        address_prefix(t, n)@ == t.subrange(0, n as int) + Seq::new((32 - n) as nat, |i: int| 0u8),
    decreases n,
{
    broadcast use vstd::array::group_array_axioms;
    broadcast use vstd::array::axiom_spec_array_update;

    if n == 0 {
        let a = vstd::array::spec_array_fill_for_copy_type::<u8, 32>(0u8);
        assert(a@ =~= t.subrange(0, 0) + Seq::new(32, |i: int| 0u8));
    } else {
        lemma_address_prefix(t, (n - 1) as nat);
        let a = address_prefix(t, (n - 1) as nat);
        assert(address_prefix(t, n)@ == a@.update(n - 1, t[n - 1]));
        assert(address_prefix(t, n)@ =~= t.subrange(0, n as int) + Seq::new(
            (32 - n) as nat,
            |i: int| 0u8,
        ));
    }
}

/// Every 32 bytes are the bytes of an address.
pub proof fn lemma_address_of(t: Seq<u8>)
    requires
        t.len() == 32,
    ensures
        address_of(t)@ == t,
{
    lemma_address_prefix(t, 32);
    assert(t.subrange(0, 32) + Seq::new(0, |i: int| 0u8) =~= t);
}

/// Whether two addresses are the same 32 bytes.
pub fn address_eq(a: &Address, b: &Address) -> (r: bool)
    ensures
        r == (a@ == b@),
{
    let mut i: usize = 0;
    while i < 32
        invariant
            i <= 32,
            a@.len() == 32,
            b@.len() == 32,
            forall|j: int| 0 <= j < i ==> a@[j] == b@[j],
        decreases 32 - i,
    {
        if a[i] != b[i] {
            return false;
        }
        i = i + 1;
    }
    assert(a@ =~= b@);
    true
}

/// The 32 bytes of `data` starting at `off`, as an address.
pub fn read_address(data: &[u8], off: usize) -> (a: Address)
    requires
        off + 32 <= data@.len(),
    ensures
        a@ == data@.subrange(off as int, off + 32),
{
    let n = data.len();
    let mut a: Address = [0u8; 32];
    let mut i: usize = 0;
    while i < 32
        invariant
            i <= 32,
            off + 32 <= data@.len(),
            n == data@.len(),
            a@.len() == 32,
            forall|j: int| 0 <= j < i ==> a@[j] == data@[off + j],
        decreases 32 - i,
    {
        a[i] = data[off + i];
        i = i + 1;
    }
    assert(a@ =~= data@.subrange(off as int, off + 32));
    a
}

/// A copy of `data[start..end]`.
pub fn copy_range(data: &[u8], start: usize, end: usize) -> (r: Vec<u8>)
    requires
        start <= end <= data@.len(),
    ensures
        r@ == data@.subrange(start as int, end as int),
{
    let mut r: Vec<u8> = Vec::new();
    let mut i: usize = start;
    while i < end
        invariant
            start <= i <= end <= data@.len(),
            r@ == data@.subrange(start as int, i as int),
        decreases end - i,
    {
        r.push(data[i]);
        i = i + 1;
        assert(r@ =~= data@.subrange(start as int, i as int));
    }
    r
}

/// Appends `bytes` to `out`.
pub fn push_bytes(out: &mut Vec<u8>, bytes: &[u8])
    ensures
        final(out)@ == old(out)@ + bytes@,
{
    let mut i: usize = 0;
    while i < bytes.len()
        invariant
            i <= bytes@.len(),
            out@ == old(out)@ + bytes@.subrange(0, i as int),
        decreases bytes@.len() - i,
    {
        out.push(bytes[i]);
        i = i + 1;
        assert(out@ =~= old(out)@ + bytes@.subrange(0, i as int));
    }
    assert(bytes@.subrange(0, bytes@.len() as int) =~= bytes@);
}

/// Appends `n` zero bytes to `out`.
pub fn push_zeros(out: &mut Vec<u8>, n: usize)
    ensures
        final(out)@ == old(out)@ + Seq::new(n as nat, |i: int| 0u8),
{
    let mut i: usize = 0;
    while i < n
        invariant
            i <= n,
            out@ == old(out)@ + Seq::new(i as nat, |k: int| 0u8),
        decreases n - i,
    {
        out.push(0u8);
        i = i + 1;
        assert(out@ =~= old(out)@ + Seq::new(i as nat, |k: int| 0u8));
    }
}

/// The little-endian `u64` stored at `data[off..off + 8]`.
pub fn read_u64_le(data: &[u8], off: usize) -> (v: u64)
    requires
        off + 8 <= data@.len(),
    ensures
        v == spec_u64_from_le_bytes(data@.subrange(off as int, off + 8)),
{
    assert(off + 8 <= data.len());
    let bytes = copy_range(data, off, off + 8);
    vstd::bytes::u64_from_le_bytes(bytes.as_slice())
}

/// The little-endian `u32` stored at `data[off..off + 4]`.
pub fn read_u32_le(data: &[u8], off: usize) -> (v: u32)
    requires
        off + 4 <= data@.len(),
    ensures
        v == spec_u32_from_le_bytes(data@.subrange(off as int, off + 4)),
{
    assert(off + 4 <= data.len());
    let bytes = copy_range(data, off, off + 4);
    vstd::bytes::u32_from_le_bytes(bytes.as_slice())
}

/// Appends the little-endian bytes of `v` to `out`.
pub fn push_u64_le(out: &mut Vec<u8>, v: u64)
    ensures
        final(out)@ == old(out)@ + spec_u64_to_le_bytes(v),
{
    let bytes = vstd::bytes::u64_to_le_bytes(v);
    push_bytes(out, bytes.as_slice());
}

/// Appends the little-endian bytes of `v` to `out`.
pub fn push_u32_le(out: &mut Vec<u8>, v: u32)
    ensures
        final(out)@ == old(out)@ + spec_u32_to_le_bytes(v),
{
    let bytes = vstd::bytes::u32_to_le_bytes(v);
    push_bytes(out, bytes.as_slice());
}

/// The big-endian bytes of `v`.
pub fn u64_to_be_bytes(v: u64) -> (r: Vec<u8>)
    ensures
        r@ == spec_u64_to_be_bytes(v),
        r@.len() == 8,
{
    let le = vstd::bytes::u64_to_le_bytes(v);
    let mut r: Vec<u8> = Vec::new();
    let mut i: usize = 8;
    while i > 0
        invariant
            i <= 8,
            le@.len() == 8,
            r@ == le@.reverse().subrange(0, 8 - i),
        decreases i,
    {
        i = i - 1;
        r.push(le[i]);
        assert(r@ =~= le@.reverse().subrange(0, 8 - i));
    }
    assert(r@ =~= le@.reverse());
    r
}

} // verus!
