//! Fixed-width integer byte layouts used by the order identifiers, the
//! EVM calldata and the Solana instruction data of the order book.
use vstd::bytes::*;
use vstd::prelude::*;

verus! {

/// Little-endian bytes of a `u16`.
pub open spec fn le16(x: u16) -> Seq<u8> {
    spec_u16_to_le_bytes(x)
}

/// Little-endian bytes of a `u32`.
pub open spec fn le32(x: u32) -> Seq<u8> {
    spec_u32_to_le_bytes(x)
}

/// Little-endian bytes of a `u64`.
pub open spec fn le64(x: u64) -> Seq<u8> {
    spec_u64_to_le_bytes(x)
}

/// Little-endian bytes of a `u128`.
pub open spec fn le128(x: u128) -> Seq<u8> {
    spec_u128_to_le_bytes(x)
}

/// Big-endian bytes of a `u16`.
pub open spec fn be16(x: u16) -> Seq<u8> {
    le16(x).reverse()
}

/// Big-endian bytes of a `u32`.
pub open spec fn be32(x: u32) -> Seq<u8> {
    le32(x).reverse()
}

/// Big-endian bytes of a `u64`.
pub open spec fn be64(x: u64) -> Seq<u8> {
    le64(x).reverse()
}

/// Big-endian bytes of a `u128`.
pub open spec fn be128(x: u128) -> Seq<u8> {
    le128(x).reverse()
}

/// The value whose big-endian bytes are `s` (two bytes).
pub open spec fn from_be16(s: Seq<u8>) -> u16 {
    spec_u16_from_le_bytes(s.reverse())
}

/// The value whose big-endian bytes are `s` (four bytes).
pub open spec fn from_be32(s: Seq<u8>) -> u32 {
    spec_u32_from_le_bytes(s.reverse())
}

/// The value whose big-endian bytes are `s` (eight bytes).
pub open spec fn from_be64(s: Seq<u8>) -> u64 {
    spec_u64_from_le_bytes(s.reverse())
}

/// The value whose big-endian bytes are `s` (sixteen bytes).
pub open spec fn from_be128(s: Seq<u8>) -> u128 {
    spec_u128_from_le_bytes(s.reverse())
}

/// The value whose little-endian bytes are `s` (eight bytes).
pub open spec fn from_le64(s: Seq<u8>) -> u64 {
    spec_u64_from_le_bytes(s)
}

proof fn lemma_reverse_reverse(s: Seq<u8>)
    ensures
        s.reverse().reverse() == s,
{
    assert(s.reverse().reverse() =~= s);
}

/// Lengths of the byte layouts, and that each layout is read back as the
/// value it was written from.
pub proof fn lemma_layouts()
    ensures
        forall|x: u16| #[trigger] le16(x).len() == 2 && be16(x).len() == 2,
        forall|x: u32| #[trigger] le32(x).len() == 4 && be32(x).len() == 4,
        forall|x: u64| #[trigger] le64(x).len() == 8 && be64(x).len() == 8,
        forall|x: u128| #[trigger] le128(x).len() == 16 && be128(x).len() == 16,
        forall|x: u16| #[trigger] from_be16(be16(x)) == x,
        forall|x: u32| #[trigger] from_be32(be32(x)) == x,
        forall|x: u64| #[trigger] from_be64(be64(x)) == x,
        forall|x: u128| #[trigger] from_be128(be128(x)) == x,
        forall|x: u64| #[trigger] from_le64(le64(x)) == x,
{
    lemma_auto_spec_u16_to_from_le_bytes();
    lemma_auto_spec_u32_to_from_le_bytes();
    lemma_auto_spec_u64_to_from_le_bytes();
    lemma_auto_spec_u128_to_from_le_bytes();
    assert forall|x: u16| #[trigger] from_be16(be16(x)) == x by {
        lemma_reverse_reverse(le16(x));
    }
    assert forall|x: u32| #[trigger] from_be32(be32(x)) == x by {
        lemma_reverse_reverse(le32(x));
    }
    assert forall|x: u64| #[trigger] from_be64(be64(x)) == x by {
        lemma_reverse_reverse(le64(x));
    }
    assert forall|x: u128| #[trigger] from_be128(be128(x)) == x by {
        lemma_reverse_reverse(le128(x));
    }
}

/// `n` zero bytes.
pub open spec fn zeros(n: nat) -> Seq<u8> {
    Seq::new(n, |i: int| 0u8)
}

/// Appends `n` zero bytes to `out`.
pub fn push_zeros(out: &mut Vec<u8>, n: usize)
    ensures
        final(out)@ == old(out)@ + zeros(n as nat),
{
    for i in 0..n
        invariant
            out@ == old(out)@ + zeros(i as nat),
    {
        out.push(0u8);
        assert(old(out)@ + zeros((i + 1) as nat) =~= (old(out)@ + zeros(i as nat)).push(0u8));
    }
}

/// A 32-byte key holding `bytes` after `start` zero bytes.
pub fn padded_key(bytes: &Vec<u8>, start: usize) -> (k: [u8; 32])
    requires
        start + bytes@.len() == 32,
    ensures
        k@ == zeros(start as nat) + bytes@,
{
    let n = bytes.len();
    let mut k = [0u8; 32];
    for i in 0..n
        invariant
            n == bytes@.len(),
            start + n == 32,
            forall|j: int| 0 <= j < start ==> k@[j] == 0u8,
            forall|j: int| 0 <= j < i ==> k@[start + j] == bytes@[j],
            forall|j: int| start + i <= j < 32 ==> k@[j] == 0u8,
    {
        k[start + i] = bytes[i];
    }
    assert(k@ =~= zeros(start as nat) + bytes@);
    k
}

/// Appends `s` to `out`.
pub fn append_bytes(out: &mut Vec<u8>, s: &[u8])
    ensures
        final(out)@ == old(out)@ + s@,
{
    let n = s.len();
    for i in 0..n
        invariant
            n == s@.len(),
            out@ == old(out)@ + s@.subrange(0, i as int),
    {
        out.push(s[i]);
        assert(s@.subrange(0, i + 1) == s@.subrange(0, i as int).push(s@[i as int]));
    }
    assert(s@.subrange(0, n as int) == s@);
}

/// Appends `s` to `out` in reverse order.
fn append_reversed(out: &mut Vec<u8>, s: &[u8])
    ensures
        final(out)@ == old(out)@ + s@.reverse(),
{
    let n = s.len();
    let mut i: usize = n;
    while i > 0
        invariant
            n == s@.len(),
            i <= n,
            out@ == old(out)@ + s@.subrange(i as int, n as int).reverse(),
        decreases i,
    {
        i = i - 1;
        out.push(s[i]);
        assert(s@.subrange(i as int, n as int).reverse() =~= s@.subrange(
            i + 1,
            n as int,
        ).reverse().push(s@[i as int]));
    }
    assert(s@.subrange(0, n as int) == s@);
}

/// Appends the big-endian bytes of `x`.
pub fn push_u16_be(out: &mut Vec<u8>, x: u16)
    ensures
        final(out)@ == old(out)@ + be16(x),
{
    let le = u16_to_le_bytes(x);
    append_reversed(out, le.as_slice());
}

/// Appends the big-endian bytes of `x`.
pub fn push_u32_be(out: &mut Vec<u8>, x: u32)
    ensures
        final(out)@ == old(out)@ + be32(x),
{
    let le = u32_to_le_bytes(x);
    append_reversed(out, le.as_slice());
}

/// Appends the big-endian bytes of `x`.
pub fn push_u64_be(out: &mut Vec<u8>, x: u64)
    ensures
        final(out)@ == old(out)@ + be64(x),
{
    let le = u64_to_le_bytes(x);
    append_reversed(out, le.as_slice());
}

/// Appends the big-endian bytes of `x`.
pub fn push_u128_be(out: &mut Vec<u8>, x: u128)
    ensures
        final(out)@ == old(out)@ + be128(x),
{
    let le = u128_to_le_bytes(x);
    append_reversed(out, le.as_slice());
}

/// Appends the little-endian bytes of `x`.
pub fn push_u16_le(out: &mut Vec<u8>, x: u16)
    ensures
        final(out)@ == old(out)@ + le16(x),
{
    let le = u16_to_le_bytes(x);
    append_bytes(out, le.as_slice());
}

/// Appends the little-endian bytes of `x`.
pub fn push_u32_le(out: &mut Vec<u8>, x: u32)
    ensures
        final(out)@ == old(out)@ + le32(x),
{
    let le = u32_to_le_bytes(x);
    append_bytes(out, le.as_slice());
}

/// Appends the little-endian bytes of `x`.
pub fn push_u64_le(out: &mut Vec<u8>, x: u64)
    ensures
        final(out)@ == old(out)@ + le64(x),
{
    let le = u64_to_le_bytes(x);
    append_bytes(out, le.as_slice());
}

/// Appends the little-endian bytes of `x`.
pub fn push_u128_le(out: &mut Vec<u8>, x: u128)
    ensures
        final(out)@ == old(out)@ + le128(x),
{
    let le = u128_to_le_bytes(x);
    append_bytes(out, le.as_slice());
}

/// Reads the little-endian `u64` stored at `data[start..start + 8]`.
pub fn read_u64_le(data: &[u8], start: usize) -> (x: u64)
    requires
        start + 8 <= data@.len(),
    ensures
        x == from_le64(data@.subrange(start as int, start + 8)),
{
    let n = data.len();
    let mut buf: Vec<u8> = Vec::new();
    for i in 0..8usize
        invariant
            n == data@.len(),
            start + 8 <= data@.len(),
            buf@ == data@.subrange(start as int, start + i),
    {
        buf.push(data[start + i]);
        assert(data@.subrange(start as int, start + i + 1) == data@.subrange(
            start as int,
            start + i,
        ).push(data@[start + i]));
    }
    u64_from_le_bytes(buf.as_slice())
}

} // verus!
