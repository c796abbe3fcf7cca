//! Byte-level helpers: appending byte slices and the fixed-width little-endian encodings that
//! the SCALE codec uses for unsigned integers.
use vstd::prelude::*;

verus! {

/// Appends every byte of `src` to `dst`, in order.
pub fn append_bytes(dst: &mut Vec<u8>, src: &[u8])
    ensures
        final(dst)@ == old(dst)@ + src@,
{
    let n: usize = src.len();
    let mut i: usize = 0;
    while i < n
        invariant
            n == src@.len(),
            i <= n,
            dst@ == old(dst)@ + src@.subrange(0, i as int),
        decreases n - i,
    {
        dst.push(src[i]);
        assert(src@.subrange(0, i + 1) == src@.subrange(0, i as int).push(src@[i as int]));
        i = i + 1;
    }
    assert(src@.subrange(0, n as int) == src@);
}

/// The SCALE encoding of a `u32`: its four bytes, least significant first.
pub open spec fn u32_le_bytes(x: u32) -> Seq<u8> {
    seq![
        (x % 256) as u8,
        ((x / 256) % 256) as u8,
        ((x / 65536) % 256) as u8,
        (x / 16777216) as u8,
    ]
}

/// The SCALE encoding of a `u64`: its eight bytes, least significant first.
pub open spec fn u64_le_bytes(x: u64) -> Seq<u8> {
    seq![
        (x % 0x100) as u8,
        ((x / 0x100) % 0x100) as u8,
        ((x / 0x10000) % 0x100) as u8,
        ((x / 0x1000000) % 0x100) as u8,
        ((x / 0x100000000) % 0x100) as u8,
        ((x / 0x10000000000) % 0x100) as u8,
        ((x / 0x1000000000000) % 0x100) as u8,
        (x / 0x100000000000000) as u8,
    ]
}

/// Encodes a `u32` as SCALE does.
pub fn encode_u32(x: u32) -> (out: Vec<u8>)
    ensures
        out@ == u32_le_bytes(x),
{
    let mut out: Vec<u8> = Vec::new();
    out.push((x % 256) as u8);
    out.push(((x / 256) % 256) as u8);
    out.push(((x / 65536) % 256) as u8);
    out.push((x / 16777216) as u8);
    assert(out@ == u32_le_bytes(x));
    out
}

/// Encodes a `u64` as SCALE does.
pub fn encode_u64(x: u64) -> (out: Vec<u8>)
    ensures
        out@ == u64_le_bytes(x),
{
    let mut out: Vec<u8> = Vec::new();
    out.push((x % 0x100) as u8);
    out.push(((x / 0x100) % 0x100) as u8);
    out.push(((x / 0x10000) % 0x100) as u8);
    out.push(((x / 0x1000000) % 0x100) as u8);
    out.push(((x / 0x100000000) % 0x100) as u8);
    out.push(((x / 0x10000000000) % 0x100) as u8);
    out.push(((x / 0x1000000000000) % 0x100) as u8);
    out.push((x / 0x100000000000000) as u8);
    assert(out@ == u64_le_bytes(x));
    out
}

/// Whether two byte slices hold the same bytes.
pub fn bytes_eq(a: &[u8], b: &[u8]) -> (eq: bool)
    ensures
        eq == (a@ == b@),
{
    if a.len() != b.len() {
        return false;
    }
    let n: usize = a.len();
    let mut i: usize = 0;
    while i < n
        invariant
            n == a@.len(),
            n == b@.len(),
            i <= n,
            forall|j: int| 0 <= j < i ==> a@[j] == b@[j],
        decreases n - i,
    {
        if a[i] != b[i] {
            return false;
        }
        i = i + 1;
    }
    assert(a@ =~= b@);
    true
}

/// The SCALE compact encoding of a `u32`, as used for the length prefix of a sequence:
/// one, two or four bytes whose two low bits say which, or a marker byte and the full value.
pub open spec fn compact_u32_bytes(n: u32) -> Seq<u8> {
    if n <= 0x3f {
        seq![(n * 4) as u8]
    } else if n <= 0x3fff {
        let v = n * 4 + 1;
        seq![(v % 256) as u8, (v / 256) as u8]
    } else if n <= 0x3fff_ffff {
        u32_le_bytes((n * 4 + 2) as u32)
    } else {
        seq![3u8] + u32_le_bytes(n)
    }
}

/// The bytes of each `u32` of `items`, in order, without a length prefix.
pub open spec fn u32_seq_bytes(items: Seq<u32>) -> Seq<u8>
    decreases items.len(),
{
    if items.len() == 0 {
        Seq::empty()
    } else {
        u32_seq_bytes(items.drop_last()) + u32_le_bytes(items.last())
    }
}

/// Calls `parity_scale_codec::Encode::encode` on a vector of `u32`. Its source writes the
/// length as a compact `u32`, then each element's four little-endian bytes; it panics on a
/// vector longer than `u32::MAX`, which the precondition rules out.
#[verifier::external_body]
pub(crate) fn encode_u32_vec(items: &Vec<u32>) -> (out: Vec<u8>)
    requires
        items@.len() <= u32::MAX,
    ensures
        out@ == compact_u32_bytes(items@.len() as u32) + u32_seq_bytes(items@),
{
    parity_scale_codec::Encode::encode(items)
}

} // verus!
