//! Little-endian byte-level encoding helpers shared by the wire formats.

use vstd::prelude::*;

verus! {

/// The four little-endian bytes of a 32-bit value.
pub open spec fn spec_le32_bytes(v: u32) -> Seq<u8> {
    seq![
        (v & 0xff) as u8,
        ((v >> 8) & 0xff) as u8,
        ((v >> 16) & 0xff) as u8,
        ((v >> 24) & 0xff) as u8,
    ]
}

/// The 32-bit value read from four little-endian bytes.
pub open spec fn spec_u32_of_le(s: Seq<u8>) -> u32
    recommends
        s.len() == 4,
{
    (s[0] + s[1] * 0x100 + s[2] * 0x10000 + s[3] * 0x1000000) as u32
}

/// Reading back the four little-endian bytes of a value yields the value.
pub proof fn lemma_le32_round_trip(v: u32)
    ensures
        spec_u32_of_le(spec_le32_bytes(v)) == v,
{
    assert(((v & 0xff) + ((v >> 8) & 0xff) * 0x100 + ((v >> 16) & 0xff) * 0x10000 + ((v >> 24)
        & 0xff) * 0x1000000) as u32 == v) by (bit_vector);
    assert(v & 0xff < 256 && (v >> 8) & 0xff < 256 && (v >> 16) & 0xff < 256 && (v >> 24) & 0xff
        < 256) by (bit_vector);
}

/// Re-encoding the value read from four little-endian bytes yields the
/// bytes.
pub proof fn lemma_le32_bytes_round_trip(s: Seq<u8>)
    requires
        s.len() == 4,
    ensures
        spec_le32_bytes(spec_u32_of_le(s)) == s,
{
    let b0 = s[0];
    let b1 = s[1];
    let b2 = s[2];
    let b3 = s[3];
    assert((((b0 + b1 * 0x100 + b2 * 0x10000 + b3 * 0x1000000) as u32) & 0xff) as u8 == b0
        && ((((b0 + b1 * 0x100 + b2 * 0x10000 + b3 * 0x1000000) as u32) >> 8) & 0xff) as u8 == b1
        && ((((b0 + b1 * 0x100 + b2 * 0x10000 + b3 * 0x1000000) as u32) >> 16) & 0xff) as u8 == b2
        && ((((b0 + b1 * 0x100 + b2 * 0x10000 + b3 * 0x1000000) as u32) >> 24) & 0xff) as u8
        == b3) by (bit_vector);
    assert(spec_le32_bytes(spec_u32_of_le(s)) =~= s);
}

/// Append the four little-endian bytes of `v`.
pub fn push_le32(out: &mut Vec<u8>, v: u32)
    ensures
        final(out)@ == old(out)@ + spec_le32_bytes(v),
{
    out.push((v & 0xff) as u8);
    out.push(((v >> 8) & 0xff) as u8);
    out.push(((v >> 16) & 0xff) as u8);
    out.push(((v >> 24) & 0xff) as u8);
    assert(final(out)@ =~= old(out)@ + spec_le32_bytes(v));
}

/// Read a 32-bit little-endian value at `off`.
pub fn read_le32(b: &[u8], off: usize) -> (r: u32)
    requires
        off + 4 <= b@.len(),
    ensures
        r == spec_u32_of_le(b@.subrange(off as int, off + 4)),
{
    let r = b[off] as u32 + (b[off + 1] as u32) * 0x100 + (b[off + 2] as u32) * 0x10000 + (b[off
        + 3] as u32) * 0x1000000;
    proof {
        let s = b@.subrange(off as int, off + 4);
        assert(s[0] == b@[off as int] && s[1] == b@[off + 1] && s[2] == b@[off + 2] && s[3] == b@[
            off + 3]);
    }
    r
}

/// Append all of `data`.
pub fn push_bytes(out: &mut Vec<u8>, data: &[u8])
    ensures
        final(out)@ == old(out)@ + data@,
{
    let mut i: usize = 0;
    while i < data.len()
        invariant
            i <= data@.len(),
            out@ == old(out)@ + data@.subrange(0, i as int),
        decreases data@.len() - i,
    {
        out.push(data[i]);
        assert(out@ =~= old(out)@ + data@.subrange(0, i + 1));
        i = i + 1;
    }
    assert(out@ =~= old(out)@ + data@);
}

/// Copy `len` bytes starting at `at` into a fresh vector.
pub fn copy_range(b: &[u8], at: usize, len: usize) -> (r: Vec<u8>)
    requires
        at + len <= b@.len(),
    ensures
        r@ == b@.subrange(at as int, at + len),
{
    let blen = b.len();
    let mut out: Vec<u8> = Vec::new();
    let mut i: usize = 0;
    while i < len
        invariant
            i <= len,
            at + len <= blen,
            blen == b@.len(),
            out@ == b@.subrange(at as int, at + i),
        decreases len - i,
    {
        out.push(b[at + i]);
        assert(out@ =~= b@.subrange(at as int, at + i + 1));
        i = i + 1;
    }
    out
}

/// True when two byte slices hold the same bytes.
pub fn bytes_eq(a: &[u8], b: &[u8]) -> (r: bool)
    ensures
        r == (a@ == b@),
{
    if a.len() != b.len() {
        assert(a@ != b@);
        return false;
    }
    let mut i: usize = 0;
    while i < a.len()
        invariant
            i <= a@.len(),
            a@.len() == b@.len(),
            forall|j: int| 0 <= j < i ==> a@[j] == b@[j],
        decreases a@.len() - i,
    {
        if a[i] != b[i] {
            return false;
        }
        i = i + 1;
    }
    proof {
        assert(a@ =~= b@);
    }
    true
}

} // verus!
