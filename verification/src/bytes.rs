//! Little-endian integer fields and byte-buffer helpers shared by the codecs.

use vstd::prelude::*;

verus! {

/// The value of the first 8 bytes of `s`, read as a little-endian unsigned
/// 64-bit integer.
pub open spec fn le_u64_val(s: Seq<u8>) -> int
    recommends
        s.len() >= 8,
{
    s[0] + 0x100 * (s[1] + 0x100 * (s[2] + 0x100 * (s[3] + 0x100 * (s[4] + 0x100 * (s[5]
        + 0x100 * (s[6] + 0x100 * s[7]))))))
}

/// The 8 little-endian bytes of `v`.
pub open spec fn le_u64_bytes(v: u64) -> Seq<u8> {
    seq![
        (v % 0x100) as u8,
        ((v / 0x100) % 0x100) as u8,
        ((v / 0x1_0000) % 0x100) as u8,
        ((v / 0x100_0000) % 0x100) as u8,
        ((v / 0x1_0000_0000) % 0x100) as u8,
        ((v / 0x100_0000_0000) % 0x100) as u8,
        ((v / 0x1_0000_0000_0000) % 0x100) as u8,
        ((v / 0x100_0000_0000_0000) % 0x100) as u8,
    ]
}

/// A little-endian field always reads back as the value it was written from.
pub proof fn lemma_le_u64_round_trip(v: u64)
    ensures
        le_u64_bytes(v).len() == 8,
        le_u64_val(le_u64_bytes(v)) == v,
{
    assert((v % 0x100) + 0x100 * (((v / 0x100) % 0x100) + 0x100 * (((v / 0x1_0000) % 0x100)
        + 0x100 * (((v / 0x100_0000) % 0x100) + 0x100 * (((v / 0x1_0000_0000) % 0x100)
        + 0x100 * (((v / 0x100_0000_0000) % 0x100) + 0x100 * (((v / 0x1_0000_0000_0000) % 0x100)
        + 0x100 * ((v / 0x100_0000_0000_0000) % 0x100))))))) == v) by (bit_vector);
}

/// Reads bytes `s[offset .. offset + 8]` as a little-endian u64.
pub fn read_le_u64(s: &[u8], offset: usize) -> (r: u64)
    requires
        offset + 8 <= s@.len(),
    ensures
        r == le_u64_val(s@.subrange(offset as int, offset as int + 8)),
{
    let n = s.len();
    assert(offset + 8 <= n);
    let v7 = s[offset + 7] as u64;
    let v6 = s[offset + 6] as u64 + 0x100 * v7;
    let v5 = s[offset + 5] as u64 + 0x100 * v6;
    let v4 = s[offset + 4] as u64 + 0x100 * v5;
    let v3 = s[offset + 3] as u64 + 0x100 * v4;
    let v2 = s[offset + 2] as u64 + 0x100 * v3;
    let v1 = s[offset + 1] as u64 + 0x100 * v2;
    let v0 = s[offset] as u64 + 0x100 * v1;
    v0
}

/// Appends the 8 little-endian bytes of `v` to `out`.
pub fn push_le_u64(out: &mut Vec<u8>, v: u64)
    ensures
        final(out)@ == old(out)@ + le_u64_bytes(v),
{
    out.push((v % 0x100) as u8);
    out.push(((v / 0x100) % 0x100) as u8);
    out.push(((v / 0x1_0000) % 0x100) as u8);
    out.push(((v / 0x100_0000) % 0x100) as u8);
    out.push(((v / 0x1_0000_0000) % 0x100) as u8);
    out.push(((v / 0x100_0000_0000) % 0x100) as u8);
    out.push(((v / 0x1_0000_0000_0000) % 0x100) as u8);
    out.push(((v / 0x100_0000_0000_0000) % 0x100) as u8);
    proof {
        assert(out@ =~= old(out)@ + le_u64_bytes(v));
    }
}

/// Copies a byte buffer.
pub fn clone_bytes(v: &Vec<u8>) -> (r: Vec<u8>)
    ensures
        r@ == v@,
{
    let r = v.clone();
    proof {
        assert(r@ =~= v@);
    }
    r
}

/// Whether two byte buffers hold the same bytes.
pub fn bytes_equal(a: &Vec<u8>, b: &Vec<u8>) -> (r: bool)
    ensures
        r == (a@ == b@),
{
    if a.len() != b.len() {
        return false;
    }
    let mut i: usize = 0;
    while i < a.len()
        invariant
            i <= a@.len(),
            a@.len() == b@.len(),
            forall|j: int| 0 <= j < i ==> a@[j] == b@[j],
        decreases a@.len() - i,
    {
        if a[i] != b[i] {
            return false;
        }
        i = i + 1;
    }
    proof {
        assert(a@ =~= b@);
    }
    true
}

} // verus!
