//! Bit-field codec primitives: offset-based reads and writes of unsigned
//! integers and byte runs inside a byte buffer, with big-endian decoding of
//! multi-byte integers and masked read-modify-write for sub-byte fields.

use vstd::prelude::*;

verus! {

/// The 16-bit big-endian integer formed by a high and a low byte.
pub open spec fn be16(hi: u8, lo: u8) -> u16 {
    (hi as u16 * 256 + lo as u16) as u16
}

/// The high (first-on-wire) byte of a 16-bit big-endian integer.
pub open spec fn be16_hi(v: u16) -> u8 {
    (v / 256) as u8
}

/// The low (second-on-wire) byte of a 16-bit big-endian integer.
pub open spec fn be16_lo(v: u16) -> u8 {
    (v % 256) as u8
}

/// `s` with the bytes of `b` written at offset `off`; everything outside
/// `off .. off + b.len()` is kept.
pub open spec fn splice(s: Seq<u8>, off: int, b: Seq<u8>) -> Seq<u8>
    recommends
        0 <= off,
        off + b.len() <= s.len(),
{
    s.subrange(0, off) + b + s.subrange(off + b.len(), s.len() as int)
}

/// Decoding a 16-bit big-endian integer undoes encoding it, and encoding
/// undoes decoding: the two bytes determine the integer and vice versa.
pub proof fn lemma_be16_round_trip(v: u16, hi: u8, lo: u8)
    ensures
        be16(be16_hi(v), be16_lo(v)) == v,
        be16_hi(be16(hi, lo)) == hi,
        be16_lo(be16(hi, lo)) == lo,
{
    assert(be16(be16_hi(v), be16_lo(v)) == v) by (bit_vector);
    assert(be16_hi(be16(hi, lo)) == hi) by (bit_vector);
    assert(be16_lo(be16(hi, lo)) == lo) by (bit_vector);
}

/// Writing a byte run and reading the same range back yields the run, and
/// every byte outside the range keeps its old value.
pub proof fn lemma_splice_round_trip(s: Seq<u8>, off: int, b: Seq<u8>)
    requires
        0 <= off,
        off + b.len() <= s.len(),
    ensures
        splice(s, off, b).len() == s.len(),
        splice(s, off, b).subrange(off, off + b.len()) == b,
        forall|i: int|
            0 <= i < s.len() && !(off <= i < off + b.len()) ==> splice(s, off, b)[i] == s[i],
{
    assert(splice(s, off, b).subrange(off, off + b.len()) =~= b);
}

/// Masked nibble update: writing one nibble of a shared byte reads back
/// exactly the value written and leaves the other nibble unchanged, whichever
/// nibble is written.
pub proof fn lemma_nibble_update(b: u8, v: u8)
    by (bit_vector)
    requires
        v < 16,
    ensures
        ((v << 4) | (b & 0x0f)) >> 4 == v,
        ((v << 4) | (b & 0x0f)) & 0x0f == b & 0x0f,
        ((b & 0xf0) | (v & 0x0f)) & 0x0f == v,
        ((b & 0xf0) | (v & 0x0f)) >> 4 == b >> 4,
{
}

/// Reads the byte at `offset`.
pub fn read_u8(data: &[u8], offset: usize) -> (r: u8)
    requires
        offset < data@.len(),
    ensures
        r == data@[offset as int],
{
    data[offset]
}

/// Decodes the 16-bit big-endian integer at `offset`.
pub fn read_u16_be(data: &[u8], offset: usize) -> (r: u16)
    requires
        offset + 2 <= data@.len(),
    ensures
        r == be16(data@[offset as int], data@[offset as int + 1]),
{
    let hi = data[offset];
    let lo = data[offset + 1];
    hi as u16 * 256 + lo as u16
}

/// Overwrites the byte at `offset`.
pub fn write_u8(data: &mut Vec<u8>, offset: usize, value: u8)
    requires
        offset < old(data)@.len(),
    ensures
        final(data)@ == old(data)@.update(offset as int, value),
{
    data[offset] = value;
}

/// Encodes `value` as a 16-bit big-endian integer at `offset`.
pub fn write_u16_be(data: &mut Vec<u8>, offset: usize, value: u16)
    requires
        offset + 2 <= old(data)@.len(),
    ensures
        final(data)@ == old(data)@.update(offset as int, be16_hi(value)).update(
            offset as int + 1,
            be16_lo(value),
        ),
{
    proof {
        vstd::std_specs::vec::axiom_spec_len(data);
    }
    data[offset] = (value / 256) as u8;
    data[offset + 1] = (value % 256) as u8;
}

/// Copies all of `src` into `data` starting at `offset`.
pub fn write_slice(data: &mut Vec<u8>, offset: usize, src: &[u8])
    requires
        offset + src@.len() <= old(data)@.len(),
    ensures
        final(data)@ == splice(old(data)@, offset as int, src@),
{
    let n = src.len();
    let dlen = data.len();
    let mut i: usize = 0;
    while i < n
        invariant
            n == src@.len(),
            0 <= i <= n,
            offset + n <= dlen,
            data@.len() == dlen,
            dlen == old(data)@.len(),
            forall|j: int| 0 <= j < i ==> data@[offset + j] == src@[j],
            forall|j: int|
                0 <= j < data@.len() && !(offset <= j < offset + i) ==> data@[j] == old(data)@[j],
        decreases n - i,
    {
        data[offset + i] = src[i];
        i += 1;
    }
    proof {
        assert(data@ =~= splice(old(data)@, offset as int, src@));
    }
}

} // verus!
