//! Little-endian field encoding, and the reading of fields back from a byte sequence.
use byteorder::{ByteOrder, LittleEndian};
use vstd::prelude::*;

verus! {

/// The two bytes of `v`, least significant first.
pub open spec fn le16(v: u16) -> Seq<u8> {
    seq![(v % 256) as u8, (v / 256) as u8]
}

/// The four bytes of `v`, least significant first.
pub open spec fn le32(v: u32) -> Seq<u8> {
    seq![
        (v % 256) as u8,
        (v / 256 % 256) as u8,
        (v / 65536 % 256) as u8,
        (v / 16777216) as u8,
    ]
}

/// The 16-bit two's complement word of a sample.
pub open spec fn sample_word(s: i16) -> u16 {
    if s >= 0 {
        s as u16
    } else {
        (s + 65536) as u16
    }
}

/// The unsigned 16-bit value stored little-endian at offset `i` of `b`.
pub open spec fn u16_at(b: Seq<u8>, i: int) -> int {
    b[i] + 256 * b[i + 1]
}

/// The unsigned 32-bit value stored little-endian at offset `i` of `b`.
pub open spec fn u32_at(b: Seq<u8>, i: int) -> int {
    b[i] + 256 * b[i + 1] + 65536 * b[i + 2] + 16777216 * b[i + 3]
}

/// The signed 16-bit value stored little-endian (two's complement) at offset `i` of `b`.
pub open spec fn i16_at(b: Seq<u8>, i: int) -> int {
    if u16_at(b, i) < 32768 {
        u16_at(b, i)
    } else {
        u16_at(b, i) - 65536
    }
}

/// Reading a 16-bit field back gives the value that was written.
pub proof fn lemma_le16_read(v: u16)
    ensures
        u16_at(le16(v), 0) == v,
{
}

/// Reading a 32-bit field back gives the value that was written.
pub proof fn lemma_le32_read(v: u32)
    ensures
        u32_at(le32(v), 0) == v,
{
    let x = v as int;
    assert(x == x % 256 + 256 * (x / 256 % 256) + 65536 * (x / 65536 % 256) + 16777216 * (x / 16777216)) by (nonlinear_arith)
        requires 0 <= x < 0x1_0000_0000;
}

/// Reading a sample back gives the sample that was written.
pub proof fn lemma_sample_read(s: i16)
    ensures
        i16_at(le16(sample_word(s)), 0) == s,
{
    lemma_le16_read(sample_word(s));
}

/// Relies on byteorder's `LittleEndian::write_u16`: the two bytes of `v`, least significant first.
#[verifier::external_body]
pub(crate) fn le_u16(v: u16) -> (r: [u8; 2])
    ensures
        r@ == le16(v),
{
    let mut b = [0u8; 2];
    LittleEndian::write_u16(&mut b, v);
    b
}

/// Relies on byteorder's `LittleEndian::write_u32`: the four bytes of `v`, least significant first.
#[verifier::external_body]
pub(crate) fn le_u32(v: u32) -> (r: [u8; 4])
    ensures
        r@ == le32(v),
{
    let mut b = [0u8; 4];
    LittleEndian::write_u32(&mut b, v);
    b
}

/// Relies on byteorder's `LittleEndian::write_i16`: the two bytes of the two's complement
/// word of `s`, least significant first.
#[verifier::external_body]
pub(crate) fn le_i16(s: i16) -> (r: [u8; 2])
    ensures
        r@ == le16(sample_word(s)),
{
    let mut b = [0u8; 2];
    LittleEndian::write_i16(&mut b, s);
    b
}

/// Appends the bytes of `b` to `out`.
pub(crate) fn push_bytes(out: &mut Vec<u8>, b: &[u8])
    ensures
        final(out)@ == old(out)@ + b@,
{
    let mut i: usize = 0;
    while i < b.len()
        invariant
            i <= b@.len(),
            out@ == old(out)@ + b@.subrange(0, i as int),
        decreases b@.len() - i,
    {
        out.push(b[i]);
        i = i + 1;
        assert(out@ =~= old(out)@ + b@.subrange(0, i as int));
    }
    assert(b@.subrange(0, b@.len() as int) =~= b@);
}

} // verus!
