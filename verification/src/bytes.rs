//! Small byte-buffer helpers shared by the protocol modules.

use vstd::prelude::*;

verus! {

/// The four bytes of `x`, least significant first.
pub open spec fn le_bytes_u32(x: u32) -> Seq<u8> {
    seq![
        (x % 256) as u8,
        ((x / 0x100) % 256) as u8,
        ((x / 0x1_0000) % 256) as u8,
        ((x / 0x100_0000) % 256) as u8,
    ]
}

/// The two bytes of `x`, least significant first.
pub open spec fn le_bytes_u16(x: u16) -> Seq<u8> {
    seq![(x % 256) as u8, ((x / 0x100) % 256) as u8]
}

/// `count` copies of `fill`.
pub open spec fn filled(count: nat, fill: u8) -> Seq<u8> {
    Seq::new(count, |i: int| fill)
}

/// Appends a copy of `src` to `dst`.
pub fn extend_bytes(dst: &mut Vec<u8>, src: &[u8])
    ensures
        final(dst)@ == old(dst)@ + src@,
{
    let mut i: usize = 0;
    while i < src.len()
        invariant
            i <= src@.len(),
            dst@ == old(dst)@ + src@.take(i as int),
        decreases src@.len() - i,
    {
        dst.push(src[i]);
        i += 1;
    }
    assert(src@.take(src@.len() as int) == src@);
}

/// Appends the little-endian bytes of `x` to `dst`.
pub fn push_le_u32(dst: &mut Vec<u8>, x: u32)
    ensures
        final(dst)@ == old(dst)@ + le_bytes_u32(x),
{
    let b0: u8 = (x & 0xFF) as u8;
    let b1: u8 = ((x >> 8) & 0xFF) as u8;
    let b2: u8 = ((x >> 16) & 0xFF) as u8;
    let b3: u8 = ((x >> 24) & 0xFF) as u8;
    assert(x & 0xFF == x % 256) by (bit_vector);
    assert((x >> 8) & 0xFF == (x / 0x100) % 256) by (bit_vector);
    assert((x >> 16) & 0xFF == (x / 0x1_0000) % 256) by (bit_vector);
    assert((x >> 24) & 0xFF == (x / 0x100_0000) % 256) by (bit_vector);
    dst.push(b0);
    dst.push(b1);
    dst.push(b2);
    dst.push(b3);
    assert(dst@ == old(dst)@ + le_bytes_u32(x));
}

/// Appends the little-endian bytes of `x` to `dst`.
pub fn push_le_u16(dst: &mut Vec<u8>, x: u16)
    ensures
        final(dst)@ == old(dst)@ + le_bytes_u16(x),
{
    let b0: u8 = (x & 0xFF) as u8;
    let b1: u8 = ((x >> 8) & 0xFF) as u8;
    assert(x & 0xFF == x % 256) by (bit_vector);
    assert((x >> 8) & 0xFF == (x / 0x100) % 256) by (bit_vector);
    dst.push(b0);
    dst.push(b1);
    assert(dst@ == old(dst)@ + le_bytes_u16(x));
}

} // verus!
