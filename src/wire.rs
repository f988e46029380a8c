use byteorder::{ByteOrder, LittleEndian};
use vstd::prelude::*;

verus! {

/// The 16-bit value whose little-endian bytes are `lo`, `hi`.
pub open spec fn le_u16(lo: u8, hi: u8) -> u16 {
    (lo as int + 256 * hi as int) as u16
}

/// The two little-endian bytes of `v`, low byte first.
pub open spec fn u16_le_bytes(v: u16) -> Seq<u8> {
    seq![(v % 256) as u8, (v / 256) as u8]
}

/// Reading back the little-endian bytes of a value gives that value.
pub proof fn lemma_u16_le_round_trip(v: u16)
    ensures
        le_u16(u16_le_bytes(v)[0], u16_le_bytes(v)[1]) == v,
{
}

/// Relies on byteorder's `LittleEndian::read_u16`: the first byte is the low
/// one.
#[verifier::external_body]
fn u16_from_le(bytes: [u8; 2]) -> (r: u16)
    ensures
        r == le_u16(bytes@[0], bytes@[1]),
{
    LittleEndian::read_u16(&bytes)
}

/// Relies on byteorder's `LittleEndian::write_u16`: the low byte is written
/// first.
#[verifier::external_body]
fn u16_to_le(v: u16) -> (r: [u8; 2])
    ensures
        r@ == u16_le_bytes(v),
{
    let mut buf = [0u8; 2];
    LittleEndian::write_u16(&mut buf, v);
    buf
}

/// Reads the little-endian 16-bit value at `pos`.
pub(crate) fn read_u16_at(data: &[u8], pos: usize) -> (r: u16)
    requires
        pos + 2 <= data@.len(),
    ensures
        r == le_u16(data@[pos as int], data@[pos + 1]),
{
    let bytes: [u8; 2] = [data[pos], data[pos + 1]];
    u16_from_le(bytes)
}

/// Appends the little-endian bytes of `v`.
pub(crate) fn push_u16(out: &mut Vec<u8>, v: u16)
    ensures
        final(out)@ == old(out)@ + u16_le_bytes(v),
{
    let bytes = u16_to_le(v);
    out.push(bytes[0]);
    out.push(bytes[1]);
    assert(final(out)@ =~= old(out)@ + u16_le_bytes(v));
}

/// Appends the bytes of `src`.
pub(crate) fn push_bytes(out: &mut Vec<u8>, src: &[u8])
    ensures
        final(out)@ == old(out)@ + src@,
{
    let mut i: usize = 0;
    while i < src.len()
        invariant
            i <= src@.len(),
            out@ == old(out)@ + src@.subrange(0, i as int),
        decreases src@.len() - i,
    {
        out.push(src[i]);
        i = i + 1;
        assert(out@ =~= old(out)@ + src@.subrange(0, i as int));
    }
    assert(src@.subrange(0, i as int) =~= src@);
}

} // verus!
