//! Little-endian integers and fixed-size slots inside a byte buffer.

use vstd::prelude::*;

verus! {

/// The 16-bit value whose low byte is `lo` and whose high byte is `hi`.
pub open spec fn le16(lo: u8, hi: u8) -> u16 {
    (lo as int + 256 * (hi as int)) as u16
}

/// The 24-bit value with the bytes `b0`, `b1`, `b2`, least significant first.
pub open spec fn le24(b0: u8, b1: u8, b2: u8) -> u32 {
    (b0 as int + 256 * (b1 as int) + 65536 * (b2 as int)) as u32
}

/// The two bytes of `x`, least significant first.
pub open spec fn le16_bytes(x: u16) -> Seq<u8> {
    seq![(x as int % 256) as u8, (x as int / 256) as u8]
}

/// The three bytes of a 24-bit `x`, least significant first.
pub open spec fn le24_bytes(x: u32) -> Seq<u8>
    recommends
        x < 0x100_0000,
{
    seq![(x as int % 256) as u8, (x as int / 256 % 256) as u8, (x as int / 65536) as u8]
}

/// `n` zero bytes.
pub open spec fn zeros(n: nat) -> Seq<u8> {
    Seq::new(n, |i: int| 0u8)
}

/// Reads the 16-bit little-endian integer at offset `at`.
pub(crate) fn read_le16(source: &[u8], at: usize) -> (x: u16)
    requires
        at + 2 <= source@.len(),
    ensures
        x == le16(source@[at as int], source@[at + 1]),
{
    let lo: u16 = source[at] as u16;
    let hi: u16 = source[at + 1] as u16;
    lo + 256 * hi
}

/// Reads the 24-bit little-endian integer at offset `at`.
pub(crate) fn read_le24(source: &[u8], at: usize) -> (x: u32)
    requires
        at + 3 <= source@.len(),
    ensures
        x == le24(source@[at as int], source@[at + 1], source@[at + 2]),
        x < 0x100_0000,
{
    let b0: u32 = source[at] as u32;
    let b1: u32 = source[at + 1] as u32;
    let b2: u32 = source[at + 2] as u32;
    b0 + 256 * b1 + 65536 * b2
}

/// Copies the `N` bytes that start at offset `at` into an array.
pub(crate) fn read_slot<const N: usize>(source: &[u8], at: usize) -> (out: [u8; N])
    requires
        at + N <= source@.len(),
    ensures
        out@ == source@.subrange(at as int, at + N),
{
    let len: usize = source.len();
    let mut out: [u8; N] = [0u8; N];
    let mut i: usize = 0;
    while i < N
        invariant
            i <= N,
            at + N <= len == source@.len(),
            forall|j: int| 0 <= j < i ==> out@[j] == source@[at + j],
        decreases N - i,
    {
        out[i] = source[at + i];
        i += 1;
    }
    assert(out@ =~= source@.subrange(at as int, at + N));
    out
}

/// Appends the two little-endian bytes of `x` to `out`.
pub(crate) fn write_le16(out: &mut Vec<u8>, x: u16)
    ensures
        final(out)@ == old(out)@ + le16_bytes(x),
{
    out.push((x % 256) as u8);
    out.push((x / 256) as u8);
    assert(final(out)@ =~= old(out)@ + le16_bytes(x));
}

/// Appends the three little-endian bytes of the 24-bit `x` to `out`.
pub(crate) fn write_le24(out: &mut Vec<u8>, x: u32)
    requires
        x < 0x100_0000,
    ensures
        final(out)@ == old(out)@ + le24_bytes(x),
{
    out.push((x % 256) as u8);
    out.push((x / 256 % 256) as u8);
    out.push((x / 65536) as u8);
    assert(final(out)@ =~= old(out)@ + le24_bytes(x));
}

/// Appends every byte of `slot` to `out`.
pub(crate) fn write_slot(out: &mut Vec<u8>, slot: &[u8])
    ensures
        final(out)@ == old(out)@ + slot@,
{
    let mut i: usize = 0;
    while i < slot.len()
        invariant
            i <= slot@.len(),
            out@ == old(out)@ + slot@.take(i as int),
        decreases slot@.len() - i,
    {
        out.push(slot[i]);
        assert(out@ =~= old(out)@ + slot@.take(i + 1));
        i += 1;
    }
    assert(slot@.take(slot@.len() as int) =~= slot@);
}

/// Reading back what `le16_bytes` wrote gives the value again.
pub proof fn lemma_le16_round_trip(x: u16)
    ensures
        le16(le16_bytes(x)[0], le16_bytes(x)[1]) == x,
{
}

/// Writing what `le16` read gives the two bytes again.
pub proof fn lemma_le16_bytes_of_le16(lo: u8, hi: u8)
    ensures
        le16_bytes(le16(lo, hi)) == seq![lo, hi],
{
    assert(le16_bytes(le16(lo, hi)) =~= seq![lo, hi]);
}

/// Reading back what `le24_bytes` wrote gives the value again.
pub proof fn lemma_le24_round_trip(x: u32)
    requires
        x < 0x100_0000,
    ensures
        le24(le24_bytes(x)[0], le24_bytes(x)[1], le24_bytes(x)[2]) == x,
{
}

/// Writing what `le24` read gives the three bytes again.
pub proof fn lemma_le24_bytes_of_le24(b0: u8, b1: u8, b2: u8)
    ensures
        le24(b0, b1, b2) < 0x100_0000,
        le24_bytes(le24(b0, b1, b2)) == seq![b0, b1, b2],
{
    assert(le24_bytes(le24(b0, b1, b2)) =~= seq![b0, b1, b2]);
}

} // verus!
