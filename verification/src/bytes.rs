//! Fixed-width integers in the machine's byte order, and the writes of
//! `byteorder::NativeEndian` that put them into a byte buffer.
use byteorder::{ByteOrder, NativeEndian};
use vstd::endian::{endianness, Endian};
use vstd::prelude::*;

verus! {

/// The two bytes of `v`, least significant first.
pub open spec fn le_bytes_u16(v: u16) -> Seq<u8> {
    seq![(v & 0xff) as u8, ((v >> 8u16) & 0xff) as u8]
}

/// The four bytes of `v`, least significant first.
pub open spec fn le_bytes_u32(v: u32) -> Seq<u8> {
    seq![
        (v & 0xff) as u8,
        ((v >> 8u32) & 0xff) as u8,
        ((v >> 16u32) & 0xff) as u8,
        ((v >> 24u32) & 0xff) as u8,
    ]
}

/// The eight bytes of `v`, least significant first.
pub open spec fn le_bytes_u64(v: u64) -> Seq<u8> {
    seq![
        (v & 0xff) as u8,
        ((v >> 8u64) & 0xff) as u8,
        ((v >> 16u64) & 0xff) as u8,
        ((v >> 24u64) & 0xff) as u8,
        ((v >> 32u64) & 0xff) as u8,
        ((v >> 40u64) & 0xff) as u8,
        ((v >> 48u64) & 0xff) as u8,
        ((v >> 56u64) & 0xff) as u8,
    ]
}

/// The value of two bytes read least significant first.
pub open spec fn le_value_u16(s: Seq<u8>) -> u16 {
    (s[0] as u16) | ((s[1] as u16) << 8u16)
}

/// The value of four bytes read least significant first.
pub open spec fn le_value_u32(s: Seq<u8>) -> u32 {
    (s[0] as u32) | ((s[1] as u32) << 8u32) | ((s[2] as u32) << 16u32) | ((s[3] as u32)
        << 24u32)
}

/// The value of eight bytes read least significant first.
pub open spec fn le_value_u64(s: Seq<u8>) -> u64 {
    (s[0] as u64) | ((s[1] as u64) << 8u64) | ((s[2] as u64) << 16u64) | ((s[3] as u64)
        << 24u64) | ((s[4] as u64) << 32u64) | ((s[5] as u64) << 40u64) | ((s[6] as u64)
        << 48u64) | ((s[7] as u64) << 56u64)
}

/// Puts bytes given least significant first into the machine's byte order.
pub open spec fn in_native_order(le: Seq<u8>) -> Seq<u8> {
    match endianness() {
        Endian::Little => le,
        Endian::Big => le.reverse(),
    }
}

/// `v` in the byte order of the machine.
pub open spec fn ne_bytes_u16(v: u16) -> Seq<u8> {
    in_native_order(le_bytes_u16(v))
}

/// `v` in the byte order of the machine.
pub open spec fn ne_bytes_u32(v: u32) -> Seq<u8> {
    in_native_order(le_bytes_u32(v))
}

/// `v` in the byte order of the machine.
pub open spec fn ne_bytes_u64(v: u64) -> Seq<u8> {
    in_native_order(le_bytes_u64(v))
}

/// The value of two bytes read in the byte order of the machine.
pub open spec fn ne_value_u16(s: Seq<u8>) -> u16 {
    le_value_u16(in_native_order(s))
}

/// The value of four bytes read in the byte order of the machine.
pub open spec fn ne_value_u32(s: Seq<u8>) -> u32 {
    le_value_u32(in_native_order(s))
}

/// The value of eight bytes read in the byte order of the machine.
pub open spec fn ne_value_u64(s: Seq<u8>) -> u64 {
    le_value_u64(in_native_order(s))
}

/// `n` zero bytes.
pub open spec fn zeros(n: nat) -> Seq<u8> {
    Seq::new(n, |i: int| 0u8)
}

/// `s` with the bytes from `start` on replaced by `w` (its length unchanged
/// where `w` fits).
pub open spec fn overwrite(s: Seq<u8>, start: int, w: Seq<u8>) -> Seq<u8> {
    s.take(start) + w + s.skip(start + w.len())
}

proof fn lemma_reverse_reverse(s: Seq<u8>)
    ensures
        s.reverse().reverse() == s,
        s.reverse().len() == s.len(),
{
    assert(s.reverse().reverse() =~= s);
}

/// Native-order bytes have the width of their integer type.
pub proof fn lemma_ne_bytes_len(a: u16, b: u32, c: u64)
    ensures
        ne_bytes_u16(a).len() == 2,
        ne_bytes_u32(b).len() == 4,
        ne_bytes_u64(c).len() == 8,
{
}

/// Reading back, in the machine's byte order, a 16-bit value written in
/// that order gives the value.
pub proof fn lemma_u16_roundtrip(v: u16)
    ensures
        ne_value_u16(ne_bytes_u16(v)) == v,
{
    lemma_reverse_reverse(le_bytes_u16(v));
    let s = le_bytes_u16(v);
    let b0 = s[0];
    let b1 = s[1];
    assert(b0 == (v & 0xff) as u8 && b1 == ((v >> 8u16) & 0xff) as u8 ==> ((b0 as u16) | ((
    b1 as u16) << 8u16)) == v) by (bit_vector);
    assert(in_native_order(ne_bytes_u16(v)) == s);
}

/// Reading back, in the machine's byte order, a 32-bit value written in
/// that order gives the value.
pub proof fn lemma_u32_roundtrip(v: u32)
    ensures
        ne_value_u32(ne_bytes_u32(v)) == v,
{
    lemma_reverse_reverse(le_bytes_u32(v));
    let s = le_bytes_u32(v);
    let b0 = s[0];
    let b1 = s[1];
    let b2 = s[2];
    let b3 = s[3];
    assert(b0 == (v & 0xff) as u8 && b1 == ((v >> 8u32) & 0xff) as u8 && b2 == ((v >> 16u32)
        & 0xff) as u8 && b3 == ((v >> 24u32) & 0xff) as u8 ==> ((b0 as u32) | ((b1 as u32)
        << 8u32) | ((b2 as u32) << 16u32) | ((b3 as u32) << 24u32)) == v) by (bit_vector);
    assert(in_native_order(ne_bytes_u32(v)) == s);
}

/// Reading back, in the machine's byte order, a 64-bit value written in
/// that order gives the value.
pub proof fn lemma_u64_roundtrip(v: u64)
    ensures
        ne_value_u64(ne_bytes_u64(v)) == v,
{
    lemma_reverse_reverse(le_bytes_u64(v));
    let s = le_bytes_u64(v);
    let b0 = s[0];
    let b1 = s[1];
    let b2 = s[2];
    let b3 = s[3];
    let b4 = s[4];
    let b5 = s[5];
    let b6 = s[6];
    let b7 = s[7];
    assert(b0 == (v & 0xff) as u8 && b1 == ((v >> 8u64) & 0xff) as u8 && b2 == ((v >> 16u64)
        & 0xff) as u8 && b3 == ((v >> 24u64) & 0xff) as u8 && b4 == ((v >> 32u64) & 0xff) as u8
        && b5 == ((v >> 40u64) & 0xff) as u8 && b6 == ((v >> 48u64) & 0xff) as u8 && b7 == ((v
        >> 56u64) & 0xff) as u8 ==> ((b0 as u64) | ((b1 as u64) << 8u64) | ((b2 as u64)
        << 16u64) | ((b3 as u64) << 24u64) | ((b4 as u64) << 32u64) | ((b5 as u64) << 40u64)
        | ((b6 as u64) << 48u64) | ((b7 as u64) << 56u64)) == v) by (bit_vector);
    assert(in_native_order(ne_bytes_u64(v)) == s);
}

/// `byteorder::NativeEndian::write_u16` on `buf[start..end]`: the two bytes
/// from `start` on become `n` in the machine's byte order; nothing else
/// changes. The outside function panics when the slice is shorter than two
/// bytes, which `requires` leaves out.
#[verifier::external_body]
pub(crate) fn write_u16_ne(buf: &mut Vec<u8>, start: usize, end: usize, n: u16)
    requires
        start <= end <= old(buf).len(),
        end - start >= 2,
    ensures
        final(buf)@ == overwrite(old(buf)@, start as int, ne_bytes_u16(n)),
{
    NativeEndian::write_u16(&mut buf[start..end], n)
}

/// `byteorder::NativeEndian::write_u32` on `buf[start..end]`: the four bytes
/// from `start` on become `n` in the machine's byte order; nothing else
/// changes. The outside function panics when the slice is shorter than four
/// bytes, which `requires` leaves out.
#[verifier::external_body]
pub(crate) fn write_u32_ne(buf: &mut Vec<u8>, start: usize, end: usize, n: u32)
    requires
        start <= end <= old(buf).len(),
        end - start >= 4,
    ensures
        final(buf)@ == overwrite(old(buf)@, start as int, ne_bytes_u32(n)),
{
    NativeEndian::write_u32(&mut buf[start..end], n)
}

/// `byteorder::NativeEndian::write_u64` on `buf[start..end]`: the eight bytes
/// from `start` on become `n` in the machine's byte order; nothing else
/// changes. The outside function panics when the slice is shorter than eight
/// bytes, which `requires` leaves out.
#[verifier::external_body]
pub(crate) fn write_u64_ne(buf: &mut Vec<u8>, start: usize, end: usize, n: u64)
    requires
        start <= end <= old(buf).len(),
        end - start >= 8,
    ensures
        final(buf)@ == overwrite(old(buf)@, start as int, ne_bytes_u64(n)),
{
    NativeEndian::write_u64(&mut buf[start..end], n)
}


/// Bytes read least significant first weigh 1, 256, 256², … in order.
pub proof fn lemma_le_value_weights(s: Seq<u8>)
    requires
        s.len() >= 8,
    ensures
        le_value_u16(s) == s[0] + 256 * s[1],
        le_value_u32(s) == s[0] + 256 * s[1] + 65536 * s[2] + 16777216 * s[3],
        le_value_u64(s) == s[0] + 256 * s[1] + 65536 * s[2] + 16777216 * s[3] + 0x1_0000_0000 * s[4]
            + 0x100_0000_0000 * s[5] + 0x1_0000_0000_0000 * s[6] + 0x100_0000_0000_0000 * s[7],
{
    let (b0, b1, b2, b3, b4, b5, b6, b7) = (s[0], s[1], s[2], s[3], s[4], s[5], s[6], s[7]);
    assert(((b0 as u16) | ((b1 as u16) << 8u16)) == b0 + 256 * b1) by (bit_vector);
    assert(((b0 as u32) | ((b1 as u32) << 8u32) | ((b2 as u32) << 16u32) | ((b3 as u32) << 24u32))
        == b0 + 256 * b1 + 65536 * b2 + 16777216 * b3) by (bit_vector);
    assert(((b0 as u64) | ((b1 as u64) << 8u64) | ((b2 as u64) << 16u64) | ((b3 as u64) << 24u64)
        | ((b4 as u64) << 32u64) | ((b5 as u64) << 40u64) | ((b6 as u64) << 48u64) | ((b7 as u64)
        << 56u64)) == b0 + 256 * b1 + 65536 * b2 + 16777216 * b3 + 0x1_0000_0000 * b4
        + 0x100_0000_0000 * b5 + 0x1_0000_0000_0000 * b6 + 0x100_0000_0000_0000 * b7)
        by (bit_vector);
}

} // verus!
