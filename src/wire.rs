//! Fixed-width field transcoders: little-endian integers, the additive
//! checksum, fixed-point scaled values and fixed-length text fields.

use vstd::prelude::*;
use vstd::utf8::{decode_utf8, valid_utf8};

verus! {

/// The unsigned 16-bit little-endian value stored at `b[i..i + 2]`.
pub open spec fn le_u16(b: Seq<u8>, i: int) -> u16 {
    (b[i] as int + 256 * b[i + 1] as int) as u16
}

/// The unsigned 32-bit little-endian value stored at `b[i..i + 4]`.
pub open spec fn le_u32(b: Seq<u8>, i: int) -> u32 {
    (b[i] as int + 256 * b[i + 1] as int + 65536 * b[i + 2] as int + 16777216 * b[i
        + 3] as int) as u32
}

/// The signed (two's complement) 16-bit little-endian value stored at `b[i..i + 2]`.
pub open spec fn le_i16(b: Seq<u8>, i: int) -> i16 {
    let u = le_u16(b, i);
    if u >= 0x8000 {
        (u - 0x10000) as i16
    } else {
        u as i16
    }
}

/// The two little-endian bytes of `v`.
pub open spec fn u16_le_bytes(v: u16) -> Seq<u8> {
    seq![(v % 256) as u8, (v / 256) as u8]
}

/// The four little-endian bytes of `v`.
pub open spec fn u32_le_bytes(v: u32) -> Seq<u8> {
    seq![
        (v % 256) as u8,
        ((v / 256) % 256) as u8,
        ((v / 65536) % 256) as u8,
        (v / 16777216) as u8,
    ]
}

/// The plain sum of all bytes of `s`.
pub open spec fn byte_sum(s: Seq<u8>) -> int
    decreases s.len(),
{
    if s.len() == 0 {
        0
    } else {
        byte_sum(s.drop_last()) + s.last()
    }
}

/// The additive checksum: the sum of all bytes, wrapped to eight bits.
pub open spec fn checksum(s: Seq<u8>) -> u8 {
    (byte_sum(s) % 256) as u8
}

/// Reads the unsigned 16-bit little-endian value at `off`.
pub fn read_u16_le(b: &[u8], off: usize) -> (r: u16)
    requires
        off + 2 <= b@.len(),
    ensures
        r == le_u16(b@, off as int),
{
    b[off] as u16 + 256 * (b[off + 1] as u16)
}

/// Reads the unsigned 32-bit little-endian value at `off`.
pub fn read_u32_le(b: &[u8], off: usize) -> (r: u32)
    requires
        off + 4 <= b@.len(),
    ensures
        r == le_u32(b@, off as int),
{
    b[off] as u32 + 256 * (b[off + 1] as u32) + 65536 * (b[off + 2] as u32) + 16777216 * (b[off
        + 3] as u32)
}

/// Reads the signed 16-bit little-endian value at `off`.
pub fn read_i16_le(b: &[u8], off: usize) -> (r: i16)
    requires
        off + 2 <= b@.len(),
    ensures
        r == le_i16(b@, off as int),
{
    let u: u16 = read_u16_le(b, off);
    if u >= 0x8000 {
        (u as i32 - 0x10000) as i16
    } else {
        u as i16
    }
}

/// Appends the two little-endian bytes of `v`.
pub fn push_u16_le(out: &mut Vec<u8>, v: u16)
    ensures
        final(out)@ == old(out)@ + u16_le_bytes(v),
{
    out.push((v % 256) as u8);
    out.push((v / 256) as u8);
    assert(final(out)@ =~= old(out)@ + u16_le_bytes(v));
}

/// Appends the four little-endian bytes of `v`.
pub fn push_u32_le(out: &mut Vec<u8>, v: u32)
    ensures
        final(out)@ == old(out)@ + u32_le_bytes(v),
{
    out.push((v % 256) as u8);
    out.push(((v / 256) % 256) as u8);
    out.push(((v / 65536) % 256) as u8);
    out.push((v / 16777216) as u8);
    assert(final(out)@ =~= old(out)@ + u32_le_bytes(v));
}

/// The additive checksum of `buf`: every byte summed with wrap-around at 256.
pub fn calc_checksum(buf: &[u8]) -> (r: u8)
    ensures
        r == checksum(buf@),
{
    let mut acc: u8 = 0;
    let mut i: usize = 0;
    while i < buf.len()
        invariant
            i <= buf@.len(),
            acc as int == byte_sum(buf@.take(i as int)) % 256,
        decreases buf@.len() - i,
    {
        proof {
            let s = buf@.take(i as int + 1);
            assert(s.drop_last() =~= buf@.take(i as int));
            vstd::arithmetic::div_mod::lemma_add_mod_noop(
                byte_sum(buf@.take(i as int)),
                buf@[i as int] as int,
                256,
            );
            vstd::arithmetic::div_mod::lemma_mod_twice(buf@[i as int] as int, 256);
        }
        acc = ((acc as u16 + buf[i] as u16) % 256) as u8;
        i = i + 1;
    }
    assert(buf@.take(i as int) =~= buf@);
    acc
}

/// A fixed-point reading: the value is `raw / divisor`.
#[derive(Clone, Copy, Debug, PartialEq, Eq, Structural)]
pub struct Scaled {
    pub raw: i64,
    pub divisor: u16,
}

/// Reads a signed 16-bit value at `off` that carries an implicit divisor.
pub fn divide_i16_by(b: &[u8], off: usize, divisor: u16) -> (r: Scaled)
    requires
        off + 2 <= b@.len(),
        divisor > 0,
    ensures
        r == (Scaled { raw: le_i16(b@, off as int) as i64, divisor }),
{
    Scaled { raw: read_i16_le(b, off) as i64, divisor }
}

/// Reads an unsigned 16-bit value at `off` that carries an implicit divisor.
pub fn divide_u16_by(b: &[u8], off: usize, divisor: u16) -> (r: Scaled)
    requires
        off + 2 <= b@.len(),
        divisor > 0,
    ensures
        r == (Scaled { raw: le_u16(b@, off as int) as i64, divisor }),
{
    Scaled { raw: read_u16_le(b, off) as i64, divisor }
}

/// Reads an unsigned 32-bit value at `off` that carries an implicit divisor.
pub fn divide_u32_by(b: &[u8], off: usize, divisor: u16) -> (r: Scaled)
    requires
        off + 4 <= b@.len(),
        divisor > 0,
    ensures
        r == (Scaled { raw: le_u32(b@, off as int) as i64, divisor }),
{
    Scaled { raw: read_u32_le(b, off) as i64, divisor }
}

/// Copies `b[off..off + len]` into a new vector.
pub fn copy_bytes(b: &[u8], off: usize, len: usize) -> (r: Vec<u8>)
    requires
        off + len <= b@.len(),
    ensures
        r@ == b@.subrange(off as int, off + len),
{
    let n: usize = b.len();
    let end: usize = off + len;
    let mut out: Vec<u8> = Vec::with_capacity(len);
    let mut j: usize = off;
    while j < end
        invariant
            off <= j <= end,
            end == off + len,
            end <= n == b@.len(),
            out@ == b@.subrange(off as int, j as int),
        decreases end - j,
    {
        out.push(b[j]);
        j = j + 1;
        assert(out@ =~= b@.subrange(off as int, j as int));
    }
    out
}

/// Relies on String::from_utf8: it accepts exactly the valid UTF-8 byte
/// sequences and decodes them without loss or replacement.
#[verifier::external_body]
fn utf8_string(bytes: Vec<u8>) -> (r: Option<String>)
    ensures
        r is Some <==> valid_utf8(bytes@),
        r matches Some(s) ==> s@ == decode_utf8(bytes@),
{
    String::from_utf8(bytes).ok()
}

/// The text held in a fixed-length field, when those bytes are valid UTF-8.
/// Padding is kept as it is on the wire.
pub open spec fn text_field(b: Seq<u8>, off: int, len: int) -> Option<Seq<char>> {
    let raw = b.subrange(off, off + len);
    if valid_utf8(raw) {
        Some(decode_utf8(raw))
    } else {
        None
    }
}

/// Reads a fixed-length text field of `len` bytes at `off`; `None` when the
/// bytes are not valid UTF-8.
pub fn parse_string(b: &[u8], off: usize, len: usize) -> (r: Option<String>)
    requires
        off + len <= b@.len(),
    ensures
        r is Some <==> text_field(b@, off as int, len as int) is Some,
        r matches Some(s) ==> s@ == text_field(b@, off as int, len as int)->Some_0,
{
    utf8_string(copy_bytes(b, off, len))
}

/// Reads a six-byte hardware address at `off`.
pub fn read_mac(b: &[u8], off: usize) -> (r: [u8; 6])
    requires
        off + 6 <= b@.len(),
    ensures
        r@ == b@.subrange(off as int, off + 6),
{
    let r: [u8; 6] = [b[off], b[off + 1], b[off + 2], b[off + 3], b[off + 4], b[off + 5]];
    assert(r@ =~= b@.subrange(off as int, off + 6));
    r
}

} // verus!
