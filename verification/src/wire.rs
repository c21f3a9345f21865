//! Byte buffers of the `bytes` crate, as the codecs use them.
//!
//! `Bytes` is read from the front (the `Buf` side); `BytesMut` is appended
//! to (the `BufMut` side) and, in the frame readers, consumed from the
//! front as well. Verus sees the contents of a buffer through the names
//! [`bytes_seq`] and [`bytes_mut_seq`]; every method that the library
//! calls has a wrapper below whose contract says what it does to them.
use bytes::{Buf, BufMut, Bytes, BytesMut};
use vstd::prelude::*;

verus! {

#[verifier::external_type_specification]
#[verifier::external_body]
pub struct ExBytes(bytes::Bytes);

#[verifier::external_type_specification]
#[verifier::external_body]
pub struct ExBytesMut(bytes::BytesMut);

/// The bytes that a `Bytes` value still holds, front first.
pub uninterp spec fn bytes_seq(b: Bytes) -> Seq<u8>;

/// The bytes that a `BytesMut` value holds, front first.
pub uninterp spec fn bytes_mut_seq(b: BytesMut) -> Seq<u8>;

/// Largest length a `BytesMut` can reach (its `remaining_mut` is this minus its length).
pub open spec fn bytes_mut_max_len() -> int {
    isize::MAX as int
}

// ---------------------------------------------------------------------------
// Little-endian integers as byte sequences
// ---------------------------------------------------------------------------
/// Two little-endian bytes as an unsigned value.
pub open spec fn le_u16(b0: u8, b1: u8) -> int {
    b0 as int + 256 * b1 as int
}

/// Four little-endian bytes as an unsigned value.
pub open spec fn le_u32(b0: u8, b1: u8, b2: u8, b3: u8) -> int {
    b0 as int + 256 * b1 as int + 65536 * b2 as int + 16777216 * b3 as int
}

/// The two's complement reading of a 16-bit pattern.
pub open spec fn signed16(u: int) -> int {
    if u < 32768 {
        u
    } else {
        u - 65536
    }
}

/// The two's complement reading of a 32-bit pattern.
pub open spec fn signed32(u: int) -> int {
    if u < 0x8000_0000 {
        u
    } else {
        u - 0x1_0000_0000
    }
}

/// The 16-bit pattern of a signed value.
pub open spec fn unsigned16(v: int) -> int {
    if v < 0 {
        v + 65536
    } else {
        v
    }
}

/// The 32-bit pattern of a signed value.
pub open spec fn unsigned32(v: int) -> int {
    if v < 0 {
        v + 0x1_0000_0000
    } else {
        v
    }
}

/// Little-endian encoding of a value below 2^16.
pub open spec fn u16_le_seq(u: int) -> Seq<u8> {
    seq![(u % 256) as u8, (u / 256) as u8]
}

/// Little-endian encoding of a value below 2^32.
pub open spec fn u32_le_seq(u: int) -> Seq<u8> {
    seq![
        (u % 256) as u8,
        ((u / 256) % 256) as u8,
        ((u / 65536) % 256) as u8,
        (u / 16777216) as u8,
    ]
}

pub proof fn lemma_u16_le_roundtrip(u: int)
    requires
        0 <= u < 65536,
    ensures
        u16_le_seq(u).len() == 2,
        le_u16(u16_le_seq(u)[0], u16_le_seq(u)[1]) == u,
{
}

pub proof fn lemma_u32_le_roundtrip(u: int)
    requires
        0 <= u < 0x1_0000_0000,
    ensures
        u32_le_seq(u).len() == 4,
        le_u32(u32_le_seq(u)[0], u32_le_seq(u)[1], u32_le_seq(u)[2], u32_le_seq(u)[3]) == u,
{
    let s = u32_le_seq(u);
    assert(s[3] as int == u / 16777216);
    assert(s[2] as int == (u / 65536) % 256);
    assert(s[1] as int == (u / 256) % 256);
    assert(s[0] as int == u % 256);
    assert(u == (u % 256) + 256 * ((u / 256) % 256) + 65536 * ((u / 65536) % 256) + 16777216 * (u
        / 16777216)) by (nonlinear_arith)
        requires
            0 <= u < 0x1_0000_0000,
    ;
}

pub proof fn lemma_signed16_roundtrip(v: int)
    requires
        -32768 <= v < 32768,
    ensures
        0 <= unsigned16(v) < 65536,
        signed16(unsigned16(v)) == v,
{
}

pub proof fn lemma_signed32_roundtrip(v: int)
    requires
        -0x8000_0000 <= v < 0x8000_0000,
    ensures
        0 <= unsigned32(v) < 0x1_0000_0000,
        signed32(unsigned32(v)) == v,
{
}

/// The bits of a byte, read with masks, as arithmetic on its value: bit `k`
/// is set when `b / 2^k` is odd, and the low `k` bits are `b % 2^k`.
pub proof fn lemma_byte_bits(b: u8)
    by (bit_vector)
    ensures
        (b & 0x80 != 0) == (b >= 128),
        (b & 0x40 != 0) == ((b / 64) % 2 == 1),
        (b & 0x20 != 0) == ((b / 32) % 2 == 1),
        (b & 0x10 != 0) == ((b / 16) % 2 == 1),
        (b & 0x08 != 0) == ((b / 8) % 2 == 1),
        (b & 0x04 != 0) == ((b / 4) % 2 == 1),
        (b & 0x02 != 0) == ((b / 2) % 2 == 1),
        (b & 0x01 != 0) == (b % 2 == 1),
        b & 0x03 == b % 4,
        b & 0x0F == b % 16,
        b & 0x1F == b % 32,
        b & 0x3F == b % 64,
        b & 0x7F == b % 128,
        (b & 0xE0) >> 5 == b / 32,
        (b >> 2) & 0x1F == (b / 4) % 32,
        (b & 0xF1) as int == 16 * (b / 16) + b % 2,
{
}

/// An upper nibble kept from `q` with a value below 4 put under it, as a number.
pub proof fn lemma_packed_nibble(q: u8, low: u8)
    by (bit_vector)
    requires
        low < 4,
    ensures
        ((q & 0xF0) | low) as int == 16 * (q / 16) + low,
        ((q & 0xF0) & 0xF1) as int == 16 * (q / 16),
{
}

/// Bit 0, five bits from bit 2 and bit 7, as a number.
pub proof fn lemma_packed_bit_field_bit(s: u8, q: u8, e: u8)
    by (bit_vector)
    requires
        s <= 1,
        e <= 1,
    ensures
        (s | ((q & 0x1F) << 2) | (e << 7)) as int == s + 4 * (q % 32) + 128 * e,
{
}

/// Seven low bits and a flag in bit 7, as a number.
pub proof fn lemma_packed_seven_and_flag(c: u8, l: u8)
    by (bit_vector)
    requires
        l <= 1,
    ensures
        ((c & 0x7F) | (l << 7)) as int == c % 128 + 128 * l,
        ((if l == 1 { 0x80u8 } else { 0u8 }) | (c & 0x7F)) as int == c % 128 + 128 * l,
{
}

/// Six low bits and flags in bits 6 and 7, as a number.
pub proof fn lemma_packed_six_and_flags(c: u8, f6: bool, f7: bool)
    by (bit_vector)
    ensures
        ((c & 0x3F) | (if f6 { 0x40u8 } else { 0u8 }) | (if f7 { 0x80u8 } else { 0u8 })) as int == c % 64 + (if f6 {
            64int
        } else {
            0
        }) + (if f7 {
            128int
        } else {
            0
        }),
{
}

// ---------------------------------------------------------------------------
// Reading from `Bytes`
// ---------------------------------------------------------------------------
/// `Bytes::len`: the number of bytes left to read.
#[verifier::external_body]
pub(crate) fn bytes_len(b: &Bytes) -> (n: usize)
    ensures
        n == bytes_seq(*b).len(),
{
    b.len()
}

/// `Clone for Bytes`: a handle to the same bytes.
pub assume_specification[ <Bytes as Clone>::clone ](b: &Bytes) -> (r: Bytes)
    ensures
        bytes_seq(r) == bytes_seq(*b),
;

/// `Bytes::from(Vec<u8>)`: a buffer holding exactly the vector's bytes.
#[verifier::external_body]
pub(crate) fn bytes_from_vec(v: Vec<u8>) -> (b: Bytes)
    ensures
        bytes_seq(b) == v@,
{
    Bytes::from(v)
}

/// `Buf::get_u8` on `Bytes`: returns the first byte and drops it from the front.
/// It panics on an empty buffer, which `requires` leaves out.
#[verifier::external_body]
pub(crate) fn get_u8(b: &mut Bytes) -> (v: u8)
    requires
        bytes_seq(*old(b)).len() >= 1,
    ensures
        v == bytes_seq(*old(b))[0],
        bytes_seq(*final(b)) == bytes_seq(*old(b)).subrange(1, bytes_seq(*old(b)).len() as int),
{
    b.get_u8()
}

/// `Buf::get_u16_le` on `Bytes`: reads two bytes as a little-endian `u16` and drops them.
#[verifier::external_body]
pub(crate) fn get_u16_le(b: &mut Bytes) -> (v: u16)
    requires
        bytes_seq(*old(b)).len() >= 2,
    ensures
        v as int == le_u16(bytes_seq(*old(b))[0], bytes_seq(*old(b))[1]),
        bytes_seq(*final(b)) == bytes_seq(*old(b)).subrange(2, bytes_seq(*old(b)).len() as int),
{
    b.get_u16_le()
}

/// `Buf::get_i16_le` on `Bytes`: reads two bytes as a little-endian `i16` and drops them.
#[verifier::external_body]
pub(crate) fn get_i16_le(b: &mut Bytes) -> (v: i16)
    requires
        bytes_seq(*old(b)).len() >= 2,
    ensures
        v as int == signed16(le_u16(bytes_seq(*old(b))[0], bytes_seq(*old(b))[1])),
        bytes_seq(*final(b)) == bytes_seq(*old(b)).subrange(2, bytes_seq(*old(b)).len() as int),
{
    b.get_i16_le()
}

/// `Buf::get_u32_le` on `Bytes`: reads four bytes as a little-endian `u32` and drops them.
#[verifier::external_body]
pub(crate) fn get_u32_le(b: &mut Bytes) -> (v: u32)
    requires
        bytes_seq(*old(b)).len() >= 4,
    ensures
        v as int == le_u32(
            bytes_seq(*old(b))[0],
            bytes_seq(*old(b))[1],
            bytes_seq(*old(b))[2],
            bytes_seq(*old(b))[3],
        ),
        bytes_seq(*final(b)) == bytes_seq(*old(b)).subrange(4, bytes_seq(*old(b)).len() as int),
{
    b.get_u32_le()
}

/// `Buf::get_i32_le` on `Bytes`: reads four bytes as a little-endian `i32` and drops them.
#[verifier::external_body]
pub(crate) fn get_i32_le(b: &mut Bytes) -> (v: i32)
    requires
        bytes_seq(*old(b)).len() >= 4,
    ensures
        v as int == signed32(
            le_u32(
                bytes_seq(*old(b))[0],
                bytes_seq(*old(b))[1],
                bytes_seq(*old(b))[2],
                bytes_seq(*old(b))[3],
            ),
        ),
        bytes_seq(*final(b)) == bytes_seq(*old(b)).subrange(4, bytes_seq(*old(b)).len() as int),
{
    b.get_i32_le()
}

/// `Buf::copy_to_slice` on `Bytes`: copies the first `n` bytes out (into a
/// vector of that length) and drops them from the front.
#[verifier::external_body]
pub(crate) fn copy_to_vec(b: &mut Bytes, n: usize) -> (v: Vec<u8>)
    requires
        bytes_seq(*old(b)).len() >= n,
    ensures
        v@ == bytes_seq(*old(b)).subrange(0, n as int),
        bytes_seq(*final(b)) == bytes_seq(*old(b)).subrange(n as int, bytes_seq(*old(b)).len() as int),
{
    let mut v = vec![0u8; n];
    b.copy_to_slice(&mut v);
    v
}

// ---------------------------------------------------------------------------
// Writing to `BytesMut`
// ---------------------------------------------------------------------------
/// `BytesMut::with_capacity`: an empty buffer (the capacity is not observable here).
#[verifier::external_body]
pub(crate) fn bytes_mut_with_capacity(cap: usize) -> (b: BytesMut)
    ensures
        bytes_mut_seq(b) == Seq::<u8>::empty(),
{
    BytesMut::with_capacity(cap)
}

/// `BytesMut::len`.
#[verifier::external_body]
pub(crate) fn bytes_mut_len(b: &BytesMut) -> (n: usize)
    ensures
        n == bytes_mut_seq(*b).len(),
{
    b.len()
}

/// `BufMut::remaining_mut` on `BytesMut`: `isize::MAX` minus the length (a
/// `BytesMut`, like a `Vec`, never holds more than `isize::MAX` bytes).
#[verifier::external_body]
pub(crate) fn remaining_mut(b: &BytesMut) -> (n: usize)
    ensures
        n + bytes_mut_seq(*b).len() == bytes_mut_max_len(),
{
    b.remaining_mut()
}

/// `BufMut::put_u8` on `BytesMut`: appends one byte.
#[verifier::external_body]
pub(crate) fn put_u8(b: &mut BytesMut, v: u8)
    requires
        bytes_mut_seq(*old(b)).len() + 1 <= bytes_mut_max_len(),
    ensures
        bytes_mut_seq(*final(b)) == bytes_mut_seq(*old(b)).push(v),
{
    b.put_u8(v)
}

/// `BufMut::put_u16_le` on `BytesMut`: appends the two little-endian bytes of `v`.
#[verifier::external_body]
pub(crate) fn put_u16_le(b: &mut BytesMut, v: u16)
    requires
        bytes_mut_seq(*old(b)).len() + 2 <= bytes_mut_max_len(),
    ensures
        bytes_mut_seq(*final(b)) == bytes_mut_seq(*old(b)) + u16_le_seq(v as int),
{
    b.put_u16_le(v)
}

/// `BufMut::put_i16_le` on `BytesMut`: appends the two little-endian bytes of `v`.
#[verifier::external_body]
pub(crate) fn put_i16_le(b: &mut BytesMut, v: i16)
    requires
        bytes_mut_seq(*old(b)).len() + 2 <= bytes_mut_max_len(),
    ensures
        bytes_mut_seq(*final(b)) == bytes_mut_seq(*old(b)) + u16_le_seq(unsigned16(v as int)),
{
    b.put_i16_le(v)
}

/// `BufMut::put_u32_le` on `BytesMut`: appends the four little-endian bytes of `v`.
#[verifier::external_body]
pub(crate) fn put_u32_le(b: &mut BytesMut, v: u32)
    requires
        bytes_mut_seq(*old(b)).len() + 4 <= bytes_mut_max_len(),
    ensures
        bytes_mut_seq(*final(b)) == bytes_mut_seq(*old(b)) + u32_le_seq(v as int),
{
    b.put_u32_le(v)
}

/// `BufMut::put_i32_le` on `BytesMut`: appends the four little-endian bytes of `v`.
#[verifier::external_body]
pub(crate) fn put_i32_le(b: &mut BytesMut, v: i32)
    requires
        bytes_mut_seq(*old(b)).len() + 4 <= bytes_mut_max_len(),
    ensures
        bytes_mut_seq(*final(b)) == bytes_mut_seq(*old(b)) + u32_le_seq(unsigned32(v as int)),
{
    b.put_i32_le(v)
}

/// `BytesMut::extend_from_slice`: appends the slice.
#[verifier::external_body]
pub(crate) fn extend_from_slice(b: &mut BytesMut, s: &[u8])
    requires
        bytes_mut_seq(*old(b)).len() + s@.len() <= bytes_mut_max_len(),
    ensures
        bytes_mut_seq(*final(b)) == bytes_mut_seq(*old(b)) + s@,
{
    b.extend_from_slice(s)
}

/// Indexing a `BytesMut` (through its `Deref` to `[u8]`).
#[verifier::external_body]
pub(crate) fn bytes_mut_at(b: &BytesMut, i: usize) -> (v: u8)
    requires
        i < bytes_mut_seq(*b).len(),
    ensures
        v == bytes_mut_seq(*b)[i as int],
{
    b[i]
}

/// `Buf::advance` on `BytesMut`: drops `n` bytes from the front.
#[verifier::external_body]
pub(crate) fn bytes_mut_advance(b: &mut BytesMut, n: usize)
    requires
        n <= bytes_mut_seq(*old(b)).len(),
    ensures
        bytes_mut_seq(*final(b)) == bytes_mut_seq(*old(b)).subrange(
            n as int,
            bytes_mut_seq(*old(b)).len() as int,
        ),
{
    b.advance(n)
}

/// `BytesMut::split_to`: takes the first `n` bytes out into a buffer of their own.
#[verifier::external_body]
pub(crate) fn bytes_mut_split_to(b: &mut BytesMut, n: usize) -> (front: BytesMut)
    requires
        n <= bytes_mut_seq(*old(b)).len(),
    ensures
        bytes_mut_seq(front) == bytes_mut_seq(*old(b)).subrange(0, n as int),
        bytes_mut_seq(*final(b)) == bytes_mut_seq(*old(b)).subrange(
            n as int,
            bytes_mut_seq(*old(b)).len() as int,
        ),
{
    b.split_to(n)
}

/// `BytesMut::freeze`: the same bytes as an immutable `Bytes`.
#[verifier::external_body]
pub(crate) fn freeze(b: BytesMut) -> (r: Bytes)
    ensures
        bytes_seq(r) == bytes_mut_seq(b),
{
    b.freeze()
}

/// `Bytes` dereferenced to a slice, copied into a vector.
#[verifier::external_body]
pub(crate) fn bytes_to_vec(b: &Bytes) -> (v: Vec<u8>)
    ensures
        v@ == bytes_seq(*b),
{
    b.to_vec()
}

} // verus!
