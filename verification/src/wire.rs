//! Integers on the wire: the byte sequences that stand for fixed-width
//! integers in the byte order of the running machine, and the four-byte
//! alignment that every attribute record is padded to.

use byteorder::{ByteOrder, NativeEndian};
use vstd::endian::{endianness, Endian};
use vstd::prelude::*;

verus! {

/// Every attribute record starts on a multiple of this many bytes.
pub const ALIGNTO: usize = 4;

/// Bytes of an attribute header: a 16-bit length, then a 16-bit kind.
pub const HEADER_SIZE: usize = 4;

/// The two bytes of `x`, the low one first.
pub open spec fn u16_le(x: u16) -> Seq<u8> {
    seq![(x % 0x100) as u8, (x / 0x100 % 0x100) as u8]
}

/// The integer that two bytes stand for, the low one first.
pub open spec fn u16_from_le(s: Seq<u8>) -> u16 {
    (s[0] + 0x100 * s[1]) as u16
}

/// The four bytes of `x`, the lowest first.
pub open spec fn u32_le(x: u32) -> Seq<u8> {
    seq![
        (x % 0x100) as u8,
        (x / 0x100 % 0x100) as u8,
        (x / 0x1_0000 % 0x100) as u8,
        (x / 0x100_0000 % 0x100) as u8,
    ]
}

/// The integer that four bytes stand for, the lowest first.
pub open spec fn u32_from_le(s: Seq<u8>) -> u32 {
    (s[0] + 0x100 * s[1] + 0x1_0000 * s[2] + 0x100_0000 * s[3]) as u32
}

/// The eight bytes of `x`, the lowest first.
pub open spec fn u64_le(x: u64) -> Seq<u8> {
    seq![
        (x % 0x100) as u8,
        (x / 0x100 % 0x100) as u8,
        (x / 0x1_0000 % 0x100) as u8,
        (x / 0x100_0000 % 0x100) as u8,
        (x / 0x1_0000_0000 % 0x100) as u8,
        (x / 0x100_0000_0000 % 0x100) as u8,
        (x / 0x1_0000_0000_0000 % 0x100) as u8,
        (x / 0x100_0000_0000_0000 % 0x100) as u8,
    ]
}

/// The integer that eight bytes stand for, the lowest first.
pub open spec fn u64_from_le(s: Seq<u8>) -> u64 {
    (s[0] + 0x100 * s[1] + 0x1_0000 * s[2] + 0x100_0000 * s[3] + 0x1_0000_0000 * s[4]
        + 0x100_0000_0000 * s[5] + 0x1_0000_0000_0000 * s[6] + 0x100_0000_0000_0000 * s[7]) as u64
}

/// The unsigned integer with the same 64 bits as `x` in two's complement.
pub open spec fn unsigned(x: i64) -> u64 {
    if x >= 0 {
        x as u64
    } else {
        (x + 0x1_0000_0000_0000_0000) as u64
    }
}

/// The signed integer with the same 64 bits as `x` in two's complement.
pub open spec fn signed(x: u64) -> i64 {
    if x < 0x8000_0000_0000_0000 {
        x as i64
    } else {
        (x - 0x1_0000_0000_0000_0000) as i64
    }
}

/// The two bytes of `x` in the machine's byte order.
pub open spec fn u16_bytes(x: u16) -> Seq<u8> {
    match endianness() {
        Endian::Little => u16_le(x),
        Endian::Big => u16_le(x).reverse(),
    }
}

/// The integer that two bytes stand for in the machine's byte order.
pub open spec fn u16_of_bytes(s: Seq<u8>) -> u16 {
    match endianness() {
        Endian::Little => u16_from_le(s),
        Endian::Big => u16_from_le(s.reverse()),
    }
}

/// The four bytes of `x` in the machine's byte order.
pub open spec fn u32_bytes(x: u32) -> Seq<u8> {
    match endianness() {
        Endian::Little => u32_le(x),
        Endian::Big => u32_le(x).reverse(),
    }
}

/// The integer that four bytes stand for in the machine's byte order.
pub open spec fn u32_of_bytes(s: Seq<u8>) -> u32 {
    match endianness() {
        Endian::Little => u32_from_le(s),
        Endian::Big => u32_from_le(s.reverse()),
    }
}

/// The eight bytes of `x` in the machine's byte order.
pub open spec fn u64_bytes(x: u64) -> Seq<u8> {
    match endianness() {
        Endian::Little => u64_le(x),
        Endian::Big => u64_le(x).reverse(),
    }
}

/// The integer that eight bytes stand for in the machine's byte order.
pub open spec fn u64_of_bytes(s: Seq<u8>) -> u64 {
    match endianness() {
        Endian::Little => u64_from_le(s),
        Endian::Big => u64_from_le(s.reverse()),
    }
}

/// The eight bytes of the two's complement form of `x`.
pub open spec fn i64_bytes(x: i64) -> Seq<u8> {
    u64_bytes(unsigned(x))
}

/// The signed integer whose two's complement form the eight bytes hold.
pub open spec fn i64_of_bytes(s: Seq<u8>) -> i64 {
    signed(u64_of_bytes(s))
}

/// `n` rounded up to the next multiple of four.
pub open spec fn align4(n: int) -> int {
    ((n + 3) / 4) * 4
}

/// The number of padding bytes that follow a value of `n` bytes.
pub open spec fn padding(n: int) -> int {
    align4(n) - n
}

/// A sequence of `n` zero bytes.
pub open spec fn zeros(n: int) -> Seq<u8> {
    Seq::new(n as nat, |i: int| 0u8)
}

proof fn lemma_reverse_twice(s: Seq<u8>)
    ensures
        s.reverse().reverse() == s,
        s.reverse().len() == s.len(),
{
    assert(s.reverse().reverse() =~= s);
}

proof fn lemma_u16_le(x: u16)
    ensures
        u16_le(x).len() == 2,
        u16_from_le(u16_le(x)) == x,
{
}

proof fn lemma_u16_from_le(s: Seq<u8>)
    requires
        s.len() == 2,
    ensures
        u16_le(u16_from_le(s)) == s,
{
    assert(u16_le(u16_from_le(s)) =~= s);
}

proof fn lemma_u32_le(x: u32)
    ensures
        u32_le(x).len() == 4,
        u32_from_le(u32_le(x)) == x,
{
}

proof fn lemma_u64_le(x: u64)
    ensures
        u64_le(x).len() == 8,
        u64_from_le(u64_le(x)) == x,
{
    let q0 = x as int;
    let q1 = q0 / 0x100;
    let q2 = q1 / 0x100;
    let q3 = q2 / 0x100;
    let q4 = q3 / 0x100;
    let q5 = q4 / 0x100;
    let q6 = q5 / 0x100;
    let q7 = q6 / 0x100;
    assert(q2 == x / 0x1_0000);
    assert(q3 == x / 0x100_0000);
    assert(q4 == x / 0x1_0000_0000);
    assert(q5 == x / 0x100_0000_0000);
    assert(q6 == x / 0x1_0000_0000_0000);
    assert(q7 == x / 0x100_0000_0000_0000);
    assert(q7 < 0x100);
    let s = u64_le(x);
    assert(s[0] == q0 % 0x100 && s[1] == q1 % 0x100 && s[2] == q2 % 0x100 && s[3] == q3 % 0x100);
    assert(s[4] == q4 % 0x100 && s[5] == q5 % 0x100 && s[6] == q6 % 0x100 && s[7] == q7);
    assert(q6 == s[6] + 0x100 * s[7]);
    assert(q5 == s[5] + 0x100 * q6);
    assert(q4 == s[4] + 0x100 * q5);
    assert(q3 == s[3] + 0x100 * q4);
    assert(q2 == s[2] + 0x100 * q3);
    assert(q1 == s[1] + 0x100 * q2);
    assert(q0 == s[0] + 0x100 * q1);
}

/// Two bytes and a 16-bit integer determine each other.
pub proof fn lemma_u16_bytes(x: u16)
    ensures
        u16_bytes(x).len() == 2,
        u16_of_bytes(u16_bytes(x)) == x,
{
    lemma_u16_le(x);
    lemma_reverse_twice(u16_le(x));
}

/// Any two bytes are the encoding of the integer they decode to.
pub proof fn lemma_u16_of_bytes(s: Seq<u8>)
    requires
        s.len() == 2,
    ensures
        u16_bytes(u16_of_bytes(s)) == s,
{
    lemma_u16_from_le(s);
    lemma_u16_from_le(s.reverse());
    lemma_reverse_twice(s);
}

/// Four bytes and a 32-bit integer determine each other.
pub proof fn lemma_u32_bytes(x: u32)
    ensures
        u32_bytes(x).len() == 4,
        u32_of_bytes(u32_bytes(x)) == x,
{
    lemma_u32_le(x);
    lemma_reverse_twice(u32_le(x));
}

/// Eight bytes and a signed 64-bit integer determine each other.
pub proof fn lemma_i64_bytes(x: i64)
    ensures
        i64_bytes(x).len() == 8,
        i64_of_bytes(i64_bytes(x)) == x,
{
    lemma_u64_le(unsigned(x));
    lemma_reverse_twice(u64_le(unsigned(x)));
}

/// Rounds `n` up to the next multiple of four.
pub fn align(n: usize) -> (r: usize)
    requires
        n + 3 <= usize::MAX,
    ensures
        r == align4(n as int),
{
    let rem: usize = n % ALIGNTO;
    if rem == 0 {
        n
    } else {
        n + (ALIGNTO - rem)
    }
}

/// `byteorder::NativeEndian::write_u16`: stores `n` in the first two bytes of
/// `buf`, in the machine's byte order, and leaves the rest as it was. The
/// outside function panics on a shorter buffer.
#[verifier::external_body]
pub(crate) fn write_u16(buf: &mut [u8], n: u16)
    requires
        old(buf)@.len() >= 2,
    ensures
        final(buf)@ == u16_bytes(n) + old(buf)@.skip(2),
{
    NativeEndian::write_u16(buf, n)
}

/// `byteorder::NativeEndian::read_u16`: the integer held by the first two
/// bytes of `buf` in the machine's byte order. The outside function panics on
/// a shorter buffer.
#[verifier::external_body]
pub(crate) fn read_u16(buf: &[u8]) -> (n: u16)
    requires
        buf@.len() >= 2,
    ensures
        n == u16_of_bytes(buf@.subrange(0, 2)),
{
    NativeEndian::read_u16(buf)
}

/// `byteorder::NativeEndian::write_u32`: stores `n` in the first four bytes
/// of `buf`, in the machine's byte order, and leaves the rest as it was. The
/// outside function panics on a shorter buffer.
#[verifier::external_body]
pub(crate) fn write_u32(buf: &mut [u8], n: u32)
    requires
        old(buf)@.len() >= 4,
    ensures
        final(buf)@ == u32_bytes(n) + old(buf)@.skip(4),
{
    NativeEndian::write_u32(buf, n)
}

/// `byteorder::NativeEndian::write_i64`: stores the two's complement form of
/// `n` in the first eight bytes of `buf`, in the machine's byte order, and
/// leaves the rest as it was. The outside function panics on a shorter
/// buffer.
#[verifier::external_body]
pub(crate) fn write_i64(buf: &mut [u8], n: i64)
    requires
        old(buf)@.len() >= 8,
    ensures
        final(buf)@ == i64_bytes(n) + old(buf)@.skip(8),
{
    NativeEndian::write_i64(buf, n)
}

/// `byteorder::NativeEndian::read_i64`: the signed integer whose two's
/// complement form the first eight bytes of `buf` hold in the machine's byte
/// order. The outside function panics on a shorter buffer.
#[verifier::external_body]
pub(crate) fn read_i64(buf: &[u8]) -> (n: i64)
    requires
        buf@.len() >= 8,
    ensures
        n == i64_of_bytes(buf@.subrange(0, 8)),
{
    NativeEndian::read_i64(buf)
}

} // verus!
