//! Unsigned integers as little-endian bytes.
//!
//! Each width is written out byte by byte, so that a value or a byte can be
//! read off without unfolding anything.

use vstd::prelude::*;

verus! {

/// The two bytes of `x`, least significant first.
pub open spec fn u16_bytes(x: u16) -> Seq<u8> {
    seq![(x % 0x100) as u8, (x / 0x100) as u8]
}

/// The four bytes of `x`, least significant first.
pub open spec fn u32_bytes(x: u32) -> Seq<u8> {
    seq![
        (x % 0x100) as u8,
        (x / 0x100 % 0x100) as u8,
        (x / 0x1_0000 % 0x100) as u8,
        (x / 0x100_0000) as u8,
    ]
}

/// The eight bytes of `x`, least significant first.
pub open spec fn u64_bytes(x: u64) -> Seq<u8> {
    seq![
        (x % 0x100) as u8,
        (x / 0x100 % 0x100) as u8,
        (x / 0x1_0000 % 0x100) as u8,
        (x / 0x100_0000 % 0x100) as u8,
        (x / 0x1_0000_0000 % 0x100) as u8,
        (x / 0x100_0000_0000 % 0x100) as u8,
        (x / 0x1_0000_0000_0000 % 0x100) as u8,
        (x / 0x100_0000_0000_0000) as u8,
    ]
}

/// The number in the two bytes of `s` from `at`, least significant first.
pub open spec fn u16_at(s: Seq<u8>, at: int) -> int {
    s[at] + 0x100 * s[at + 1]
}

/// The number in the four bytes of `s` from `at`, least significant first.
pub open spec fn u32_at(s: Seq<u8>, at: int) -> int {
    s[at] + 0x100 * s[at + 1] + 0x1_0000 * s[at + 2] + 0x100_0000 * s[at + 3]
}

/// The number in the eight bytes of `s` from `at`, least significant first.
pub open spec fn u64_at(s: Seq<u8>, at: int) -> int {
    s[at] + 0x100 * s[at + 1] + 0x1_0000 * s[at + 2] + 0x100_0000 * s[at + 3] + 0x1_0000_0000
        * s[at + 4] + 0x100_0000_0000 * s[at + 5] + 0x1_0000_0000_0000 * s[at + 6]
        + 0x100_0000_0000_0000 * s[at + 7]
}

/// A byte in front of a number can be taken off again.
proof fn lemma_byte_in_front(byte: int, rest: int)
    requires
        0 <= byte < 0x100,
    ensures
        (byte + 0x100 * rest) % 0x100 == byte,
        (byte + 0x100 * rest) / 0x100 == rest,
{
}

/// Dividing by 256 `k` times is dividing by 256 to the power `k`.
proof fn lemma_shifts(x: int)
    requires
        0 <= x,
    ensures
        x / 0x1_0000 == x / 0x100 / 0x100,
        x / 0x100_0000 == x / 0x1_0000 / 0x100,
        x / 0x1_0000_0000 == x / 0x100_0000 / 0x100,
        x / 0x100_0000_0000 == x / 0x1_0000_0000 / 0x100,
        x / 0x1_0000_0000_0000 == x / 0x100_0000_0000 / 0x100,
        x / 0x100_0000_0000_0000 == x / 0x1_0000_0000_0000 / 0x100,
{
    vstd::arithmetic::div_mod::lemma_div_denominator(x, 0x100, 0x100);
    vstd::arithmetic::div_mod::lemma_div_denominator(x, 0x1_0000, 0x100);
    vstd::arithmetic::div_mod::lemma_div_denominator(x, 0x100_0000, 0x100);
    vstd::arithmetic::div_mod::lemma_div_denominator(x, 0x1_0000_0000, 0x100);
    vstd::arithmetic::div_mod::lemma_div_denominator(x, 0x100_0000_0000, 0x100);
    vstd::arithmetic::div_mod::lemma_div_denominator(x, 0x1_0000_0000_0000, 0x100);
}

/// Two bytes hold a number that a `u16` holds, and its bytes are those two.
pub proof fn lemma_u16_at(s: Seq<u8>, at: int)
    requires
        0 <= at,
        at + 2 <= s.len(),
    ensures
        0 <= u16_at(s, at) <= u16::MAX,
        u16_bytes(u16_at(s, at) as u16) == s.subrange(at, at + 2),
{
    lemma_byte_in_front(s[at] as int, s[at + 1] as int);
    assert(u16_bytes(u16_at(s, at) as u16) =~= s.subrange(at, at + 2));
}

/// Four bytes hold a number that a `u32` holds, and its bytes are those
/// four.
pub proof fn lemma_u32_at(s: Seq<u8>, at: int)
    requires
        0 <= at,
        at + 4 <= s.len(),
    ensures
        0 <= u32_at(s, at) <= u32::MAX,
        u32_bytes(u32_at(s, at) as u32) == s.subrange(at, at + 4),
{
    let x = u32_at(s, at);
    let r3 = s[at + 3] as int;
    let r2 = s[at + 2] + 0x100 * r3;
    let r1 = s[at + 1] + 0x100 * r2;
    lemma_shifts(x);
    lemma_byte_in_front(s[at] as int, r1);
    lemma_byte_in_front(s[at + 1] as int, r2);
    lemma_byte_in_front(s[at + 2] as int, r3);
    assert(x / 0x100 == r1);
    assert(x / 0x1_0000 == r2);
    assert(x / 0x100_0000 == r3);
    assert(u32_bytes(x as u32) =~= s.subrange(at, at + 4));
}

/// Eight bytes hold a number that a `u64` holds, and its bytes are those
/// eight.
pub proof fn lemma_u64_at(s: Seq<u8>, at: int)
    requires
        0 <= at,
        at + 8 <= s.len(),
    ensures
        0 <= u64_at(s, at) <= u64::MAX,
        u64_bytes(u64_at(s, at) as u64) == s.subrange(at, at + 8),
{
    let x = u64_at(s, at);
    let r7 = s[at + 7] as int;
    let r6 = s[at + 6] + 0x100 * r7;
    let r5 = s[at + 5] + 0x100 * r6;
    let r4 = s[at + 4] + 0x100 * r5;
    let r3 = s[at + 3] + 0x100 * r4;
    let r2 = s[at + 2] + 0x100 * r3;
    let r1 = s[at + 1] + 0x100 * r2;
    lemma_shifts(x);
    lemma_byte_in_front(s[at] as int, r1);
    lemma_byte_in_front(s[at + 1] as int, r2);
    lemma_byte_in_front(s[at + 2] as int, r3);
    lemma_byte_in_front(s[at + 3] as int, r4);
    lemma_byte_in_front(s[at + 4] as int, r5);
    lemma_byte_in_front(s[at + 5] as int, r6);
    lemma_byte_in_front(s[at + 6] as int, r7);
    assert(x == s[at] + 0x100 * r1);
    assert(x / 0x100 == r1);
    assert(x / 0x1_0000 == r2);
    assert(x / 0x100_0000 == r3);
    assert(x / 0x1_0000_0000 == r4);
    assert(x / 0x100_0000_0000 == r5);
    assert(x / 0x1_0000_0000_0000 == r6);
    assert(x / 0x100_0000_0000_0000 == r7);
    assert(u64_bytes(x as u64) =~= s.subrange(at, at + 8));
}

/// The two bytes of a number hold that number.
pub proof fn lemma_u16_bytes(x: u16)
    ensures
        u16_bytes(x).len() == 2,
        u16_at(u16_bytes(x), 0) == x,
{
}

/// The four bytes of a number hold that number.
pub proof fn lemma_u32_bytes(x: u32)
    ensures
        u32_bytes(x).len() == 4,
        u32_at(u32_bytes(x), 0) == x,
{
    let q1 = x / 0x100;
    let q2 = q1 / 0x100;
    let q3 = q2 / 0x100;
    lemma_shifts(x as int);
    assert(x == x % 0x100 + 0x100 * q1);
    assert(q1 == q1 % 0x100 + 0x100 * q2);
    assert(q2 == q2 % 0x100 + 0x100 * q3);
}

/// The eight bytes of a number hold that number.
pub proof fn lemma_u64_bytes(x: u64)
    ensures
        u64_bytes(x).len() == 8,
        u64_at(u64_bytes(x), 0) == x,
{
    let q1 = x / 0x100;
    let q2 = q1 / 0x100;
    let q3 = q2 / 0x100;
    let q4 = q3 / 0x100;
    let q5 = q4 / 0x100;
    let q6 = q5 / 0x100;
    let q7 = q6 / 0x100;
    lemma_shifts(x as int);
    assert(x == x % 0x100 + 0x100 * q1);
    assert(q1 == q1 % 0x100 + 0x100 * q2);
    assert(q2 == q2 % 0x100 + 0x100 * q3);
    assert(q3 == q3 % 0x100 + 0x100 * q4);
    assert(q4 == q4 % 0x100 + 0x100 * q5);
    assert(q5 == q5 % 0x100 + 0x100 * q6);
    assert(q6 == q6 % 0x100 + 0x100 * q7);
}

/// Reads two bytes of `data` from `at` as a number.
pub fn read_u16(data: &[u8], at: usize) -> (x: u16)
    requires
        at + 2 <= data@.len(),
    ensures
        x == u16_at(data@, at as int),
{
    data[at] as u16 + 0x100 * (data[at + 1] as u16)
}

/// Reads four bytes of `data` from `at` as a number.
pub fn read_u32(data: &[u8], at: usize) -> (x: u32)
    requires
        at + 4 <= data@.len(),
    ensures
        x == u32_at(data@, at as int),
{
    data[at] as u32 + 0x100 * (data[at + 1] as u32) + 0x1_0000 * (data[at + 2] as u32)
        + 0x100_0000 * (data[at + 3] as u32)
}

/// Reads eight bytes of `data` from `at` as a number.
pub fn read_u64(data: &[u8], at: usize) -> (x: u64)
    requires
        at + 8 <= data@.len(),
    ensures
        x == u64_at(data@, at as int),
{
    data[at] as u64 + 0x100 * (data[at + 1] as u64) + 0x1_0000 * (data[at + 2] as u64)
        + 0x100_0000 * (data[at + 3] as u64) + 0x1_0000_0000 * (data[at + 4] as u64)
        + 0x100_0000_0000 * (data[at + 5] as u64) + 0x1_0000_0000_0000 * (data[at + 6] as u64)
        + 0x100_0000_0000_0000 * (data[at + 7] as u64)
}

/// Appends the two bytes of `x` to `out`.
pub fn write_u16(out: &mut Vec<u8>, x: u16)
    ensures
        final(out)@ == old(out)@ + u16_bytes(x),
{
    out.push((x % 0x100) as u8);
    out.push((x / 0x100) as u8);
    assert(out@ =~= old(out)@ + u16_bytes(x));
}

/// Appends the four bytes of `x` to `out`.
pub fn write_u32(out: &mut Vec<u8>, x: u32)
    ensures
        final(out)@ == old(out)@ + u32_bytes(x),
{
    out.push((x % 0x100) as u8);
    out.push((x / 0x100 % 0x100) as u8);
    out.push((x / 0x1_0000 % 0x100) as u8);
    out.push((x / 0x100_0000) as u8);
    assert(out@ =~= old(out)@ + u32_bytes(x));
}

/// Appends the eight bytes of `x` to `out`.
pub fn write_u64(out: &mut Vec<u8>, x: u64)
    ensures
        final(out)@ == old(out)@ + u64_bytes(x),
{
    out.push((x % 0x100) as u8);
    out.push((x / 0x100 % 0x100) as u8);
    out.push((x / 0x1_0000 % 0x100) as u8);
    out.push((x / 0x100_0000 % 0x100) as u8);
    out.push((x / 0x1_0000_0000 % 0x100) as u8);
    out.push((x / 0x100_0000_0000 % 0x100) as u8);
    out.push((x / 0x1_0000_0000_0000 % 0x100) as u8);
    out.push((x / 0x100_0000_0000_0000) as u8);
    assert(out@ =~= old(out)@ + u64_bytes(x));
}

} // verus!
