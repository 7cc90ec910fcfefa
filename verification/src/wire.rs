//! Big-endian encoding of fixed-width integers.
//!
//! Every integer field of an outbound message is written at its natural
//! width, most significant byte first. The spec functions give each byte as
//! a base-256 digit of the value; signed values are encoded as their
//! two's-complement unsigned reinterpretation.

use vstd::prelude::*;

verus! {

/// The two big-endian bytes of a 16-bit value.
pub open spec fn spec_u16_be(x: u16) -> Seq<u8> {
    seq![(x / 0x100 % 0x100) as u8, (x % 0x100) as u8]
}

/// The four big-endian bytes of a 32-bit value.
pub open spec fn spec_u32_be(x: u32) -> Seq<u8> {
    seq![
        (x / 0x1000000 % 0x100) as u8,
        (x / 0x10000 % 0x100) as u8,
        (x / 0x100 % 0x100) as u8,
        (x % 0x100) as u8,
    ]
}

/// The eight big-endian bytes of a 64-bit value.
pub open spec fn spec_u64_be(x: u64) -> Seq<u8> {
    seq![
        (x / 0x100000000000000 % 0x100) as u8,
        (x / 0x1000000000000 % 0x100) as u8,
        (x / 0x10000000000 % 0x100) as u8,
        (x / 0x100000000 % 0x100) as u8,
        (x / 0x1000000 % 0x100) as u8,
        (x / 0x10000 % 0x100) as u8,
        (x / 0x100 % 0x100) as u8,
        (x % 0x100) as u8,
    ]
}

/// The sixteen big-endian bytes of a 128-bit value.
pub open spec fn spec_u128_be(x: u128) -> Seq<u8> {
    seq![
        (x / 0x1000000000000000000000000000000u128 % 0x100) as u8,
        (x / 0x10000000000000000000000000000u128 % 0x100) as u8,
        (x / 0x100000000000000000000000000u128 % 0x100) as u8,
        (x / 0x1000000000000000000000000u128 % 0x100) as u8,
        (x / 0x10000000000000000000000u128 % 0x100) as u8,
        (x / 0x100000000000000000000u128 % 0x100) as u8,
        (x / 0x1000000000000000000u128 % 0x100) as u8,
        (x / 0x10000000000000000u128 % 0x100) as u8,
        (x / 0x100000000000000u128 % 0x100) as u8,
        (x / 0x1000000000000u128 % 0x100) as u8,
        (x / 0x10000000000u128 % 0x100) as u8,
        (x / 0x100000000u128 % 0x100) as u8,
        (x / 0x1000000u128 % 0x100) as u8,
        (x / 0x10000u128 % 0x100) as u8,
        (x / 0x100u128 % 0x100) as u8,
        (x % 0x100) as u8,
    ]
}

/// The four big-endian bytes of a signed 32-bit value, encoded as its
/// two's-complement unsigned reinterpretation.
pub open spec fn spec_i32_be(x: i32) -> Seq<u8> {
    spec_u32_be(x as u32)
}

/// The eight big-endian bytes of a signed 64-bit value, encoded as its
/// two's-complement unsigned reinterpretation.
pub open spec fn spec_i64_be(x: i64) -> Seq<u8> {
    spec_u64_be(x as u64)
}

/// The sixteen big-endian bytes of a signed 128-bit value, encoded as its
/// two's-complement unsigned reinterpretation.
pub open spec fn spec_i128_be(x: i128) -> Seq<u8> {
    spec_u128_be(x as u128)
}

/// Appends the two big-endian bytes of a 16-bit value.
pub fn push_u16_be(out: &mut Vec<u8>, x: u16)
    ensures
        final(out)@ == old(out)@ + spec_u16_be(x),
{
    out.push((x / 0x100 % 0x100) as u8);
    out.push((x % 0x100) as u8);
    assert(out@ =~= old(out)@ + spec_u16_be(x));
}

/// Appends the four big-endian bytes of a 32-bit value.
pub fn push_u32_be(out: &mut Vec<u8>, x: u32)
    ensures
        final(out)@ == old(out)@ + spec_u32_be(x),
{
    out.push((x / 0x1000000 % 0x100) as u8);
    out.push((x / 0x10000 % 0x100) as u8);
    out.push((x / 0x100 % 0x100) as u8);
    out.push((x % 0x100) as u8);
    assert(out@ =~= old(out)@ + spec_u32_be(x));
}

/// Appends the eight big-endian bytes of a 64-bit value.
pub fn push_u64_be(out: &mut Vec<u8>, x: u64)
    ensures
        final(out)@ == old(out)@ + spec_u64_be(x),
{
    out.push((x / 0x100000000000000 % 0x100) as u8);
    out.push((x / 0x1000000000000 % 0x100) as u8);
    out.push((x / 0x10000000000 % 0x100) as u8);
    out.push((x / 0x100000000 % 0x100) as u8);
    out.push((x / 0x1000000 % 0x100) as u8);
    out.push((x / 0x10000 % 0x100) as u8);
    out.push((x / 0x100 % 0x100) as u8);
    out.push((x % 0x100) as u8);
    assert(out@ =~= old(out)@ + spec_u64_be(x));
}

/// Appends the sixteen big-endian bytes of a 128-bit value.
pub fn push_u128_be(out: &mut Vec<u8>, x: u128)
    ensures
        final(out)@ == old(out)@ + spec_u128_be(x),
{
    out.push((x / 0x1000000000000000000000000000000u128 % 0x100) as u8);
    out.push((x / 0x10000000000000000000000000000u128 % 0x100) as u8);
    out.push((x / 0x100000000000000000000000000u128 % 0x100) as u8);
    out.push((x / 0x1000000000000000000000000u128 % 0x100) as u8);
    out.push((x / 0x10000000000000000000000u128 % 0x100) as u8);
    out.push((x / 0x100000000000000000000u128 % 0x100) as u8);
    out.push((x / 0x1000000000000000000u128 % 0x100) as u8);
    out.push((x / 0x10000000000000000u128 % 0x100) as u8);
    out.push((x / 0x100000000000000u128 % 0x100) as u8);
    out.push((x / 0x1000000000000u128 % 0x100) as u8);
    out.push((x / 0x10000000000u128 % 0x100) as u8);
    out.push((x / 0x100000000u128 % 0x100) as u8);
    out.push((x / 0x1000000u128 % 0x100) as u8);
    out.push((x / 0x10000u128 % 0x100) as u8);
    out.push((x / 0x100u128 % 0x100) as u8);
    out.push((x % 0x100) as u8);
    assert(out@ =~= old(out)@ + spec_u128_be(x));
}

/// Appends the four big-endian bytes of a signed 32-bit value.
pub fn push_i32_be(out: &mut Vec<u8>, x: i32)
    ensures
        final(out)@ == old(out)@ + spec_i32_be(x),
{
    push_u32_be(out, #[verifier::truncate] (x as u32));
}

/// Appends the eight big-endian bytes of a signed 64-bit value.
pub fn push_i64_be(out: &mut Vec<u8>, x: i64)
    ensures
        final(out)@ == old(out)@ + spec_i64_be(x),
{
    push_u64_be(out, #[verifier::truncate] (x as u64));
}

/// Appends the sixteen big-endian bytes of a signed 128-bit value.
pub fn push_i128_be(out: &mut Vec<u8>, x: i128)
    ensures
        final(out)@ == old(out)@ + spec_i128_be(x),
{
    push_u128_be(out, #[verifier::truncate] (x as u128));
}

/// Appends all 32 bytes of a fixed-size byte array.
pub fn push_bytes32(out: &mut Vec<u8>, bytes: &[u8; 32])
    ensures
        final(out)@ == old(out)@ + bytes@,
{
    for i in 0..32
        invariant
            out@ == old(out)@ + bytes@.take(i as int),
    {
        assert(bytes@.take(i as int).push(bytes@[i as int]) =~= bytes@.take(i + 1));
        out.push(bytes[i]);
    }
    assert(out@ =~= old(out)@ + bytes@);
}

} // verus!
