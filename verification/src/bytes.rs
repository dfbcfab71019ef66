//! Little-endian encoding of 64-bit amounts.

use vstd::arithmetic::div_mod::lemma_div_denominator;
use vstd::prelude::*;

verus! {

/// The number that eight bytes spell, least significant byte first.
pub open spec fn u64_from_le(b: Seq<u8>) -> int
    recommends
        b.len() == 8,
{
    b[0] + b[1] * 0x100 + b[2] * 0x1_0000 + b[3] * 0x100_0000 + b[4] * 0x1_0000_0000 + b[5]
        * 0x100_0000_0000 + b[6] * 0x1_0000_0000_0000 + b[7] * 0x100_0000_0000_0000
}

/// The eight bytes that spell a number, least significant byte first.
pub open spec fn u64_to_le(x: u64) -> Seq<u8> {
    seq![
        (x % 0x100) as u8,
        (x / 0x100 % 0x100) as u8,
        (x / 0x1_0000 % 0x100) as u8,
        (x / 0x100_0000 % 0x100) as u8,
        (x / 0x1_0000_0000 % 0x100) as u8,
        (x / 0x100_0000_0000 % 0x100) as u8,
        (x / 0x1_0000_0000_0000 % 0x100) as u8,
        (x / 0x100_0000_0000_0000 % 0x100) as u8,
    ]
}

/// Eight bytes always spell a number that fits in 64 bits.
pub proof fn lemma_u64_from_le_bounds(b: Seq<u8>)
    requires
        b.len() == 8,
    ensures
        0 <= u64_from_le(b) <= u64::MAX,
{
}

/// Dividing by a power of 256 is dividing by 256 that many times.
proof fn lemma_shift_bytes(x: int)
    requires
        0 <= x,
    ensures
        x / 0x1_0000 == x / 0x100 / 0x100,
        x / 0x100_0000 == x / 0x1_0000 / 0x100,
        x / 0x1_0000_0000 == x / 0x100_0000 / 0x100,
        x / 0x100_0000_0000 == x / 0x1_0000_0000 / 0x100,
        x / 0x1_0000_0000_0000 == x / 0x100_0000_0000 / 0x100,
        x / 0x100_0000_0000_0000 == x / 0x1_0000_0000_0000 / 0x100,
{
    lemma_div_denominator(x, 0x100, 0x100);
    lemma_div_denominator(x, 0x1_0000, 0x100);
    lemma_div_denominator(x, 0x100_0000, 0x100);
    lemma_div_denominator(x, 0x1_0000_0000, 0x100);
    lemma_div_denominator(x, 0x100_0000_0000, 0x100);
    lemma_div_denominator(x, 0x1_0000_0000_0000, 0x100);
}

/// Decoding the encoding of a number gives the number back.
pub proof fn lemma_u64_le_round_trip(x: u64)
    ensures
        u64_to_le(x).len() == 8,
        u64_from_le(u64_to_le(x)) == x,
{
    lemma_shift_bytes(x as int);
    let q1 = x / 0x100;
    let q2 = x / 0x1_0000;
    let q3 = x / 0x100_0000;
    let q4 = x / 0x1_0000_0000;
    let q5 = x / 0x100_0000_0000;
    let q6 = x / 0x1_0000_0000_0000;
    let q7 = x / 0x100_0000_0000_0000;
    assert(x == q1 * 0x100 + x % 0x100);
    assert(q1 == q2 * 0x100 + q1 % 0x100);
    assert(q2 == q3 * 0x100 + q2 % 0x100);
    assert(q3 == q4 * 0x100 + q3 % 0x100);
    assert(q4 == q5 * 0x100 + q4 % 0x100);
    assert(q5 == q6 * 0x100 + q5 % 0x100);
    assert(q6 == q7 * 0x100 + q6 % 0x100);
    assert(q7 == q7 % 0x100);
}

/// Encoding the number that eight bytes spell gives the bytes back.
pub proof fn lemma_u64_le_bytes_round_trip(b: Seq<u8>)
    requires
        b.len() == 8,
    ensures
        u64_to_le(u64_from_le(b) as u64) == b,
{
    let x = u64_from_le(b);
    lemma_shift_bytes(x);
    let t7 = b[7] as int;
    let t6 = t7 * 0x100 + b[6];
    let t5 = t6 * 0x100 + b[5];
    let t4 = t5 * 0x100 + b[4];
    let t3 = t4 * 0x100 + b[3];
    let t2 = t3 * 0x100 + b[2];
    let t1 = t2 * 0x100 + b[1];
    assert(x == t1 * 0x100 + b[0]);
    assert(x / 0x100 == t1 && x % 0x100 == b[0]);
    assert(t1 / 0x100 == t2 && t1 % 0x100 == b[1]);
    assert(t2 / 0x100 == t3 && t2 % 0x100 == b[2]);
    assert(t3 / 0x100 == t4 && t3 % 0x100 == b[3]);
    assert(t4 / 0x100 == t5 && t4 % 0x100 == b[4]);
    assert(t5 / 0x100 == t6 && t5 % 0x100 == b[5]);
    assert(t6 / 0x100 == t7 && t6 % 0x100 == b[6]);
    assert(t7 % 0x100 == b[7]);
    assert(u64_to_le(x as u64) =~= b);
}

/// Reads the amount stored in `src[offset .. offset + 8]`.
pub fn read_u64_le(src: &[u8], offset: usize) -> (x: u64)
    requires
        offset + 8 <= src.len(),
    ensures
        x == u64_from_le(src@.subrange(offset as int, offset + 8)),
{
    let ghost b = src@.subrange(offset as int, offset + 8);
    let mut x: u64 = 0;
    let mut i: usize = 8;
    while i > 0
        invariant
            i <= 8,
            offset + 8 <= src.len(),
            b == src@.subrange(offset as int, offset + 8),
            i == 8 ==> x == 0,
            i == 7 ==> x == b[7],
            i == 6 ==> x == b[7] * 0x100 + b[6],
            i == 5 ==> x == b[7] * 0x1_0000 + b[6] * 0x100 + b[5],
            i == 4 ==> x == b[7] * 0x100_0000 + b[6] * 0x1_0000 + b[5] * 0x100 + b[4],
            i == 3 ==> x == b[7] * 0x1_0000_0000 + b[6] * 0x100_0000 + b[5] * 0x1_0000 + b[4]
                * 0x100 + b[3],
            i == 2 ==> x == b[7] * 0x100_0000_0000 + b[6] * 0x1_0000_0000 + b[5] * 0x100_0000
                + b[4] * 0x1_0000 + b[3] * 0x100 + b[2],
            i == 1 ==> x == b[7] * 0x1_0000_0000_0000 + b[6] * 0x100_0000_0000 + b[5]
                * 0x1_0000_0000 + b[4] * 0x100_0000 + b[3] * 0x1_0000 + b[2] * 0x100 + b[1],
            i == 0 ==> x == u64_from_le(b),
        decreases i,
    {
        i -= 1;
        assert(b[i as int] == src@[offset + i]);
        x = x * 256 + src[offset + i] as u64;
    }
    x
}

/// The eight bytes of an amount, least significant first.
pub fn u64_le_bytes(x: u64) -> (b: [u8; 8])
    ensures
        b@ == u64_to_le(x),
{
    let b: [u8; 8] = [
        (x % 0x100) as u8,
        (x / 0x100 % 0x100) as u8,
        (x / 0x1_0000 % 0x100) as u8,
        (x / 0x100_0000 % 0x100) as u8,
        (x / 0x1_0000_0000 % 0x100) as u8,
        (x / 0x100_0000_0000 % 0x100) as u8,
        (x / 0x1_0000_0000_0000 % 0x100) as u8,
        (x / 0x100_0000_0000_0000 % 0x100) as u8,
    ];
    assert(b@ =~= u64_to_le(x));
    b
}

} // verus!
