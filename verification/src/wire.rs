//! Bytes, and little-endian 32-bit integers as bytes.

use vstd::prelude::*;

verus! {

/// The four little-endian bytes of `n`, in two's complement.
pub open spec fn le32(n: int) -> Seq<u8> {
    seq![
        (n % 0x100) as u8,
        ((n / 0x100) % 0x100) as u8,
        ((n / 0x1_0000) % 0x100) as u8,
        ((n / 0x100_0000) % 0x100) as u8,
    ]
}

/// The unsigned integer that four little-endian bytes stand for.
pub open spec fn unsigned_le32(bytes: Seq<u8>) -> int {
    bytes[0] + bytes[1] * 0x100 + bytes[2] * 0x1_0000 + bytes[3] * 0x100_0000
}

/// The signed integer that four little-endian bytes stand for.
pub open spec fn signed_le32(bytes: Seq<u8>) -> int {
    if unsigned_le32(bytes) < 0x8000_0000 {
        unsigned_le32(bytes)
    } else {
        unsigned_le32(bytes) - 0x1_0000_0000
    }
}

/// Appends the four little-endian bytes of `n` to `out`.
pub fn push_le32(out: &mut Vec<u8>, n: u32)
    ensures
        final(out)@ == old(out)@ + le32(n as int),
{
    out.push((n % 0x100) as u8);
    out.push(((n / 0x100) % 0x100) as u8);
    out.push(((n / 0x1_0000) % 0x100) as u8);
    out.push(((n / 0x100_0000) % 0x100) as u8);
}

/// Appends `bytes` to `out`.
pub fn push_bytes(out: &mut Vec<u8>, bytes: &[u8])
    ensures
        final(out)@ == old(out)@ + bytes@,
{
    let ghost before = out@;
    let mut i: usize = 0;
    while i < bytes.len()
        invariant
            i <= bytes@.len(),
            out@ == before + bytes@.take(i as int),
        decreases bytes@.len() - i,
    {
        out.push(bytes[i]);
        assert(bytes@.take(i + 1) =~= bytes@.take(i as int).push(bytes@[i as int]));
        i += 1;
    }
    assert(bytes@.take(i as int) =~= bytes@);
}

/// Whether `bytes` begins with `prefix`.
pub fn begins_with(bytes: &[u8], prefix: &[u8]) -> (r: bool)
    ensures
        r == prefix@.is_prefix_of(bytes@),
{
    if prefix.len() > bytes.len() {
        return false;
    }
    let mut i: usize = 0;
    while i < prefix.len()
        invariant
            i <= prefix@.len() <= bytes@.len(),
            forall|j: int| 0 <= j < i ==> bytes@[j] == prefix@[j],
        decreases prefix@.len() - i,
    {
        if bytes[i] != prefix[i] {
            assert(bytes@.take(prefix@.len() as int)[i as int] != prefix@[i as int]);
            return false;
        }
        i += 1;
    }
    assert(bytes@.take(prefix@.len() as int) =~= prefix@);
    true
}

/// Reads the signed little-endian integer at the start of `bytes`.
pub fn read_signed_le32(bytes: &[u8]) -> (r: i32)
    requires
        bytes@.len() >= 4,
    ensures
        r == signed_le32(bytes@),
{
    let unsigned: u32 = bytes[0] as u32 + bytes[1] as u32 * 0x100 + bytes[2] as u32 * 0x1_0000
        + bytes[3] as u32 * 0x100_0000;
    if unsigned < 0x8000_0000 {
        unsigned as i32
    } else {
        (unsigned as i64 - 0x1_0000_0000) as i32
    }
}

proof fn lemma_le32_wraps(n: int)
    ensures
        le32(n + 0x1_0000_0000) == le32(n),
{
    let m = n + 0x1_0000_0000;
    assert(m % 0x100 == n % 0x100);
    assert(m / 0x100 == n / 0x100 + 0x100_0000);
    assert((n / 0x100 + 0x100_0000) % 0x100 == (n / 0x100) % 0x100);
    assert(m / 0x1_0000 == n / 0x1_0000 + 0x1_0000);
    assert((n / 0x1_0000 + 0x1_0000) % 0x100 == (n / 0x1_0000) % 0x100);
    assert(m / 0x100_0000 == n / 0x100_0000 + 0x100);
    assert((n / 0x100_0000 + 0x100) % 0x100 == (n / 0x100_0000) % 0x100);
}

/// The unsigned 32-bit integer with the same bytes as `n`.
pub fn as_unsigned(n: i32) -> (r: u32)
    ensures
        le32(r as int) == le32(n as int),
{
    if n < 0 {
        let r: u32 = (n as i64 + 0x1_0000_0000) as u32;
        proof {
            lemma_le32_wraps(n as int);
        }
        r
    } else {
        n as u32
    }
}

proof fn lemma_unsigned_round_trip(n: int)
    requires
        0 <= n < 0x1_0000_0000,
    ensures
        unsigned_le32(le32(n)) == n,
{
    let high = n / 0x100;
    let higher = high / 0x100;
    let highest = higher / 0x100;
    assert(n == high * 0x100 + n % 0x100);
    assert(high == higher * 0x100 + high % 0x100);
    assert(higher == highest * 0x100 + higher % 0x100);
    assert(n / 0x1_0000 == higher);
    assert(n / 0x100_0000 == highest);
    assert(highest % 0x100 == highest);
}

/// Every signed 32-bit integer survives the trip through its bytes.
pub proof fn law_le32_round_trip(n: i32)
    ensures
        signed_le32(le32(n as int)) == n,
        le32(n as int).len() == 4,
{
    if n < 0 {
        lemma_le32_wraps(n as int);
        lemma_unsigned_round_trip(n + 0x1_0000_0000);
    } else {
        lemma_unsigned_round_trip(n as int);
    }
}

/// The lowest byte comes first, and each byte counts 256 times as much as the one
/// before.
pub proof fn law_little_end_first(n: int)
    requires
        0 <= n < 0x1_0000_0000,
    ensures
        le32(n)[0] + 0x100 * le32(n)[1] + 0x1_0000 * le32(n)[2] + 0x100_0000 * le32(n)[3] == n,
        unsigned_le32(le32(n)) == n,
{
    lemma_unsigned_round_trip(n);
    assert(unsigned_le32(le32(n)) == le32(n)[0] + 0x100 * le32(n)[1] + 0x1_0000 * le32(n)[2]
        + 0x100_0000 * le32(n)[3]);
}

/// What bytes stand for is read off them the same way; the topmost bit is the
/// sign.
pub proof fn law_reading_little_end_first(a: u8, b: u8, c: u8, d: u8)
    ensures
        ({
            let bytes = seq![a, b, c, d];
            let sum = a + 0x100 * b + 0x1_0000 * c + 0x100_0000 * d;
            &&& unsigned_le32(bytes) == sum
            &&& d < 0x80 ==> signed_le32(bytes) == sum
            &&& d >= 0x80 ==> signed_le32(bytes) == sum - 0x1_0000_0000
        }),
{
}

} // verus!
