//! The 8-bit checksum that guards every byte group on the bus.

use crc_any::CRCu8;
use vstd::prelude::*;

verus! {

/// One shift of the CRC register, most significant bit first, with the
/// generator polynomial x^8 + x^2 + x + 1.
pub open spec fn crc8_shift(v: u8) -> u8 {
    if v & 0x80 == 0 {
        v << 1
    } else {
        (v << 1) ^ 0x07
    }
}

/// The CRC register after `n` shifts.
pub open spec fn crc8_shifts(v: u8, n: nat) -> u8
    decreases n,
{
    if n == 0 {
        v
    } else {
        crc8_shift(crc8_shifts(v, (n - 1) as nat))
    }
}

/// The CRC register after a whole byte has been shifted through it.
pub open spec fn crc8_byte(v: u8) -> u8 {
    crc8_shifts(v, 8)
}

/// CRC-8 of a byte sequence: polynomial 0x07, initial value 0, no
/// reflection, no final xor. Each byte is xored into the register, which
/// is then shifted eight times.
pub open spec fn crc8(bytes: Seq<u8>) -> u8
    decreases bytes.len(),
{
    if bytes.len() == 0 {
        0
    } else {
        crc8_byte(crc8(bytes.drop_last()) ^ bytes.last())
    }
}

/// Computes the checksum of `bytes` with `crc_any::CRCu8`: a fresh
/// `CRCu8::crc8()` digests the bytes and `get_crc` reads the sum. The
/// contract claims that this is the CRC-8 with polynomial 0x07, initial
/// value 0, no reflection and no final xor, as the crate documents it.
#[verifier::external_body]
pub(crate) fn checksum(bytes: &[u8]) -> (sum: u8)
    ensures
        sum == crc8(bytes@),
{
    let mut crc = CRCu8::crc8();
    crc.digest(bytes);
    crc.get_crc()
}

/// Computes the checksum of `bytes` bit by bit, from the definition.
///
/// The driver takes its checksums from `crc_any`. This function is here
/// so that a test can hold that crate to the definition.
pub fn crc8_bitwise(bytes: &[u8]) -> (sum: u8)
    ensures
        sum == crc8(bytes@),
{
    let mut sum: u8 = 0;
    let mut k: usize = 0;
    while k < bytes.len()
        invariant
            k <= bytes@.len(),
            sum == crc8(bytes@.subrange(0, k as int)),
        decreases bytes@.len() - k,
    {
        let ghost start = sum ^ bytes@[k as int];
        let mut v: u8 = sum ^ bytes[k];
        let mut bit: u8 = 0;
        while bit < 8
            invariant
                bit <= 8,
                v == crc8_shifts(start, bit as nat),
            decreases 8 - bit,
        {
            v = if v & 0x80 == 0 {
                v << 1
            } else {
                (v << 1) ^ 0x07
            };
            bit += 1;
        }
        proof {
            let prefix = bytes@.subrange(0, k + 1);
            assert(prefix.drop_last() =~= bytes@.subrange(0, k as int));
            assert(prefix.last() == bytes@[k as int]);
        }
        sum = v;
        k += 1;
    }
    assert(bytes@.subrange(0, k as int) =~= bytes@);
    sum
}

proof fn lemma_shift_injective(a: u8, b: u8)
    by (bit_vector)
    requires
        crc8_shift(a) == crc8_shift(b),
    ensures
        a == b,
{
}

proof fn lemma_shifts_injective(a: u8, b: u8, n: nat)
    requires
        crc8_shifts(a, n) == crc8_shifts(b, n),
    ensures
        a == b,
    decreases n,
{
    if n > 0 {
        lemma_shift_injective(crc8_shifts(a, (n - 1) as nat), crc8_shifts(b, (n - 1) as nat));
        lemma_shifts_injective(a, b, (n - 1) as nat);
    }
}

proof fn lemma_xor_injective(c: u8, x: u8, y: u8)
    by (bit_vector)
    requires
        c ^ x == c ^ y,
    ensures
        x == y,
{
}

/// With everything before it fixed, the last byte decides the checksum:
/// changing it changes the sum.
pub proof fn lemma_crc8_last_byte(prefix: Seq<u8>, x: u8, y: u8)
    requires
        crc8(prefix.push(x)) == crc8(prefix.push(y)),
    ensures
        x == y,
{
    assert(prefix.push(x).drop_last() =~= prefix);
    assert(prefix.push(y).drop_last() =~= prefix);
    assert(prefix.push(x).last() == x);
    assert(prefix.push(y).last() == y);
    let c = crc8(prefix);
    lemma_shifts_injective(c ^ x, c ^ y, 8);
    lemma_xor_injective(c, x, y);
}

} // verus!
