//! CRC8 codec: builds a lookup table for an 8-bit CRC polynomial via
//! standard bit-at-a-time polynomial division, and folds that table over a
//! byte sequence to compute a checksum.
//!
//! Pure and total over all inputs; the codec is polynomial-agnostic.

use vstd::prelude::*;

verus! {

/// One shift/XOR step of the bit-at-a-time table generation: shift left,
/// and XOR in the polynomial whenever the top bit was set before the shift.
pub open spec fn crc8_step(polynomial: u8, value: u8) -> u8 {
    if value & 0x80 != 0 {
        (value << 1) ^ polynomial
    } else {
        value << 1
    }
}

/// `n` iterated shift/XOR steps.
pub open spec fn crc8_steps(polynomial: u8, value: u8, n: nat) -> u8
    decreases n,
{
    if n == 0 {
        value
    } else {
        crc8_step(polynomial, crc8_steps(polynomial, value, (n - 1) as nat))
    }
}

/// The table entry for a leading byte: that byte processed through 8
/// shift/XOR steps.
pub open spec fn crc8_table_entry(polynomial: u8, value: u8) -> u8 {
    crc8_steps(polynomial, value, 8)
}

/// The whole 256-entry table of a polynomial, as a sequence.
pub open spec fn crc8_table(polynomial: u8) -> Seq<u8> {
    Seq::new(256, |i: int| crc8_table_entry(polynomial, i as u8))
}

/// The checksum of `bytes` under a 256-entry `table`, folded from an
/// initial state of 0: for each byte, `state = table[state ^ byte]`.
pub open spec fn crc8(table: Seq<u8>, bytes: Seq<u8>) -> u8
    recommends
        table.len() == 256,
    decreases bytes.len(),
{
    if bytes.len() == 0 {
        0
    } else {
        table[(crc8(table, bytes.drop_last()) ^ bytes.last()) as int]
    }
}

/// Zero stays zero through any number of shift/XOR steps, for every
/// polynomial: the top bit of zero is never set and shifting zero is zero.
pub proof fn lemma_crc8_steps_zero(polynomial: u8, n: nat)
    ensures
        crc8_steps(polynomial, 0, n) == 0,
    decreases n,
{
    if n > 0 {
        lemma_crc8_steps_zero(polynomial, (n - 1) as nat);
        assert(crc8_step(polynomial, 0) == 0) by (bit_vector);
    }
}

/// One shift/XOR step is injective whenever the polynomial is odd: equal
/// results force equal top bits (the step's low bit is the polynomial's low
/// bit exactly when the top bit was set), and then equal shifted values.
proof fn lemma_crc8_step_injective(polynomial: u8, a: u8, b: u8)
    requires
        polynomial & 1 == 1,
        a != b,
    ensures
        crc8_step(polynomial, a) != crc8_step(polynomial, b),
{
    assert(crc8_step(polynomial, a) != crc8_step(polynomial, b)) by (bit_vector)
        requires
            polynomial & 1 == 1,
            a != b,
    ;
}

/// Iterating an injective step stays injective.
proof fn lemma_crc8_steps_injective(polynomial: u8, a: u8, b: u8, n: nat)
    requires
        polynomial & 1 == 1,
        a != b,
    ensures
        crc8_steps(polynomial, a, n) != crc8_steps(polynomial, b, n),
    decreases n,
{
    if n > 0 {
        lemma_crc8_steps_injective(polynomial, a, b, (n - 1) as nat);
        lemma_crc8_step_injective(
            polynomial,
            crc8_steps(polynomial, a, (n - 1) as nat),
            crc8_steps(polynomial, b, (n - 1) as nat),
        );
    }
}

/// Distinct bytes have distinct table entries, for every odd polynomial.
pub proof fn lemma_crc8_table_injective(polynomial: u8, a: u8, b: u8)
    requires
        polynomial & 1 == 1,
        a != b,
    ensures
        crc8_table(polynomial)[a as int] != crc8_table(polynomial)[b as int],
{
    lemma_crc8_steps_injective(polynomial, a, b, 8);
}

/// Corrupting exactly one byte of a sequence changes its checksum under
/// the table of any odd polynomial: the fold states diverge at the
/// corrupted byte (the table is injective) and never re-converge (equal
/// later bytes XORed into unequal states keep the table inputs unequal).
/// In particular a single flipped bit never yields a coincidentally equal
/// checksum.
pub proof fn lemma_crc8_detects_single_byte_change(
    polynomial: u8,
    s: Seq<u8>,
    t: Seq<u8>,
    k: int,
)
    requires
        polynomial & 1 == 1,
        s.len() == t.len(),
        0 <= k < s.len(),
        s[k] != t[k],
        forall|j: int| 0 <= j < s.len() && j != k ==> s[j] == t[j],
    ensures
        crc8(crc8_table(polynomial), s) != crc8(crc8_table(polynomial), t),
    decreases s.len(),
{
    let table = crc8_table(polynomial);
    let cs = crc8(table, s.drop_last());
    let ct = crc8(table, t.drop_last());
    if k == s.len() - 1 {
        assert(s.drop_last() =~= t.drop_last());
        let a = s.last();
        let b = t.last();
        assert(cs ^ a != cs ^ b) by (bit_vector)
            requires
                a != b,
        ;
        lemma_crc8_table_injective(polynomial, cs ^ a, cs ^ b);
    } else {
        assert(s.drop_last()[k] == s[k]);
        lemma_crc8_detects_single_byte_change(polynomial, s.drop_last(), t.drop_last(), k);
        let a = s.last();
        assert(t.last() == a);
        assert(cs ^ a != ct ^ a) by (bit_vector)
            requires
                cs != ct,
        ;
        lemma_crc8_table_injective(polynomial, cs ^ a, ct ^ a);
    }
}

/// Generate the CRC8 lookup table for a given polynomial: each of the 256
/// possible leading-byte values processed through 8 shift/XOR steps.
/// Entry 0 is 0 for every polynomial.
pub fn generate_lookup(polynomial: u8) -> (table: Vec<u8>)
    ensures
        table@ == crc8_table(polynomial),
        table@.len() == 256,
        table@[0] == 0,
{
    let mut table: Vec<u8> = Vec::new();
    let mut i: usize = 0;
    while i < 256
        invariant
            i <= 256,
            table@.len() == i,
            forall|j: int| 0 <= j < i ==> table@[j] == crc8_table_entry(polynomial, j as u8),
        decreases 256 - i,
    {
        let mut value: u8 = i as u8;
        let mut bit: usize = 0;
        while bit < 8
            invariant
                bit <= 8,
                value == crc8_steps(polynomial, i as u8, bit as nat),
            decreases 8 - bit,
        {
            if value & 0x80 != 0 {
                value = value << 1;
                value = value ^ polynomial;
            } else {
                value = value << 1;
            }
            bit = bit + 1;
        }
        table.push(value);
        i = i + 1;
    }
    proof {
        assert(table@ =~= crc8_table(polynomial));
        lemma_crc8_steps_zero(polynomial, 8);
    }
    table
}

/// Calculate the CRC8 of a byte slice using a pre-calculated 256-entry
/// lookup table, starting from an initial state of 0.
pub fn calc_crc8(bytes: &[u8], lookup: &[u8]) -> (crc: u8)
    requires
        lookup@.len() == 256,
    ensures
        crc == crc8(lookup@, bytes@),
{
    let mut crc: u8 = 0;
    let mut k: usize = 0;
    while k < bytes.len()
        invariant
            lookup@.len() == 256,
            k <= bytes@.len(),
            crc == crc8(lookup@, bytes@.take(k as int)),
        decreases bytes@.len() - k,
    {
        let byte = bytes[k];
        crc = lookup[(crc ^ byte) as usize];
        proof {
            assert(bytes@.take(k + 1).drop_last() =~= bytes@.take(k as int));
            assert(bytes@.take(k + 1).last() == bytes@[k as int]);
        }
        k = k + 1;
    }
    proof {
        assert(bytes@.take(bytes@.len() as int) =~= bytes@);
    }
    crc
}

} // verus!
