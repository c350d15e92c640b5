//! Sensirion CRC-8: polynomial 0x31, most significant bit first, initial
//! value 0xFF, no final XOR.
use vstd::prelude::*;

verus! {

/// One shift step of the CRC register.
pub open spec fn crc_bit_step(crc: u8) -> u8 {
    if crc & 0x80 != 0 {
        (crc << 1u8) ^ 0x31u8
    } else {
        crc << 1u8
    }
}

/// The CRC register after `n` shift steps.
pub open spec fn crc_bit_steps(crc: u8, n: nat) -> u8
    decreases n,
{
    if n == 0 {
        crc
    } else {
        crc_bit_step(crc_bit_steps(crc, (n - 1) as nat))
    }
}

/// The CRC register after absorbing one byte: the byte is XORed into the
/// register, which is then shifted eight times.
pub open spec fn crc_byte_step(crc: u8, byte: u8) -> u8 {
    crc_bit_steps(crc ^ byte, 8)
}

/// CRC-8 of a byte sequence.
pub open spec fn spec_crc8(data: Seq<u8>) -> u8
    decreases data.len(),
{
    if data.len() == 0 {
        0xFF
    } else {
        crc_byte_step(spec_crc8(data.drop_last()), data.last())
    }
}

/// CRC-8 of one two-byte data word, as it is sent on the wire.
pub open spec fn crc_pair(hi: u8, lo: u8) -> u8 {
    crc_byte_step(crc_byte_step(0xFF, hi), lo)
}

/// The CRC of a two-byte sequence is the word CRC.
pub proof fn lemma_crc8_of_pair(hi: u8, lo: u8)
    ensures
        spec_crc8(seq![hi, lo]) == crc_pair(hi, lo),
{
    let s = seq![hi, lo];
    assert(s.drop_last() =~= seq![hi]);
    assert(seq![hi].drop_last() =~= Seq::<u8>::empty());
    reveal_with_fuel(spec_crc8, 3);
}

/// One byte step, computed as the datasheet describes it: XOR the byte into
/// the register, then shift eight times.
fn crc_update(crc: u8, byte: u8) -> (r: u8)
    ensures
        r == crc_byte_step(crc, byte),
{
    let mut c: u8 = crc ^ byte;
    let ghost start: u8 = c;
    let mut i: u32 = 0;
    while i < 8
        invariant
            i <= 8,
            c == crc_bit_steps(start, i as nat),
        decreases 8 - i,
    {
        if c & 0x80 != 0 {
            c = (c << 1u8) ^ 0x31u8;
        } else {
            c = c << 1u8;
        }
        i = i + 1;
    }
    c
}

/// Word CRC of `hi`, `lo`.
pub fn crc8_word(hi: u8, lo: u8) -> (r: u8)
    ensures
        r == crc_pair(hi, lo),
{
    crc_update(crc_update(0xFF, hi), lo)
}

/// A shift step is linear over XOR.
proof fn lemma_bit_step_linear(x: u8, y: u8)
    ensures
        crc_bit_step(x ^ y) == crc_bit_step(x) ^ crc_bit_step(y),
{
    assert((if (x ^ y) & 0x80 != 0 { ((x ^ y) << 1u8) ^ 0x31u8 } else { (x ^ y) << 1u8 }) == (if x
        & 0x80 != 0 { (x << 1u8) ^ 0x31u8 } else { x << 1u8 }) ^ (if y & 0x80 != 0 {
        (y << 1u8) ^ 0x31u8
    } else {
        y << 1u8
    })) by (bit_vector);
}

/// A shift step maps only zero to zero.
proof fn lemma_bit_step_zero(x: u8)
    ensures
        crc_bit_step(x) == 0 ==> x == 0,
{
    assert((if x & 0x80 != 0 { (x << 1u8) ^ 0x31u8 } else { x << 1u8 }) == 0 ==> x == 0)
        by (bit_vector);
}

/// Any number of shift steps is linear over XOR.
proof fn lemma_bit_steps_linear(x: u8, y: u8, n: nat)
    ensures
        crc_bit_steps(x ^ y, n) == crc_bit_steps(x, n) ^ crc_bit_steps(y, n),
    decreases n,
{
    if n > 0 {
        lemma_bit_steps_linear(x, y, (n - 1) as nat);
        lemma_bit_step_linear(crc_bit_steps(x, (n - 1) as nat), crc_bit_steps(y, (n - 1) as nat));
    }
}

/// Any number of shift steps maps only zero to zero.
proof fn lemma_bit_steps_zero(x: u8, n: nat)
    ensures
        crc_bit_steps(x, n) == 0 ==> x == 0,
    decreases n,
{
    if n > 0 {
        lemma_bit_step_zero(crc_bit_steps(x, (n - 1) as nat));
        lemma_bit_steps_zero(x, (n - 1) as nat);
    }
}

proof fn lemma_xor_facts(a: u8, b: u8, h: u8)
    ensures
        (a ^ b == 0) <==> (a == b),
        (h ^ a) ^ (h ^ b) == a ^ b,
        (a ^ h) ^ (b ^ h) == a ^ b,
{
    assert((a ^ h) ^ (b ^ h) == a ^ b) by (bit_vector);
    assert((a ^ b == 0) <==> (a == b)) by (bit_vector);
    assert((h ^ a) ^ (h ^ b) == a ^ b) by (bit_vector);
}

/// A CRC byte catches any corruption of a single byte of its data word:
/// two words that differ in exactly one byte never share a CRC.
pub proof fn lemma_crc_detects_single_byte_error(hi: u8, lo: u8, other: u8)
    ensures
        other != hi ==> crc_pair(other, lo) != crc_pair(hi, lo),
        other != lo ==> crc_pair(hi, other) != crc_pair(hi, lo),
{
    let h = crc_byte_step(0xFF, hi);
    let o = crc_byte_step(0xFF, other);
    // Changed low byte: the two CRCs differ by the steps of `other ^ lo`.
    lemma_bit_steps_linear(h ^ other, h ^ lo, 8);
    lemma_xor_facts(other, lo, h);
    lemma_bit_steps_zero(other ^ lo, 8);
    lemma_xor_facts(crc_pair(hi, other), crc_pair(hi, lo), 0);
    // Changed high byte: the difference goes through the steps twice.
    lemma_bit_steps_linear(0xFF ^ other, 0xFF ^ hi, 8);
    lemma_xor_facts(other, hi, 0xFF);
    lemma_bit_steps_zero(other ^ hi, 8);
    lemma_bit_steps_linear(o ^ lo, h ^ lo, 8);
    lemma_xor_facts(o, h, lo);
    lemma_bit_steps_zero(o ^ h, 8);
    lemma_xor_facts(crc_pair(other, lo), crc_pair(hi, lo), 0);
}

/// Sensirion CRC-8 of `data`.
pub fn crc8(data: &[u8]) -> (r: u8)
    ensures
        r == spec_crc8(data@),
{
    let mut crc: u8 = 0xFF;
    let mut i: usize = 0;
    while i < data.len()
        invariant
            i <= data.len(),
            crc == spec_crc8(data@.take(i as int)),
        decreases data.len() - i,
    {
        proof {
            assert(data@.take(i + 1).drop_last() =~= data@.take(i as int));
        }
        crc = crc_update(crc, data[i]);
        i = i + 1;
    }
    proof {
        assert(data@.take(data.len() as int) =~= data@);
    }
    crc
}

} // verus!
