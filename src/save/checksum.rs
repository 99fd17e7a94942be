//! The 16-bit fold checksum that protects each block.
use vstd::prelude::*;
use vstd::arithmetic::div_mod::lemma_add_mod_noop;
use crate::bytes::{le_u32, read_u32_le};

verus! {

/// The 32-bit accumulator folded into 16 bits: its high half plus its low half, wrapping.
pub open spec fn fold16(x: u32) -> u16 {
    ((x as int / 0x10000 + x as int % 0x10000) % 0x10000) as u16
}

/// The sum, as an integer, of the first `k` little-endian words of `data`.
pub open spec fn word_sum(data: Seq<u8>, k: nat) -> int
    decreases k,
{
    if k == 0 {
        0
    } else {
        word_sum(data, (k - 1) as nat) + le_u32(data, 4 * (k - 1)) as int
    }
}

/// The fold checksum of `data`: its words summed modulo 2^32, then folded.
pub open spec fn checksum_of(data: Seq<u8>) -> u16 {
    fold16((word_sum(data, data.len() / 4) % 0x1_0000_0000) as u32)
}

/// Computes the fold checksum of a span whose length is a multiple of 4.
pub fn calculate_checksum(data: &[u8]) -> (r: u16)
    requires
        data@.len() % 4 == 0,
    ensures
        r == checksum_of(data@),
{
    let n = data.len();
    let words = n / 4;
    let mut checksum: u32 = 0;
    let mut i: usize = 0;
    while i < words
        invariant
            n == data@.len(),
            words == data@.len() / 4,
            i <= words,
            checksum as int == word_sum(data@, i as nat) % 0x1_0000_0000,
        decreases words - i,
    {
        assert(4 * i + 4 <= data@.len()) by (nonlinear_arith)
            requires
                i < words,
                words == data@.len() / 4,
        ;
        let w = read_u32_le(data, 4 * i);
        proof {
            lemma_add_mod_noop(word_sum(data@, i as nat), w as int, 0x1_0000_0000);
            assert(word_sum(data@, (i + 1) as nat) == word_sum(data@, i as nat) + w as int);
        }
        checksum = checksum.wrapping_add(w);
        i += 1;
    }
    let high = (checksum >> 16) as u16;
    let low = #[verifier::truncate] (checksum as u16);
    assert(high == checksum / 0x10000 && low == checksum % 0x10000) by (bit_vector)
        requires
            high == (checksum >> 16) as u16,
            low == #[verifier::truncate] (checksum as u16),
    ;
    high.wrapping_add(low)
}


/// Adding either of two words that differ in one byte to the same accumulator gives
/// different folds.
proof fn lemma_fold_one_byte(t: u32, w1: u32, w2: u32, a: u8, c: u8, m: u32)
    by (bit_vector)
    requires
        a != c,
        m == 1 || m == 0x100 || m == 0x1_0000 || m == 0x100_0000,
        w1 as int - a as int * m as int == w2 as int - c as int * m as int,
    ensures
        fold16(((t as int + w1 as int) % 0x1_0000_0000) as u32) != fold16(
            ((t as int + w2 as int) % 0x1_0000_0000) as u32,
        ),
{
}


/// Replacing the byte at `i` changes only the word that holds it.
proof fn lemma_word_sum_update(data: Seq<u8>, i: int, b: u8, k: nat)
    requires
        0 <= i < data.len(),
        4 * k <= data.len(),
    ensures
        word_sum(data.update(i, b), k) == word_sum(data, k) + if i / 4 < k {
            le_u32(data.update(i, b), 4 * (i / 4)) as int - le_u32(data, 4 * (i / 4)) as int
        } else {
            0
        },
    decreases k,
{
    if k > 0 {
        lemma_word_sum_update(data, i, b, (k - 1) as nat);
        let p = 4 * (k - 1);
        if i / 4 != k - 1 {
            let d2 = data.update(i, b);
            assert(d2[p] == data[p] && d2[p + 1] == data[p + 1] && d2[p + 2] == data[p + 2]
                && d2[p + 3] == data[p + 3]);
        }
    }
}

/// Changing any single byte of a span changes its fold checksum: a single-byte change
/// moves the 32-bit sum by a nonzero multiple of a power of 256 smaller than 2^32, and
/// the fold of the sum cannot absorb such a step.
#[verifier::rlimit(30)]
pub proof fn lemma_checksum_detects_byte_change(data: Seq<u8>, i: int, b: u8)
    requires
        data.len() % 4 == 0,
        0 <= i < data.len(),
        data[i] != b,
    ensures
        checksum_of(data.update(i, b)) != checksum_of(data),
{
    let d2 = data.update(i, b);
    let k = (data.len() / 4) as nat;
    let j = i / 4;
    lemma_word_sum_update(data, i, b, k);
    let w1 = le_u32(data, 4 * j);
    let w2 = le_u32(d2, 4 * j);
    let rest = word_sum(data, k) - w1;
    let t = (rest % 0x1_0000_0000) as u32;
    lemma_add_mod_noop(rest, w1 as int, 0x1_0000_0000);
    lemma_add_mod_noop(rest, w2 as int, 0x1_0000_0000);
    lemma_add_mod_noop(t as int, w1 as int, 0x1_0000_0000);
    lemma_add_mod_noop(t as int, w2 as int, 0x1_0000_0000);
    let r = i - 4 * j;
    let m: u32 = if r == 0 {
        1
    } else if r == 1 {
        0x100
    } else if r == 2 {
        0x1_0000
    } else {
        0x100_0000
    };
    assert(w1 as int - data[i] as int * m as int == w2 as int - b as int * m as int);
    lemma_fold_one_byte(t, w1, w2, data[i], b, m);
}

} // verus!

