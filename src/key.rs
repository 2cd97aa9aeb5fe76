//! Key schedule: eight key bytes expanded into sixteen round subkeys.

use vstd::prelude::*;

use crate::tables::{
    COMP_MASKL0, COMP_MASKL1, COMP_MASKR0, COMP_MASKR1, KEY_PERM_MASKL, KEY_PERM_MASKR, KEY_SHIFTS,
};

verus! {

/// The key block of a password's bytes: each of the first eight bytes
/// shifted left by one (bit 0 is the unused parity slot), missing bytes zero.
pub open spec fn key_block(bytes: Seq<u8>) -> Seq<u8> {
    Seq::new(8, |i: int| if i < bytes.len() { bytes[i] << 1u8 } else { 0u8 })
}

/// Big-endian word of the four key bytes starting at `at`.
pub open spec fn key_word(kb: Seq<u8>, at: int) -> u32 {
    (kb[at + 3] as u32) | ((kb[at + 2] as u32) << 8u32) | ((kb[at + 1] as u32) << 16u32) | ((
    kb[at] as u32) << 24u32)
}

/// The 4-bit group of `w` that starts at bit `at`.
pub open spec fn nibble(w: u32, at: u32) -> int {
    ((w >> at) & 0xf) as int
}

/// Left 28-bit half of the permuted key, from the first `n` nibble pairs.
pub open spec fn permuted_left_upto(raw0: u32, raw1: u32, n: int) -> u32
    decreases n,
{
    if n <= 0 {
        0
    } else {
        let i = n - 1;
        let hi = (28 - 8 * i) as u32;
        permuted_left_upto(raw0, raw1, i) | (KEY_PERM_MASKL[i][nibble(raw0, hi)]
            | KEY_PERM_MASKL[i + 4][nibble(raw1, hi)])
    }
}

/// Right 28-bit half of the permuted key, from the first `n` nibble pairs.
pub open spec fn permuted_right_upto(raw0: u32, raw1: u32, n: int) -> u32
    decreases n,
{
    if n <= 0 {
        0
    } else {
        let i = n - 1;
        let hi = (28 - 8 * i) as u32;
        let lo = (24 - 8 * i) as u32;
        (permuted_right_upto(raw0, raw1, i) | KEY_PERM_MASKR[2 * i][nibble(raw0, hi)]) | (
        KEY_PERM_MASKR[2 * i + 1][nibble(raw0, lo)] | KEY_PERM_MASKR[i + 8][nibble(raw1, lo)])
    }
}

/// Left half of the permuted key of a key block.
pub open spec fn left_half(kb: Seq<u8>) -> u32 {
    permuted_left_upto(key_word(kb, 0), key_word(kb, 4), 4)
}

/// Right half of the permuted key of a key block.
pub open spec fn right_half(kb: Seq<u8>) -> u32 {
    permuted_right_upto(key_word(kb, 0), key_word(kb, 4), 4)
}

/// Total rotation applied before round `n - 1`: the sum of the first `n` shifts.
pub open spec fn cumulative_shift(n: int) -> int
    decreases n,
{
    if n <= 0 {
        0
    } else {
        cumulative_shift(n - 1) + KEY_SHIFTS[n - 1] as int
    }
}

/// A 28-bit half rotated left by `s` (bits above 27 are never read).
pub open spec fn rotate28(k: u32, s: u32) -> u32 {
    (k << s) | (k >> ((28 - s) as u32))
}

/// Compression of a rotated half into 24 subkey bits, from the first `n`
/// groups of three and four bits.
pub open spec fn compress_upto(m0: [[u32; 8]; 4], m1: [[u32; 16]; 4], t: u32, n: int) -> u32
    decreases n,
{
    if n <= 0 {
        0
    } else {
        let i = n - 1;
        let hi = (25 - 7 * i) as u32;
        let lo = (21 - 7 * i) as u32;
        (compress_upto(m0, m1, t, i) | m0[i][((t >> hi) & 7) as int]) | m1[i][nibble(t, lo)]
    }
}

/// Left subkey of round `j`.
pub open spec fn subkey_left(kb: Seq<u8>, j: int) -> u32 {
    compress_upto(COMP_MASKL0, COMP_MASKL1, rotate28(left_half(kb), cumulative_shift(j + 1) as u32), 4)
}

/// Right subkey of round `j`.
pub open spec fn subkey_right(kb: Seq<u8>, j: int) -> u32 {
    compress_upto(COMP_MASKR0, COMP_MASKR1, rotate28(right_half(kb), cumulative_shift(j + 1) as u32), 4)
}

/// The sixteen left subkeys of a key block.
pub open spec fn subkeys_left(kb: Seq<u8>) -> Seq<u32> {
    Seq::new(16, |j: int| subkey_left(kb, j))
}

/// The sixteen right subkeys of a key block.
pub open spec fn subkeys_right(kb: Seq<u8>) -> Seq<u32> {
    Seq::new(16, |j: int| subkey_right(kb, j))
}

/// Sixteen round subkeys, each a pair of 24-bit halves.
pub struct ExpandedKey {
    pub l: [u32; 16],
    pub r: [u32; 16],
}

/// Masking a word leaves an index into a table of matching size.
pub proof fn lemma_mask_bounds(x: u32)
    ensures
        x & 7 < 8,
        x & 0xf < 16,
        x & 0x3f < 64,
{
    assert(x & 7 < 8 && x & 0xf < 16 && x & 0x3f < 64) by (bit_vector);
}

proof fn lemma_cumulative_shift_nonnegative(n: int)
    ensures
        0 <= cumulative_shift(n),
    decreases n,
{
    if n > 0 {
        lemma_cumulative_shift_nonnegative(n - 1);
    }
}

proof fn lemma_cumulative_shift_bound(n: int)
    requires
        0 <= n <= 16,
    ensures
        0 <= cumulative_shift(n) <= 28,
    decreases 16 - n,
{
    if n < 16 {
        lemma_cumulative_shift_bound(n + 1);
        lemma_cumulative_shift_nonnegative(n);
    } else {
        reveal_with_fuel(cumulative_shift, 17);
    }
}

/// Reads the raw key block into its two big-endian words.
fn key_words(kb: &[u8; 8]) -> (r: (u32, u32))
    ensures
        r == (key_word(kb@, 0), key_word(kb@, 4)),
{
    let raw0 = (kb[3] as u32) | ((kb[2] as u32) << 8) | ((kb[1] as u32) << 16) | ((
    kb[0] as u32) << 24);
    let raw1 = (kb[7] as u32) | ((kb[6] as u32) << 8) | ((kb[5] as u32) << 16) | ((
    kb[4] as u32) << 24);
    (raw0, raw1)
}

/// The initial key permutation: two 28-bit halves from the raw key words.
fn permute_key(raw0: u32, raw1: u32) -> (r: (u32, u32))
    ensures
        r == (permuted_left_upto(raw0, raw1, 4), permuted_right_upto(raw0, raw1, 4)),
{
    let mut k0: u32 = 0;
    let mut k1: u32 = 0;
    let mut i: usize = 0;
    while i < 4
        invariant
            i <= 4,
            k0 == permuted_left_upto(raw0, raw1, i as int),
            k1 == permuted_right_upto(raw0, raw1, i as int),
        decreases 4 - i,
    {
        let hi: u32 = 28 - 8 * i as u32;
        let lo: u32 = 24 - 8 * i as u32;
        proof {
            lemma_mask_bounds(raw0 >> hi);
            lemma_mask_bounds(raw1 >> hi);
            lemma_mask_bounds(raw0 >> lo);
            lemma_mask_bounds(raw1 >> lo);
        }
        let j = i * 2;
        k0 = k0 | (KEY_PERM_MASKL[i][((raw0 >> hi) & 0xf) as usize] | KEY_PERM_MASKL[i
            + 4][((raw1 >> hi) & 0xf) as usize]);
        k1 = k1 | KEY_PERM_MASKR[j][((raw0 >> hi) & 0xf) as usize];
        k1 = k1 | (KEY_PERM_MASKR[j + 1][((raw0 >> lo) & 0xf) as usize] | KEY_PERM_MASKR[i
            + 8][((raw1 >> lo) & 0xf) as usize]);
        i = i + 1;
    }
    (k0, k1)
}

/// Selects the 24 subkey bits of a rotated half through a pair of
/// compression tables.
fn compress(t: u32, m0: &[[u32; 8]; 4], m1: &[[u32; 16]; 4]) -> (r: u32)
    ensures
        r == compress_upto(*m0, *m1, t, 4),
{
    let mut k: u32 = 0;
    let mut i: usize = 0;
    while i < 4
        invariant
            i <= 4,
            k == compress_upto(*m0, *m1, t, i as int),
        decreases 4 - i,
    {
        let hi: u32 = 25 - 7 * i as u32;
        let lo: u32 = 21 - 7 * i as u32;
        proof {
            lemma_mask_bounds(t >> hi);
            lemma_mask_bounds(t >> lo);
        }
        k = k | m0[i][((t >> hi) & 7) as usize];
        k = k | m1[i][((t >> lo) & 0xf) as usize];
        i = i + 1;
    }
    k
}

/// Expands a key block into its sixteen round subkeys.
pub fn expand_key(kb: &[u8; 8]) -> (ek: ExpandedKey)
    ensures
        ek.l@ == subkeys_left(kb@),
        ek.r@ == subkeys_right(kb@),
{
    let (raw0, raw1) = key_words(kb);
    let (k0, k1) = permute_key(raw0, raw1);
    let mut l: [u32; 16] = [0u32; 16];
    let mut r: [u32; 16] = [0u32; 16];
    let mut shifts: u32 = 0;
    let mut round: usize = 0;
    while round < 16
        invariant
            round <= 16,
            k0 == left_half(kb@),
            k1 == right_half(kb@),
            shifts == cumulative_shift(round as int),
            forall|j: int| 0 <= j < round ==> l[j] == subkey_left(kb@, j),
            forall|j: int| 0 <= j < round ==> r[j] == subkey_right(kb@, j),
        decreases 16 - round,
    {
        proof {
            lemma_cumulative_shift_bound(round as int + 1);
        }
        shifts = shifts + KEY_SHIFTS[round] as u32;
        let t0 = (k0 << shifts) | (k0 >> (28 - shifts));
        let t1 = (k1 << shifts) | (k1 >> (28 - shifts));
        l[round] = compress(t0, &COMP_MASKL0, &COMP_MASKL1);
        r[round] = compress(t1, &COMP_MASKR0, &COMP_MASKR1);
        round = round + 1;
    }
    assert(l@ =~= subkeys_left(kb@));
    assert(r@ =~= subkeys_right(kb@));
    ExpandedKey { l, r }
}

} // verus!
