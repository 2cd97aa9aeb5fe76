//! The digest encoder: final permutation of the cipher block, then ten
//! 6-bit groups written in the digest alphabet.

use vstd::prelude::*;

use crate::key::{lemma_mask_bounds, nibble};
use crate::tables::{ALPHABET, FP_MASKL, FP_MASKR};

verus! {

/// The final permutation over the first `n` nibble pairs of the block,
/// as the high and low output words.
pub open spec fn final_perm_upto(l: u32, r: u32, n: int) -> (u32, u32)
    decreases n,
{
    if n <= 0 {
        (0, 0)
    } else {
        let i = n - 1;
        let hi = (28 - 8 * i) as u32;
        let lo = (24 - 8 * i) as u32;
        let (r0, r1) = final_perm_upto(l, r, i);
        (
            r0 | (FP_MASKL[i][nibble(l, lo)] | FP_MASKL[i + 4][nibble(r, lo)]),
            r1 | (FP_MASKR[i][nibble(l, hi)] | FP_MASKR[i + 4][nibble(r, hi)]),
        )
    }
}

/// The final permutation of a cipher block.
pub open spec fn final_perm(l: u32, r: u32) -> (u32, u32) {
    final_perm_upto(l, r, 4)
}

/// The 64-bit output value, high word first.
pub open spec fn output_value(r0: u32, r1: u32) -> u64 {
    ((r0 as u64) << 32u64) | (r1 as u64)
}

/// Group `k` of the output value padded with two zero bits below: the
/// value's 66 bits fall into eleven 6-bit groups, of which the highest is
/// dropped and the other ten are numbered from the top.
pub open spec fn output_group(v: u64, k: int) -> int {
    if k < 9 {
        ((v >> ((52 - 6 * k) as u64)) & 0x3f) as int
    } else {
        ((v << 2u64) & 0x3f) as int
    }
}

/// The ten digest symbols of an output value.
pub open spec fn digest_symbols(v: u64) -> Seq<char> {
    Seq::new(10, |k: int| ALPHABET[output_group(v, k)])
}

/// The digest of a cipher block.
pub open spec fn block_digest(l: u32, r: u32) -> Seq<char> {
    let (r0, r1) = final_perm(l, r);
    digest_symbols(output_value(r0, r1))
}

/// Masking a 64-bit word leaves a 6-bit index.
pub(crate) proof fn lemma_group_bound(x: u64)
    ensures
        x & 0x3f < 64,
{
    assert(x & 0x3f < 64) by (bit_vector);
}

/// Relies on `String::push`: the character is appended at the end.
#[verifier::external_body]
pub(crate) fn push_char(s: &mut String, c: char)
    ensures
        final(s)@ == old(s)@.push(c),
{
    s.push(c);
}

/// Applies the final permutation to a cipher block.
pub fn final_permutation(l: u32, r: u32) -> (out: (u32, u32))
    ensures
        out == final_perm(l, r),
{
    let mut r0: u32 = 0;
    let mut r1: u32 = 0;
    let mut i: usize = 0;
    while i < 4
        invariant
            i <= 4,
            (r0, r1) == final_perm_upto(l, r, i as int),
        decreases 4 - i,
    {
        let hi: u32 = 28 - 8 * i as u32;
        let lo: u32 = 24 - 8 * i as u32;
        proof {
            lemma_mask_bounds(l >> hi);
            lemma_mask_bounds(r >> hi);
            lemma_mask_bounds(l >> lo);
            lemma_mask_bounds(r >> lo);
        }
        r1 = r1 | (FP_MASKR[i][((l >> hi) & 0xf) as usize] | FP_MASKR[i + 4][((r >> hi) & 0xf)
            as usize]);
        r0 = r0 | (FP_MASKL[i][((l >> lo) & 0xf) as usize] | FP_MASKL[i + 4][((r >> lo) & 0xf)
            as usize]);
        i = i + 1;
    }
    (r0, r1)
}

/// Writes a cipher block as its ten-symbol digest.
pub fn encode(l: u32, r: u32) -> (s: String)
    ensures
        s@ == block_digest(l, r),
{
    let (r0, r1) = final_permutation(l, r);
    let v: u64 = ((r0 as u64) << 32) | (r1 as u64);
    let mut s = String::new();
    let mut k: usize = 0;
    while k < 10
        invariant
            k <= 10,
            v == output_value(r0, r1),
            (r0, r1) == final_perm(l, r),
            s@ == digest_symbols(v).take(k as int),
        decreases 10 - k,
    {
        let group: u64 = if k < 9 {
            v >> (52 - 6 * k as u64)
        } else {
            v << 2
        };
        proof {
            lemma_group_bound(group);
        }
        push_char(&mut s, ALPHABET[(group & 0x3f) as usize]);
        proof {
            assert(digest_symbols(v).take(k as int + 1) =~= digest_symbols(v).take(k as int).push(
                ALPHABET[output_group(v, k as int)],
            ));
        }
        k = k + 1;
    }
    assert(digest_symbols(v).take(10) =~= digest_symbols(v));
    s
}

} // verus!
