//! The cipher core: 25 passes of the 16-round salted Feistel network,
//! starting from an all-zero block.

use vstd::prelude::*;

use crate::key::{lemma_mask_bounds, ExpandedKey};
use crate::tables::PSBOX;

verus! {

/// Left 24 bits of the expansion of a right half.
pub open spec fn expand_left(r: u32) -> u32 {
    ((r & 0x00000001) << 23u32) | ((r & 0xf8000000) >> 9u32) | ((r & 0x1f800000) >> 11u32) | ((r
        & 0x01f80000) >> 13u32) | ((r & 0x001f8000) >> 15u32)
}

/// Right 24 bits of the expansion of a right half.
pub open spec fn expand_right(r: u32) -> u32 {
    ((r & 0x0001f800) << 7u32) | ((r & 0x00001f80) << 5u32) | ((r & 0x000001f8) << 3u32) | ((r
        & 0x0000001f) << 1u32) | ((r & 0x80000000) >> 31u32)
}

/// The 6-bit group of `w` that starts at bit `at`.
pub open spec fn six_bits(w: u32, at: u32) -> int {
    ((w >> at) & 0x3f) as int
}

/// The eight S-box outputs of two 24-bit groups, combined.
pub open spec fn substitute(a: u32, b: u32) -> u32 {
    PSBOX[0][six_bits(a, 18)] | PSBOX[1][six_bits(a, 12)] | PSBOX[2][six_bits(a, 6)]
        | PSBOX[3][six_bits(a, 0)] | PSBOX[4][six_bits(b, 18)] | PSBOX[5][six_bits(b, 12)]
        | PSBOX[6][six_bits(b, 6)] | PSBOX[7][six_bits(b, 0)]
}

/// The round function: the expansion of `r`, with the bits selected by the
/// salt mask swapped between its halves, mixed with the subkey and
/// substituted.
pub open spec fn round_function(r: u32, kl: u32, kr: u32, saltbits: u32) -> u32 {
    let a = expand_left(r);
    let b = expand_right(r);
    let swap = (a ^ b) & saltbits;
    substitute(a ^ (swap ^ kl), b ^ (swap ^ kr))
}

/// The state after the first `n` Feistel steps of one pass over the subkeys.
pub open spec fn feistel_steps(
    kl: Seq<u32>,
    kr: Seq<u32>,
    saltbits: u32,
    l: u32,
    r: u32,
    n: int,
) -> (u32, u32)
    decreases n,
{
    if n <= 0 {
        (l, r)
    } else {
        let (l1, r1) = feistel_steps(kl, kr, saltbits, l, r, n - 1);
        (r1, round_function(r1, kl[n - 1], kr[n - 1], saltbits) ^ l1)
    }
}

/// The state after `n` passes, each a full pass over the sixteen subkeys
/// followed by a swap of the halves, starting from zero.
pub open spec fn encipher_passes(kl: Seq<u32>, kr: Seq<u32>, saltbits: u32, n: int) -> (u32, u32)
    decreases n,
{
    if n <= 0 {
        (0, 0)
    } else {
        let (l, r) = encipher_passes(kl, kr, saltbits, n - 1);
        let (l2, r2) = feistel_steps(kl, kr, saltbits, l, r, 16);
        (r2, l2)
    }
}

/// One application of the round function.
fn feistel(r: u32, kl: u32, kr: u32, saltbits: u32) -> (f: u32)
    ensures
        f == round_function(r, kl, kr, saltbits),
{
    let mut a = ((r & 0x00000001) << 23) | ((r & 0xf8000000) >> 9) | ((r & 0x1f800000) >> 11) | ((r
        & 0x01f80000) >> 13) | ((r & 0x001f8000) >> 15);
    let mut b = ((r & 0x0001f800) << 7) | ((r & 0x00001f80) << 5) | ((r & 0x000001f8) << 3) | ((r
        & 0x0000001f) << 1) | ((r & 0x80000000) >> 31);
    let swap = (a ^ b) & saltbits;
    a = a ^ (swap ^ kl);
    b = b ^ (swap ^ kr);
    proof {
        lemma_mask_bounds(a >> 18u32);
        lemma_mask_bounds(a >> 12u32);
        lemma_mask_bounds(a >> 6u32);
        lemma_mask_bounds(a >> 0u32);
        lemma_mask_bounds(b >> 18u32);
        lemma_mask_bounds(b >> 12u32);
        lemma_mask_bounds(b >> 6u32);
        lemma_mask_bounds(b >> 0u32);
    }
    PSBOX[0][((a >> 18) & 0x3f) as usize] | PSBOX[1][((a >> 12) & 0x3f) as usize] | PSBOX[2][((a
        >> 6) & 0x3f) as usize] | PSBOX[3][((a >> 0) & 0x3f) as usize] | PSBOX[4][((b >> 18)
        & 0x3f) as usize] | PSBOX[5][((b >> 12) & 0x3f) as usize] | PSBOX[6][((b >> 6) & 0x3f)
        as usize] | PSBOX[7][((b >> 0) & 0x3f) as usize]
}

/// Runs the 25 passes of the cipher under an expanded key and a salt mask,
/// returning the block before its final permutation.
pub fn encipher(ek: &ExpandedKey, saltbits: u32) -> (out: (u32, u32))
    ensures
        out == encipher_passes(ek.l@, ek.r@, saltbits, 25),
{
    let mut l: u32 = 0;
    let mut r: u32 = 0;
    let mut pass: usize = 0;
    while pass < 25
        invariant
            pass <= 25,
            (l, r) == encipher_passes(ek.l@, ek.r@, saltbits, pass as int),
        decreases 25 - pass,
    {
        let ghost start = (l, r);
        let mut j: usize = 0;
        while j < 16
            invariant
                j <= 16,
                (l, r) == feistel_steps(ek.l@, ek.r@, saltbits, start.0, start.1, j as int),
            decreases 16 - j,
        {
            let f = feistel(r, ek.l[j], ek.r[j], saltbits) ^ l;
            l = r;
            r = f;
            j = j + 1;
        }
        let t = l;
        l = r;
        r = t;
        pass = pass + 1;
    }
    (l, r)
}

} // verus!
