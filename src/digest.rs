//! The tripcode of a password: key schedule, salt, cipher and encoder put
//! together.

use vstd::prelude::*;
use vstd::utf8::{
    char_is_scalar, char_u32_cast, decode_first_scalar, encode_scalar, encode_utf8,
    encode_utf8_first_scalar, is_leading_byte_width_1,
};

use crate::cipher::{encipher, encipher_passes};
use crate::encode::{block_digest, encode};
use crate::key::{expand_key, key_block, subkeys_left, subkeys_right};
use crate::salt::{
    derive_salt, fallback, salt_bits, salt_mask, salt_of, salt_pair, salt_source, salt_symbol,
    salt_value,
};

verus! {

/// The tripcode of a password given as characters: its key block is taken
/// from the password's UTF-8 bytes, its salt from its characters.
pub open spec fn tripcode(p: Seq<char>) -> Seq<char> {
    let kb = key_block(encode_utf8(p));
    let (first, second) = salt_pair(p);
    let saltbits = salt_mask(salt_value(first, second));
    let (l, r) = encipher_passes(subkeys_left(kb), subkeys_right(kb), saltbits, 25);
    block_digest(l, r)
}

/// The ten-character tripcode of a password. Only the first eight bytes
/// of the password enter the key, and its second and third characters the
/// salt.
pub fn trip(passwd: &str) -> (r: String)
    ensures
        r@ == tripcode(passwd@),
{
    let bytes = passwd.as_bytes();
    let mut kb: [u8; 8] = [0u8; 8];
    let mut i: usize = 0;
    while i < 8 && i < bytes.len()
        invariant
            i <= 8,
            i <= bytes@.len(),
            bytes@ == encode_utf8(passwd@),
            forall|j: int| 0 <= j < i ==> kb[j] == bytes@[j] << 1u8,
            forall|j: int| i <= j < 8 ==> kb[j] == 0u8,
        decreases 8 - i,
    {
        kb[i] = bytes[i] << 1;
        i = i + 1;
    }
    assert(kb@ =~= key_block(encode_utf8(passwd@)));
    let ek = expand_key(&kb);
    let (first, second) = derive_salt(passwd);
    let saltbits = salt_bits(salt_of(first, second));
    let (l, r) = encipher(&ek, saltbits);
    encode(l, r)
}

/// The UTF-8 encoding of two character sequences one after the other is
/// the encoding of the first followed by that of the second.
proof fn lemma_encode_utf8_concat(a: Seq<char>, b: Seq<char>)
    ensures
        encode_utf8(a + b) == encode_utf8(a) + encode_utf8(b),
    decreases a.len(),
{
    if a.len() == 0 {
        assert(a + b =~= b);
        assert(encode_utf8(a) + encode_utf8(b) =~= encode_utf8(b));
    } else {
        assert((a + b).drop_first() =~= a.drop_first() + b);
        assert((a + b)[0] == a[0]);
        lemma_encode_utf8_concat(a.drop_first(), b);
        let head = encode_scalar(a[0] as u32);
        assert(head + (encode_utf8(a.drop_first()) + encode_utf8(b)) =~= (head + encode_utf8(
            a.drop_first(),
        )) + encode_utf8(b));
    }
}

/// Each character takes at least one byte.
proof fn lemma_encode_utf8_len(a: Seq<char>)
    ensures
        encode_utf8(a).len() >= a.len(),
    decreases a.len(),
{
    if a.len() > 0 {
        lemma_encode_utf8_len(a.drop_first());
    }
}

/// Only the first eight characters of a password matter: appending
/// anything to a password of eight or more characters leaves its tripcode
/// unchanged.
pub proof fn lemma_suffix_beyond_eight_ignored(p: Seq<char>, suffix: Seq<char>)
    requires
        p.len() >= 8,
    ensures
        tripcode(p + suffix) == tripcode(p),
{
    lemma_encode_utf8_concat(p, suffix);
    lemma_encode_utf8_len(p);
    let b = encode_utf8(p);
    assert(key_block(b + encode_utf8(suffix)) =~= key_block(b));
    assert(salt_source(p + suffix)[0] == salt_source(p)[0]);
    assert(salt_source(p + suffix)[1] == salt_source(p)[1]);
}

/// Two encodings that start with the same byte start with characters of
/// the same width and the same salt symbol.
proof fn lemma_same_leading_byte(p: Seq<char>, q: Seq<char>)
    requires
        p.len() > 0,
        q.len() > 0,
        encode_utf8(p)[0] == encode_utf8(q)[0],
    ensures
        encode_scalar(p[0] as u32).len() == encode_scalar(q[0] as u32).len(),
        1 <= encode_scalar(p[0] as u32).len() <= 4,
        salt_symbol(p[0]) == salt_symbol(q[0]),
{
    encode_utf8_first_scalar(p);
    encode_utf8_first_scalar(q);
    let bp = encode_utf8(p);
    let bq = encode_utf8(q);
    if is_leading_byte_width_1(bp[0]) {
        assert(decode_first_scalar(bp) == decode_first_scalar(bq));
        char_u32_cast(p[0], p[0] as u32);
        char_u32_cast(q[0], q[0] as u32);
    } else {
        char_is_scalar(p[0]);
        char_is_scalar(q[0]);
    }
}

/// The encoding of a non-empty sequence is that of its first character
/// followed by that of the rest.
proof fn lemma_encode_utf8_first(p: Seq<char>)
    requires
        p.len() > 0,
    ensures
        encode_utf8(p) == encode_scalar(p[0] as u32) + encode_utf8(p.drop_first()),
{
}

/// Bytes past the eighth do not matter: two passwords whose UTF-8
/// encodings are at least eight bytes long and agree on their first eight
/// bytes have the same tripcode. The one exception: when the first two
/// characters take four bytes each, the third character, which gives the
/// second salt symbol, starts at the ninth byte, and must then give the
/// same salt symbol in both.
pub proof fn lemma_bytes_beyond_eight_ignored(p: Seq<char>, q: Seq<char>)
    requires
        encode_utf8(p).len() >= 8,
        encode_utf8(q).len() >= 8,
        encode_utf8(p).take(8) == encode_utf8(q).take(8),
        encode_scalar(p[0] as u32).len() + encode_scalar(p[1] as u32).len() < 8 || salt_pair(p).1
            == salt_pair(q).1,
    ensures
        tripcode(p) == tripcode(q),
{
    let bp = encode_utf8(p);
    let bq = encode_utf8(q);
    assert forall|i: int| 0 <= i < 8 implies bp[i] == bq[i] by {
        assert(bp.take(8)[i] == bq.take(8)[i]);
    }
    assert(key_block(bp) =~= key_block(bq));
    assert(p.len() > 0 && q.len() > 0);
    lemma_encode_utf8_first(p);
    lemma_encode_utf8_first(q);
    lemma_same_leading_byte(p, q);
    let w0 = encode_scalar(p[0] as u32).len();
    let p1 = p.drop_first();
    let q1 = q.drop_first();
    assert(p1.len() > 0 && q1.len() > 0);
    assert(encode_utf8(p1)[0] == bp[w0 as int]);
    assert(encode_utf8(q1)[0] == bq[w0 as int]);
    lemma_encode_utf8_first(p1);
    lemma_encode_utf8_first(q1);
    lemma_same_leading_byte(p1, q1);
    let w1 = encode_scalar(p1[0] as u32).len();
    assert(salt_source(p) =~= p1 + fallback());
    assert(salt_source(q) =~= q1 + fallback());
    assert(salt_symbol(salt_source(p)[0]) == salt_symbol(salt_source(q)[0]));
    if w0 + w1 < 8 {
        let p2 = p1.drop_first();
        let q2 = q1.drop_first();
        assert(p2.len() > 0 && q2.len() > 0);
        assert(encode_utf8(p2)[0] == bp[(w0 + w1) as int]);
        assert(encode_utf8(q2)[0] == bq[(w0 + w1) as int]);
        lemma_same_leading_byte(p2, q2);
        assert(salt_symbol(salt_source(p)[1]) == salt_symbol(salt_source(q)[1]));
    }
    assert(salt_pair(p) == salt_pair(q));
}

/// The tripcode is a function of the password alone: equal passwords,
/// whenever and wherever they are digested, give equal tripcodes.
pub proof fn lemma_tripcode_deterministic(p: Seq<char>, q: Seq<char>)
    requires
        p == q,
    ensures
        tripcode(p) == tripcode(q),
{
}

} // verus!
