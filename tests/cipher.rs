use tripcode::cipher::encipher;
use tripcode::encode::{encode, final_permutation};
use tripcode::key::expand_key;
use tripcode::salt::{salt_bits, salt_of};

#[test]
fn pipeline_pieces_give_the_digest() {
    let mut kb = [0u8; 8];
    for (i, b) in "foofoofo".bytes().enumerate() {
        kb[i] = b << 1;
    }
    let ek = expand_key(&kb);
    let (l, r) = encipher(&ek, salt_bits(salt_of('o', 'o')));
    assert_eq!(encode(l, r), "vctoKCJ4Fk");
}

#[test]
fn subkeys_are_24_bits() {
    let ek = expand_key(&[0xfe; 8]);
    for j in 0..16 {
        assert!(ek.l[j] < (1 << 24));
        assert!(ek.r[j] < (1 << 24));
    }
    let zero = expand_key(&[0; 8]);
    assert!(zero.l.iter().all(|&k| k == 0));
    assert!(zero.r.iter().all(|&k| k == 0));
}

#[test]
fn final_permutation_of_zero_is_zero() {
    assert_eq!(final_permutation(0, 0), (0, 0));
    assert_eq!(encode(0, 0), "..........");
}
