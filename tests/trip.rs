use tripcode::trip;

const ALPHABET: &str = "./0123456789ABCDEFGHIJKLMNOPQRSTUVWXYZabcdefghijklmnopqrstuvwxyz";

fn is_digest(d: &str) -> bool {
    d.chars().count() == 10 && d.chars().all(|c| ALPHABET.contains(c))
}

#[test]
fn matches_unix() {
    assert_eq!(trip("foofoofo"), "vctoKCJ4Fk");
}

#[test]
fn eight_sig_chars() {
    assert_eq!(trip("foofoofo"), trip("foofoofoo"));
}

#[test]
fn long_suffix_is_ignored() {
    assert_eq!(trip("foofoofo"), trip("foofoofo and a long tail"));
    assert_eq!(trip("abcdefgh1"), trip("abcdefgh2"));
}

#[test]
fn bytes_past_eight_ignored_with_multibyte_prefix() {
    // "é" takes two bytes: the first eight bytes are "aébcde" plus one byte.
    assert_eq!(trip("aébcdefX"), trip("aébcdefY"));
}

#[test]
fn repeated_calls_agree() {
    let first = trip("repeatme");
    for _ in 0..5 {
        assert_eq!(trip("repeatme"), first);
    }
}

#[test]
fn single_byte_changes_change_the_digest() {
    let bases = ["foofoofo", "password", "Zq9/.xw3"];
    let mut changed = 0;
    let mut tried = 0;
    for base in bases.iter() {
        let original = trip(base);
        for pos in 0..8 {
            let mut bytes: Vec<u8> = base.bytes().collect();
            bytes[pos] = if bytes[pos] == b'k' { b'm' } else { b'k' };
            let altered = String::from_utf8(bytes).unwrap();
            tried += 1;
            if trip(&altered) != original {
                changed += 1;
            }
        }
    }
    assert!(changed * 10 >= tried * 9, "{} of {} changed", changed, tried);
}

#[test]
fn empty_and_short_passwords_give_digests() {
    for p in ["", "a", "ab", "abc"].iter() {
        assert!(is_digest(&trip(p)), "{:?}", p);
    }
    // Without a second and third character the fallback pair is the salt.
    assert_eq!(trip(""), trip("\u{0}"));
}

#[test]
fn non_ascii_passwords_give_digests() {
    assert!(is_digest(&trip("ééééé")));
    assert!(is_digest(&trip("\u{10FFFF}\u{80}\u{7FF}")));
}

#[test]
fn first_character_feeds_the_key() {
    assert_ne!(trip("xabcdefg"), trip("yabcdefg"));
}
