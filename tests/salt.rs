use tripcode::salt::{ascii_to_bin, derive_salt, salt_bits, salt_of, salt_symbol_of};

#[test]
fn salt_of_two_characters_takes_fallback() {
    assert_eq!(derive_salt("ab"), ('b', 'H'));
}

#[test]
fn salt_of_short_passwords() {
    assert_eq!(derive_salt(""), ('H', '.'));
    assert_eq!(derive_salt("a"), ('H', '.'));
    assert_eq!(derive_salt("abc"), ('b', 'c'));
    assert_eq!(derive_salt("abcdef"), ('b', 'c'));
}

#[test]
fn salt_symbols_are_canonicalised() {
    assert_eq!(derive_salt("x:["), ('A', 'a'));
    assert_eq!(derive_salt("x@`"), ('G', 'f'));
    assert_eq!(derive_salt("x é"), ('.', '.'));
    assert_eq!(salt_symbol_of('/'), '/');
    assert_eq!(salt_symbol_of('7'), '7');
    assert_eq!(salt_symbol_of(';'), 'B');
    assert_eq!(salt_symbol_of('\\'), 'b');
    assert_eq!(salt_symbol_of('~'), '.');
    assert_eq!(salt_symbol_of('.'), '.');
}

#[test]
fn symbol_values() {
    assert_eq!(ascii_to_bin('.'), 0);
    assert_eq!(ascii_to_bin('/'), 1);
    assert_eq!(ascii_to_bin('0'), 2);
    assert_eq!(ascii_to_bin('9'), 11);
    assert_eq!(ascii_to_bin('A'), 12);
    assert_eq!(ascii_to_bin('Z'), 37);
    assert_eq!(ascii_to_bin('a'), 38);
    assert_eq!(ascii_to_bin('z'), 63);
}

#[test]
fn salt_value_puts_second_symbol_high() {
    assert_eq!(salt_of('a', 'b'), 39 * 64 + 38);
    assert_eq!(salt_of('.', '.'), 0);
    assert_eq!(salt_of('z', 'z'), 0xfff);
}

#[test]
fn salt_mask_reverses_low_bits() {
    assert_eq!(salt_bits(0), 0);
    assert_eq!(salt_bits(1), 0x800000);
    assert_eq!(salt_bits(0x800000), 1);
    assert_eq!(salt_bits(0xfff), 0xfff000);
    assert_eq!(salt_bits(0xff000000), 0);
}
