//! Salt derivation: two characters of the password, brought into the salt
//! alphabet, read as a 12-bit value, and spread into a 24-bit swap mask.

use vstd::prelude::*;

verus! {

/// The characters that stand in for missing second and third password characters.
pub open spec fn fallback() -> Seq<char> {
    seq!['H', '.']
}

/// The characters the salt is taken from: the password without its first
/// character, followed by the fallback pair.
pub open spec fn salt_source(p: Seq<char>) -> Seq<char> {
    (if p.len() == 0 { p } else { p.drop_first() }) + fallback()
}

/// Salt symbol of an arbitrary character: letters, digits and `/` stay,
/// `:` to `@` become `A` to `G`, `[` to the backtick become `a` to `f`,
/// anything else becomes `.`.
pub open spec fn salt_symbol(c: char) -> char {
    if ('0' <= c && c <= '9') || ('A' <= c && c <= 'Z') || ('a' <= c && c <= 'z') || c == '/' {
        c
    } else if c == ':' {
        'A'
    } else if c == ';' {
        'B'
    } else if c == '<' {
        'C'
    } else if c == '=' {
        'D'
    } else if c == '>' {
        'E'
    } else if c == '?' {
        'F'
    } else if c == '@' {
        'G'
    } else if c == '[' {
        'a'
    } else if c == '\\' {
        'b'
    } else if c == ']' {
        'c'
    } else if c == '^' {
        'd'
    } else if c == '_' {
        'e'
    } else if c == '`' {
        'f'
    } else {
        '.'
    }
}

/// The pair of salt symbols of a password.
pub open spec fn salt_pair(p: Seq<char>) -> (char, char) {
    let s = salt_source(p);
    (salt_symbol(s[0]), salt_symbol(s[1]))
}

/// 6-bit value of a character: `.` and `/` are 0 and 1, `0`..`9` are 2 to 11,
/// `A`..`Z` are 12 to 37, `a`..`z` are 38 to 63. Other characters take the
/// offset of the range below them, modulo 64, with codes from 0x80 up read
/// as signed bytes.
pub open spec fn symbol_value(ch: char) -> u32 {
    let code = ch as int;
    let sch = if code < 0x80 { code } else { code - 0x100 };
    let v = if sch >= 'a' as int {
        sch - ('a' as int - 38)
    } else if sch >= 'A' as int {
        sch - ('A' as int - 12)
    } else {
        sch - '.' as int
    };
    (v % 64) as u32
}

/// The 12-bit salt: the second symbol's value above the first one's.
pub open spec fn salt_value(first: char, second: char) -> u32 {
    (symbol_value(second) << 6u32) | symbol_value(first)
}

/// Mask built from the low `n` salt bits: salt bit `i` sets bit `23 - i`.
pub open spec fn salt_mask_upto(salt: u32, n: nat) -> u32
    decreases n,
{
    if n == 0 {
        0
    } else {
        let i = (n - 1) as u32;
        let prev = salt_mask_upto(salt, (n - 1) as nat);
        if salt & (1u32 << i) != 0 {
            prev | (0x800000u32 >> i)
        } else {
            prev
        }
    }
}

/// The 24-bit swap mask of a salt: its low 24 bits in reverse order.
pub open spec fn salt_mask(salt: u32) -> u32 {
    salt_mask_upto(salt, 24)
}

/// The fallback pair fills in exactly the characters a password lacks: a
/// password of three or more characters salts with its second and third,
/// one of two characters with its second and `H`, and a shorter one with
/// `H` and `.`.
pub proof fn lemma_fallback_fills_missing(p: Seq<char>)
    ensures
        p.len() >= 3 ==> salt_pair(p) == (salt_symbol(p[1]), salt_symbol(p[2])),
        p.len() == 2 ==> salt_pair(p) == (salt_symbol(p[1]), 'H'),
        p.len() <= 1 ==> salt_pair(p) == ('H', '.'),
{
    let s = salt_source(p);
    if p.len() == 0 {
        assert(s =~= fallback());
    } else {
        assert(s =~= p.drop_first() + fallback());
    }
}

/// Brings one character into the salt alphabet.
pub fn salt_symbol_of(c: char) -> (r: char)
    ensures
        r == salt_symbol(c),
{
    if ('0' <= c && c <= '9') || ('A' <= c && c <= 'Z') || ('a' <= c && c <= 'z') || c == '/' {
        c
    } else if c == ':' {
        'A'
    } else if c == ';' {
        'B'
    } else if c == '<' {
        'C'
    } else if c == '=' {
        'D'
    } else if c == '>' {
        'E'
    } else if c == '?' {
        'F'
    } else if c == '@' {
        'G'
    } else if c == '[' {
        'a'
    } else if c == '\\' {
        'b'
    } else if c == ']' {
        'c'
    } else if c == '^' {
        'd'
    } else if c == '_' {
        'e'
    } else if c == '`' {
        'f'
    } else {
        '.'
    }
}

/// Decodes one salt symbol into its 6-bit value.
pub fn ascii_to_bin(ch: char) -> (r: u32)
    ensures
        r == symbol_value(ch),
        r < 64,
{
    let code: i64 = ch as u32 as i64;
    let sch: i64 = if code < 0x80 {
        code
    } else {
        code - 0x100
    };
    let v: i64 = if sch >= 'a' as u32 as i64 {
        sch - ('a' as u32 as i64 - 38)
    } else if sch >= 'A' as u32 as i64 {
        sch - ('A' as u32 as i64 - 12)
    } else {
        sch - '.' as u32 as i64
    };
    // `v` is at least -174, so adding a multiple of 64 makes it non-negative
    // without changing its remainder.
    let shifted: i64 = v + 256;
    assert(shifted % 64 == v % 64);
    (shifted % 64) as u32
}

/// The two salt symbols of a password: its second and third characters,
/// with the fallback pair filling in for those it lacks.
pub fn derive_salt(passwd: &str) -> (r: (char, char))
    ensures
        r == salt_pair(passwd@),
{
    let n = passwd.unicode_len();
    let c0 = if n >= 2 {
        passwd.get_char(1)
    } else {
        'H'
    };
    let c1 = if n >= 3 {
        passwd.get_char(2)
    } else if n == 2 {
        'H'
    } else {
        '.'
    };
    proof {
        let s = salt_source(passwd@);
        if n == 0 {
            assert(s =~= fallback());
        } else {
            assert(s =~= passwd@.drop_first() + fallback());
        }
    }
    (salt_symbol_of(c0), salt_symbol_of(c1))
}

/// The 12-bit salt of a pair of salt symbols.
pub fn salt_of(first: char, second: char) -> (r: u32)
    ensures
        r == salt_value(first, second),
{
    (ascii_to_bin(second) << 6) | ascii_to_bin(first)
}

/// Spreads a salt into its swap mask.
pub fn salt_bits(salt: u32) -> (r: u32)
    ensures
        r == salt_mask(salt),
{
    let mut bits: u32 = 0;
    let mut i: u32 = 0;
    while i < 24
        invariant
            i <= 24,
            bits == salt_mask_upto(salt, i as nat),
        decreases 24 - i,
    {
        if salt & (1u32 << i) != 0 {
            bits = bits | (0x800000u32 >> i);
        }
        i = i + 1;
    }
    bits
}

} // verus!
