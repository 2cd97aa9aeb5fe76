//! The pieces of the pattern search that a worker runs on each attempt:
//! candidate passwords from random samples, the pattern test on their
//! digests, and the attempt counters with their total.

use vstd::prelude::*;

use rand::rngs::SmallRng;
use rand::RngCore;

use crate::digest::{trip, tripcode};
use crate::encode::{lemma_group_bound, push_char};
use crate::tables::ALPHABET;

verus! {

/// A worker's random generator, carried through the library unopened.
#[verifier::external_type_specification]
#[verifier::external_body]
pub struct ExSmallRng(SmallRng);

/// Relies on `RngCore::next_u64` for `SmallRng`: draws the next 64-bit
/// sample. Nothing is known of its value.
#[verifier::external_body]
fn next_sample(rng: &mut SmallRng) -> u64 {
    rng.next_u64()
}

/// The candidate password of a 64-bit sample: byte `i` of the sample,
/// reduced to its low six bits, picks symbol `i` from the digest alphabet.
pub open spec fn sample_password(v: u64) -> Seq<char> {
    Seq::new(8, |i: int| ALPHABET[((v >> (8 * i) as u64) & 0x3f) as int])
}

/// `pat` occurs in `text` starting at position `i`.
pub open spec fn occurs_at(text: Seq<char>, pat: Seq<char>, i: int) -> bool {
    0 <= i && i + pat.len() <= text.len() && text.subrange(i, i + pat.len()) == pat
}

/// `pat` occurs somewhere in `text`.
pub open spec fn contains(text: Seq<char>, pat: Seq<char>) -> bool {
    exists|i: int| occurs_at(text, pat, i)
}

/// Some pattern of `pats` occurs in `text`.
pub open spec fn matches_any(text: Seq<char>, pats: Seq<Seq<char>>) -> bool {
    exists|k: int| 0 <= k < pats.len() && contains(text, #[trigger] pats[k])
}

/// The sum of a sequence of counters.
pub open spec fn total(counts: Seq<u64>) -> int
    decreases counts.len(),
{
    if counts.len() == 0 {
        0
    } else {
        total(counts.drop_last()) + counts.last() as int
    }
}

/// Writes the candidate password of a sample.
pub fn password_from_sample(v: u64) -> (s: String)
    ensures
        s@ == sample_password(v),
{
    let mut s = String::new();
    let mut i: u64 = 0;
    while i < 8
        invariant
            i <= 8,
            s@ == sample_password(v).take(i as int),
        decreases 8 - i,
    {
        proof {
            lemma_group_bound(v >> (8 * i));
        }
        push_char(&mut s, ALPHABET[((v >> (8 * i)) & 0x3f) as usize]);
        assert(sample_password(v).take(i as int + 1) =~= sample_password(v).take(i as int).push(
            ALPHABET[((v >> (8 * i) as u64) & 0x3f) as int],
        ));
        i = i + 1;
    }
    assert(sample_password(v).take(8) =~= sample_password(v));
    s
}

/// Draws a random candidate password: eight symbols of the digest alphabet.
pub fn rand_passwd(rng: &mut SmallRng) -> (s: String)
    ensures
        exists|v: u64| s@ == sample_password(v),
{
    let v = next_sample(rng);
    password_from_sample(v)
}

/// The characters of a string, one by one.
fn chars_of(s: &str) -> (r: Vec<char>)
    ensures
        r@ == s@,
{
    let n = s.unicode_len();
    let mut r: Vec<char> = Vec::new();
    let mut i: usize = 0;
    while i < n
        invariant
            i <= n,
            n == s@.len(),
            r@ == s@.take(i as int),
        decreases n - i,
    {
        r.push(s.get_char(i));
        assert(s@.take(i as int + 1) =~= s@.take(i as int).push(s@[i as int]));
        i = i + 1;
    }
    assert(s@.take(n as int) =~= s@);
    r
}

/// Whether `pat` occurs in `text` at position `i`.
fn occurs_at_exec(text: &Vec<char>, pat: &Vec<char>, i: usize) -> (r: bool)
    requires
        i + pat@.len() <= text@.len(),
    ensures
        r == occurs_at(text@, pat@, i as int),
{
    let text_len = text.len();
    let mut j: usize = 0;
    while j < pat.len()
        invariant
            j <= pat@.len(),
            text_len == text@.len(),
            i + pat@.len() <= text@.len(),
            forall|m: int| 0 <= m < j ==> text@[i + m] == pat@[m],
        decreases pat@.len() - j,
    {
        if text[i + j] != pat[j] {
            assert(text@.subrange(i as int, i + pat@.len())[j as int] != pat@[j as int]);
            return false;
        }
        j = j + 1;
    }
    assert(text@.subrange(i as int, i + pat@.len()) =~= pat@);
    true
}

/// Whether `pat` occurs anywhere in `text`.
fn contains_exec(text: &Vec<char>, pat: &Vec<char>) -> (r: bool)
    ensures
        r == contains(text@, pat@),
{
    if pat.len() > text.len() {
        return false;
    }
    let last = text.len() - pat.len();
    let mut i: usize = 0;
    loop
        invariant
            i <= last,
            last == text@.len() - pat@.len(),
            forall|m: int| 0 <= m < i ==> !occurs_at(text@, pat@, m),
        decreases last - i,
    {
        if occurs_at_exec(text, pat, i) {
            return true;
        }
        if i == last {
            return false;
        }
        i = i + 1;
    }
}

/// The patterns a search looks for, each held as its characters.
pub struct PatternSet {
    patterns: Vec<Vec<char>>,
}

impl View for PatternSet {
    type V = Seq<Seq<char>>;

    closed spec fn view(&self) -> Seq<Seq<char>> {
        Seq::new(self.patterns@.len(), |k: int| self.patterns@[k]@)
    }
}

impl PatternSet {
    /// The pattern set of a list of strings, in order.
    pub fn new(patterns: &Vec<String>) -> (r: PatternSet)
        ensures
            r@.len() == patterns@.len(),
            forall|k: int| 0 <= k < patterns@.len() ==> #[trigger] r@[k] == patterns@[k]@,
    {
        let mut held: Vec<Vec<char>> = Vec::new();
        let mut k: usize = 0;
        while k < patterns.len()
            invariant
                k <= patterns@.len(),
                held@.len() == k,
                forall|m: int| 0 <= m < k ==> #[trigger] held@[m]@ == patterns@[m]@,
            decreases patterns@.len() - k,
        {
            held.push(chars_of(patterns[k].as_str()));
            k = k + 1;
        }
        PatternSet { patterns: held }
    }

    /// Whether some pattern occurs in the digest.
    pub fn matches(&self, digest: &str) -> (r: bool)
        ensures
            r == matches_any(digest@, self@),
    {
        let text = chars_of(digest);
        let mut k: usize = 0;
        while k < self.patterns.len()
            invariant
                k <= self@.len(),
                text@ == digest@,
                forall|m: int| 0 <= m < k ==> !contains(digest@, #[trigger] self@[m]),
            decreases self@.len() - k,
        {
            if contains_exec(&text, &self.patterns[k]) {
                assert(contains(digest@, self@[k as int]));
                return true;
            }
            k = k + 1;
        }
        false
    }
}

/// One search worker's attempt counter.
pub struct Worker {
    attempts: u64,
}

impl View for Worker {
    type V = u64;

    closed spec fn view(&self) -> u64 {
        self.attempts
    }
}

impl Worker {
    /// A worker that has made no attempt.
    pub fn new() -> (w: Worker)
        ensures
            w@ == 0,
    {
        Worker { attempts: 0 }
    }

    /// The number of attempts made so far.
    pub fn attempts(&self) -> (r: u64)
        ensures
            r == self@,
    {
        self.attempts
    }

    /// Tries one password: counts the attempt and returns its digest when
    /// some pattern occurs in it.
    pub fn try_password(&mut self, patterns: &PatternSet, passwd: &str) -> (r: Option<String>)
        requires
            old(self)@ < u64::MAX,
        ensures
            final(self)@ == old(self)@ + 1,
            r is Some <==> matches_any(tripcode(passwd@), patterns@),
            r matches Some(d) ==> d@ == tripcode(passwd@),
    {
        let digest = trip(passwd);
        self.attempts = self.attempts + 1;
        if patterns.matches(digest.as_str()) {
            Some(digest)
        } else {
            None
        }
    }

    /// Tries the candidate password of one sample: counts the attempt and
    /// returns the password with its digest when some pattern occurs in the
    /// digest.
    pub fn search_sample(&mut self, patterns: &PatternSet, sample: u64) -> (r: Option<
        (String, String),
    >)
        requires
            old(self)@ < u64::MAX,
        ensures
            final(self)@ == old(self)@ + 1,
            r is Some <==> matches_any(tripcode(sample_password(sample)), patterns@),
            r matches Some(found) ==> found.0@ == sample_password(sample) && found.1@ == tripcode(
                sample_password(sample),
            ),
    {
        let passwd = password_from_sample(sample);
        match self.try_password(patterns, passwd.as_str()) {
            Some(digest) => Some((passwd, digest)),
            None => None,
        }
    }

    /// Tries one random candidate password: counts the attempt and returns
    /// the password with its digest when some pattern occurs in the digest.
    /// Whatever sample was drawn, the outcome is that of `search_sample` on it.
    pub fn search_step(&mut self, rng: &mut SmallRng, patterns: &PatternSet) -> (r: Option<
        (String, String),
    >)
        requires
            old(self)@ < u64::MAX,
        ensures
            final(self)@ == old(self)@ + 1,
            exists|v: u64|
                #![trigger sample_password(v)]
                (r is Some <==> matches_any(tripcode(sample_password(v)), patterns@)) && (r matches Some(
                    found,
                ) ==> found.0@ == sample_password(v) && found.1@ == tripcode(sample_password(v))),
    {
        let v = next_sample(rng);
        let r = self.search_sample(patterns, v);
        assert(sample_password(v) == sample_password(v));
        r
    }
}

/// The total of the workers' counters, or `None` when it does not fit in 64 bits.
pub fn total_attempts(counts: &Vec<u64>) -> (r: Option<u64>)
    ensures
        r matches Some(t) ==> t == total(counts@),
        r is None <==> total(counts@) > u64::MAX,
{
    let mut sum: u64 = 0;
    let mut i: usize = 0;
    while i < counts.len()
        invariant
            i <= counts@.len(),
            sum == total(counts@.take(i as int)),
        decreases counts@.len() - i,
    {
        assert(counts@.take(i as int + 1).drop_last() =~= counts@.take(i as int));
        if sum > u64::MAX - counts[i] {
            proof {
                lemma_total_prefix(counts@, i as int + 1);
            }
            return None;
        }
        sum = sum + counts[i];
        i = i + 1;
    }
    assert(counts@.take(counts@.len() as int) =~= counts@);
    Some(sum)
}

/// Counts are additive: the total of two groups of counters together is
/// the sum of their totals, so splitting attempts among workers in any way
/// leaves the total unchanged.
pub proof fn lemma_total_additive(a: Seq<u64>, b: Seq<u64>)
    ensures
        total(a + b) == total(a) + total(b),
    decreases b.len(),
{
    if b.len() == 0 {
        assert(a + b =~= a);
    } else {
        assert((a + b).drop_last() =~= a + b.drop_last());
        lemma_total_additive(a, b.drop_last());
    }
}

/// A prefix of counters never totals more than the whole.
proof fn lemma_total_prefix(counts: Seq<u64>, n: int)
    requires
        0 <= n <= counts.len(),
    ensures
        total(counts.take(n)) <= total(counts),
    decreases counts.len() - n,
{
    if n < counts.len() {
        lemma_total_prefix(counts, n + 1);
        assert(counts.take(n + 1).drop_last() =~= counts.take(n));
    } else {
        assert(counts.take(n) =~= counts);
    }
}

/// Attempts per second, or `None` when no whole second has elapsed.
pub fn throughput(total: u64, elapsed_secs: u64) -> (r: Option<u64>)
    ensures
        elapsed_secs == 0 ==> r is None,
        elapsed_secs > 0 ==> r == Some((total / elapsed_secs) as u64),
{
    if elapsed_secs == 0 {
        None
    } else {
        Some(total / elapsed_secs)
    }
}

/// The number of workers to start: the requested count, or one when none
/// was given or it was zero.
pub fn worker_count(requested: Option<usize>) -> (r: usize)
    ensures
        r == (match requested {
            Some(n) => if n >= 1 {
                n
            } else {
                1
            },
            None => 1,
        }),
{
    match requested {
        Some(n) => if n >= 1 {
            n
        } else {
            1
        },
        None => 1,
    }
}

} // verus!
