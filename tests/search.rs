use rand::rngs::SmallRng;
use rand::SeedableRng;
use tripcode::search::{
    password_from_sample, rand_passwd, throughput, total_attempts, worker_count, PatternSet,
    Worker,
};
use tripcode::trip;

const ALPHABET: &str = "./0123456789ABCDEFGHIJKLMNOPQRSTUVWXYZabcdefghijklmnopqrstuvwxyz";

fn patterns(list: &[&str]) -> PatternSet {
    let owned: Vec<String> = list.iter().map(|s| s.to_string()).collect();
    PatternSet::new(&owned)
}

#[test]
fn sample_bytes_pick_symbols() {
    assert_eq!(password_from_sample(0), "........");
    assert_eq!(password_from_sample(u64::MAX), "zzzzzzzz");
    assert_eq!(password_from_sample(0x0102030405060708), "6543210/");
    assert_eq!(password_from_sample(0xc0c0c0c0c0c0c0c0), "........");
}

#[test]
fn random_passwords_use_the_alphabet() {
    let mut rng = SmallRng::seed_from_u64(7);
    for _ in 0..20 {
        let p = rand_passwd(&mut rng);
        assert_eq!(p.len(), 8);
        assert!(p.chars().all(|c| ALPHABET.contains(c)));
    }
}

#[test]
fn pattern_found_in_digest() {
    let set = patterns(&["aaa"]);
    assert!(set.matches("xxaaayyyyy"));
    assert!(!set.matches("vctoKCJ4Fk"));
    assert!(patterns(&["zz", "toK"]).matches("vctoKCJ4Fk"));
    assert!(patterns(&["Fk"]).matches("vctoKCJ4Fk"));
    assert!(patterns(&["vc"]).matches("vctoKCJ4Fk"));
    assert!(!patterns(&["vctoKCJ4Fk!"]).matches("vctoKCJ4Fk"));
}

#[test]
fn no_patterns_never_match() {
    assert!(!patterns(&[]).matches("vctoKCJ4Fk"));
}

#[test]
fn empty_pattern_always_matches() {
    assert!(patterns(&[""]).matches("vctoKCJ4Fk"));
}

#[test]
fn matching_password_is_reported_once() {
    let set = patterns(&["toK"]);
    let mut worker = Worker::new();
    assert_eq!(worker.attempts(), 0);
    let found = worker.try_password(&set, "foofoofo");
    assert_eq!(found, Some("vctoKCJ4Fk".to_string()));
    assert_eq!(worker.attempts(), 1);
}

#[test]
fn non_matching_password_is_not_reported() {
    let set = patterns(&["aaa"]);
    let mut worker = Worker::new();
    assert_eq!(worker.try_password(&set, "foofoofo"), None);
    assert_eq!(worker.try_password(&set, "foofoofo"), None);
    assert_eq!(worker.attempts(), 2);
}

#[test]
fn search_step_reports_password_and_digest() {
    let mut rng = SmallRng::seed_from_u64(42);
    let set = patterns(&[""]);
    let mut worker = Worker::new();
    let (passwd, digest) = worker.search_step(&mut rng, &set).expect("empty pattern matches");
    assert_eq!(passwd.len(), 8);
    assert_eq!(digest, trip(&passwd));
    assert_eq!(worker.attempts(), 1);
}

#[test]
fn search_sample_tries_the_sample_password() {
    let mut worker = Worker::new();
    let found = worker.search_sample(&patterns(&[""]), 0);
    assert_eq!(found, Some(("........".to_string(), trip("........"))));
    assert_eq!(worker.search_sample(&patterns(&["!"]), 0), None);
    assert_eq!(worker.attempts(), 2);
}

#[test]
fn worker_counts_add_up() {
    let set = patterns(&["aaa"]);
    let mut rng = SmallRng::seed_from_u64(3);
    let mut single = Worker::new();
    for _ in 0..12 {
        single.search_step(&mut rng, &set);
    }
    let mut counts = Vec::new();
    for n in [5u64, 4, 3].iter() {
        let mut w = Worker::new();
        for _ in 0..*n {
            w.search_step(&mut rng, &set);
        }
        counts.push(w.attempts());
    }
    assert_eq!(total_attempts(&counts), Some(single.attempts()));
}

#[test]
fn totals() {
    assert_eq!(total_attempts(&vec![]), Some(0));
    assert_eq!(total_attempts(&vec![1, 2, 3]), Some(6));
    assert_eq!(total_attempts(&vec![u64::MAX, 0]), Some(u64::MAX));
    assert_eq!(total_attempts(&vec![u64::MAX, 1]), None);
}

#[test]
fn throughput_guards_zero_elapsed() {
    assert_eq!(throughput(10, 0), None);
    assert_eq!(throughput(0, 0), None);
    assert_eq!(throughput(10, 3), Some(3));
    assert_eq!(throughput(0, 5), Some(0));
}

#[test]
fn worker_count_is_at_least_one() {
    assert_eq!(worker_count(None), 1);
    assert_eq!(worker_count(Some(0)), 1);
    assert_eq!(worker_count(Some(4)), 4);
}
