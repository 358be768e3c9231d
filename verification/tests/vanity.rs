use std::sync::atomic::{AtomicBool, AtomicU64, Ordering};

use vanity_search::alphabet::{alphabet_char, first_invalid_char, str_starts_with};
use vanity_search::counter::{flush_batch, read_total};
use vanity_search::plan::{build_prefix, half_at_least_one, plan_from_args, worker_count, Plan};
use vanity_search::progress::{pow32_saturating, progress_line, sec_to_centi_min};
use vanity_search::text::{pad2, render_centi, u128_to_decimal};
use vanity_search::worker::{fresh_candidate, result_block, run_worker, Candidate, WorkerConfig};

const CHARSET: [char; 32] = [
    'q', 'p', 'z', 'r', 'y', '9', 'x', '8', 'g', 'f', '2', 't', 'v', 'd', 'w', '0', 's', '3', 'j',
    'n', '5', '4', 'k', 'h', 'c', 'e', '6', 'm', 'u', 'a', '7', 'l',
];

fn args_of(parts: &[&str]) -> Vec<String> {
    parts.iter().map(|s| s.to_string()).collect()
}

#[test]
fn alphabet_matches_charset() {
    for c in CHARSET {
        assert!(alphabet_char(c));
    }
    for c in ['b', 'i', 'o', '1', '!', 'A', 'Q', ' ', '-'] {
        assert!(!alphabet_char(c));
    }
}

#[test]
fn valid_suffixes_accepted_unmodified() {
    // every alphabet-valid suffix yields the fixed leading literal plus the
    // suffix, byte for byte
    let all: String = CHARSET.iter().collect();
    for suffix in ["zz", "", "q", "qpzry9x8gf", all.as_str()] {
        match plan_from_args(&args_of(&["prog", suffix])) {
            Plan::Run(prefix) => assert_eq!(prefix, format!("bc1q{}", suffix)),
            _ => panic!("valid suffix {:?} was not accepted", suffix),
        }
    }
}

#[test]
fn invalid_suffix_rejected_with_first_offender() {
    match plan_from_args(&args_of(&["prog", "zz!a"])) {
        Plan::InvalidChar(c) => assert_eq!(c, '!'),
        _ => panic!("invalid suffix was accepted"),
    }
    // 'b' is outside the 32-symbol alphabet and comes before '!'
    match plan_from_args(&args_of(&["prog", "ab!"])) {
        Plan::InvalidChar(c) => assert_eq!(c, 'b'),
        _ => panic!("invalid suffix was accepted"),
    }
}

#[test]
fn bang_suffix_rejected() {
    match plan_from_args(&args_of(&["prog", "!"])) {
        Plan::InvalidChar(c) => assert_eq!(c, '!'),
        _ => panic!("'!' was not rejected"),
    }
}

#[test]
fn missing_argument_gives_usage() {
    assert!(matches!(plan_from_args(&args_of(&["prog"])), Plan::Usage));
    assert!(matches!(plan_from_args(&Vec::new()), Plan::Usage));
}

#[test]
fn first_invalid_char_cases() {
    assert_eq!(first_invalid_char(""), None);
    assert_eq!(first_invalid_char("qpzry9x8gf2tvdw0s3jn54khce6mua7l"), None);
    assert_eq!(first_invalid_char("0o"), Some('o'));
}

#[test]
fn prefix_of_empty_suffix_is_leading_literal() {
    assert_eq!(build_prefix(""), "bc1q");
    assert_eq!(build_prefix("zz"), "bc1qzz");
}

#[test]
fn starts_with_cases() {
    assert!(str_starts_with("bc1qzz7", "bc1qzz"));
    assert!(str_starts_with("bc1qzz", "bc1qzz"));
    assert!(!str_starts_with("bc1qzx7", "bc1qzz"));
    assert!(!str_starts_with("bc1q", "bc1qzz"));
    assert!(str_starts_with("anything", ""));
}

#[test]
fn counter_never_loses_an_increment() {
    // 4 workers, each flushing a batch of 10000 exactly 5 times, in a
    // round-robin interleaving: the final value is exactly 4 * 5 * 10000,
    // and the counter never decreases along the way
    let counter = AtomicU64::new(0);
    let mut last = 0u64;
    for _round in 0..5 {
        for _worker in 0..4 {
            flush_batch(&counter, 10000);
            let now = read_total(&counter);
            assert!(now >= last);
            last = now;
        }
    }
    assert_eq!(read_total(&counter), 4 * 5 * 10000);
}

#[test]
fn preset_stop_flag_stops_within_one_batch() {
    // a worker that starts with the flag already raised terminates at its
    // first batch boundary without announcing anything
    let counter = AtomicU64::new(0);
    let flag = AtomicBool::new(true);
    let cfg = WorkerConfig {
        reporter: false,
        batch: 10,
        report_batches: 10,
        prefix: "bc1qzzzzzzzzzz".to_string(),
    };
    let found = run_worker(&cfg, &counter, &flag);
    assert!(found.is_none());
    // it stopped before flushing the batch it was in
    assert_eq!(read_total(&counter), 0);
}

#[test]
fn candidates_are_fresh_and_well_formed() {
    let mut wifs: Vec<String> = Vec::new();
    for _ in 0..200 {
        let c = fresh_candidate();
        assert_eq!(c.address.chars().count(), 42);
        assert!(c.address.starts_with("bc1q"));
        assert!(!wifs.contains(&c.wif));
        wifs.push(c.wif);
    }
}

#[test]
fn search_for_zz_terminates_with_matching_address() {
    let args = args_of(&["prog", "zz"]);
    let prefix = match plan_from_args(&args) {
        Plan::Run(p) => p,
        _ => panic!("suffix zz was not accepted"),
    };
    assert_eq!(prefix, "bc1qzz");
    let counter = AtomicU64::new(0);
    let flag = AtomicBool::new(false);
    let cfg = WorkerConfig::new(prefix, false);
    let found = run_worker(&cfg, &counter, &flag).expect("search must find a match");
    assert!(found.address.starts_with("bc1qzz"));
    assert_eq!(found.address.chars().count(), 42);
    assert!(!found.wif.is_empty());
    // the matching worker raised the stop flag for everyone else
    assert!(flag.load(Ordering::SeqCst));
}

#[test]
fn decimal_rendering_is_exact() {
    assert_eq!(u128_to_decimal(0), "0");
    assert_eq!(u128_to_decimal(7), "7");
    assert_eq!(u128_to_decimal(1234), "1234");
    assert_eq!(u128_to_decimal(u128::MAX), "340282366920938463463374607431768211455");
    assert_eq!(pad2(0), "00");
    assert_eq!(pad2(5), "05");
    assert_eq!(pad2(99), "99");
    assert_eq!(render_centi(0), "0.00");
    assert_eq!(render_centi(5), "0.05");
    assert_eq!(render_centi(123), "1.23");
    assert_eq!(render_centi(100), "1.00");
}

#[test]
fn search_space_is_a_power_of_32() {
    assert_eq!(pow32_saturating(0), 1);
    assert_eq!(pow32_saturating(1), 32);
    assert_eq!(pow32_saturating(2), 1024);
    assert_eq!(pow32_saturating(25), 1u128 << 125);
    // 32^26 no longer fits: the estimate saturates
    assert_eq!(pow32_saturating(26), u128::MAX);
    assert_eq!(pow32_saturating(100), u128::MAX);
}

#[test]
fn centi_minutes_from_seconds() {
    assert_eq!(sec_to_centi_min(0), 0);
    assert_eq!(sec_to_centi_min(59), 98);
    assert_eq!(sec_to_centi_min(60), 100);
    assert_eq!(sec_to_centi_min(90), 150);
}

#[test]
fn progress_line_is_exact() {
    // 120000 candidates after one minute over a 4-character space:
    // speed 2000.00/s, progress 11.44%, 464 s left = 7.73 min
    let space = pow32_saturating(4);
    assert_eq!(space, 1048576);
    let line = progress_line(120000, 60000, space).expect("estimable");
    assert_eq!(
        line,
        "count: 120000\telapsed: 1.00min\tspeed: 2000.00/s\tprogress(est): 11.44%\tleft(est): 7.73min"
    );
}

#[test]
fn progress_line_guards_division() {
    // no elapsed time, or under one candidate per second: no estimate
    assert!(progress_line(120000, 0, 1024).is_none());
    assert!(progress_line(0, 60000, 1024).is_none());
    assert!(progress_line(1, 10000, 1024).is_none());
}

#[test]
fn at_least_one_worker() {
    assert!(worker_count() >= 1);
}

#[test]
fn half_of_the_cpus_floored_at_one() {
    assert_eq!(half_at_least_one(0), 1);
    assert_eq!(half_at_least_one(1), 1);
    assert_eq!(half_at_least_one(2), 1);
    assert_eq!(half_at_least_one(3), 1);
    assert_eq!(half_at_least_one(7), 3);
    assert_eq!(half_at_least_one(8), 4);
}

#[test]
fn result_block_lines_are_exact() {
    let c = Candidate {
        wif: "KwDiBf89QgGbjEhKnhXJuH7LrciVrZi3qYjgd9M7rFU73sVHnoWn".to_string(),
        address: "bc1qw508d6qejxtdg4y5r3zarvary0c5xw7kv8f3t4".to_string(),
    };
    let (header, key_line, addr_line) = result_block(&c);
    assert_eq!(header, "result:");
    assert_eq!(
        key_line,
        "privkey:\tKwDiBf89QgGbjEhKnhXJuH7LrciVrZi3qYjgd9M7rFU73sVHnoWn"
    );
    assert_eq!(addr_line, "address:\tbc1qw508d6qejxtdg4y5r3zarvary0c5xw7kv8f3t4");
}
