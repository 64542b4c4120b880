use cuid2_rs::alphabet::{base36_char, char_is_lower_letter, char_is_symbol, letter_char};
use cuid2_rs::clock::{millis_from_elapsed, unix_millis};
use cuid2_rs::decimal::to_decimal;
use cuid2_rs::entropy::{entropy_from_seed, letter_from_seed};
use cuid2_rs::{
    assemble_cuid, compute_hash, fingerprint_from_entropy, generate_entropy, generate_fingerprint,
    generate_random_letter, is_valid_cuid, Counter, CuidError, MAX_LENGTH,
};

const TEST_STRING_DIGEST: &str = "2cf9abbacbd4931a08578594f981bac499681a58d0cc9ab09ebdd146e951e90b50324a403174887fdf43f07b3b37bfbaad69aa10399483be11fe998978ce3c19";

#[test]
fn test_generate_entropy() {
    let entropy = generate_entropy(10).unwrap();
    assert_eq!(entropy.len(), 10);
    assert!(entropy.chars().all(|c| c.is_ascii_alphanumeric()));
}

#[test]
fn test_generate_random_letter() {
    let letter = generate_random_letter().unwrap();
    assert!(b"abcdefghijklmnopqrstuvwxyz".contains(&(letter as u8)));
}

#[test]
fn test_compute_hash() {
    let input = "test_string";
    let hashed = compute_hash(input, 16);
    assert_eq!(hashed.len(), 16);
}

#[test]
fn hash_of_a_known_input() {
    assert_eq!(compute_hash("test_string", 16), "2cf9abbacbd4931a");
    assert_eq!(compute_hash("test_string", 128), TEST_STRING_DIGEST);
    assert_eq!(compute_hash("test_string", 0), "");
    assert_eq!(compute_hash("", 8), "a69f73cc");
    assert_eq!(compute_hash("abc", 32), "b751850b1a57168a5693cd924b6b096e");
}

#[test]
fn hash_takes_the_utf8_bytes() {
    assert_eq!(compute_hash("\u{e9}", 16), "240f197bab9d86d2");
}

#[test]
fn hash_is_deterministic() {
    for length in [0usize, 1, 2, 24, 32, 128] {
        assert_eq!(
            compute_hash("the same input", length),
            compute_hash("the same input", length)
        );
    }
}

#[test]
fn shorter_hash_is_a_prefix_of_the_longer() {
    let long = compute_hash("prefix", 128);
    for length in 0..=128usize {
        assert_eq!(compute_hash("prefix", length), long[..length]);
    }
}

#[test]
fn entropy_has_the_requested_length() {
    for length in [0usize, 1, 2, 32, 100] {
        let entropy = generate_entropy(length).unwrap();
        assert_eq!(entropy.len(), length);
        assert!(entropy
            .chars()
            .all(|c| c.is_ascii_lowercase() || c.is_ascii_digit()));
    }
}

#[test]
fn entropy_from_a_seed() {
    let text = entropy_from_seed(Ok(7), 64).unwrap();
    assert_eq!(text.len(), 64);
    assert!(text
        .chars()
        .all(|c| c.is_ascii_lowercase() || c.is_ascii_digit()));
    assert_eq!(entropy_from_seed(Ok(7), 64).unwrap(), text);
    assert_eq!(entropy_from_seed(Ok(7), 0).unwrap(), "");
}

#[test]
fn letter_from_a_seed() {
    for seed in 0..200u64 {
        let letter = letter_from_seed(Ok(seed)).unwrap();
        assert!(letter.is_ascii_lowercase());
    }
}

#[test]
fn random_letters_are_lower_case() {
    for _ in 0..200 {
        assert!(generate_random_letter().unwrap().is_ascii_lowercase());
    }
}

#[test]
fn fingerprint_is_a_full_length_digest() {
    let fingerprint = generate_fingerprint().unwrap();
    assert_eq!(fingerprint.len(), MAX_LENGTH);
    assert_eq!(fingerprint.len(), 32);
    assert!(fingerprint
        .chars()
        .all(|c| c.is_ascii_digit() || ('a'..='f').contains(&c)));
}

#[test]
fn base36_symbols() {
    assert_eq!(base36_char(0), '0');
    assert_eq!(base36_char(9), '9');
    assert_eq!(base36_char(10), 'a');
    assert_eq!(base36_char(35), 'z');
    for value in 0..36u32 {
        assert_eq!(base36_char(value), char::from_digit(value, 36).unwrap());
    }
}

#[test]
fn letters_by_position() {
    assert_eq!(letter_char(0), 'a');
    assert_eq!(letter_char(25), 'z');
    let alphabet = b"abcdefghijklmnopqrstuvwxyz";
    for position in 0..26u32 {
        assert_eq!(letter_char(position), alphabet[position as usize] as char);
    }
}

#[test]
fn character_classes() {
    assert!(char_is_lower_letter('a'));
    assert!(char_is_lower_letter('z'));
    assert!(!char_is_lower_letter('A'));
    assert!(!char_is_lower_letter('0'));
    assert!(!char_is_lower_letter('{'));
    assert!(!char_is_lower_letter('`'));
    assert!(char_is_symbol('a'));
    assert!(char_is_symbol('0'));
    assert!(char_is_symbol('9'));
    assert!(!char_is_symbol('-'));
    assert!(!char_is_symbol('Z'));
    assert!(!char_is_symbol('\u{e9}'));
}

#[test]
fn decimal_rendering() {
    assert_eq!(to_decimal(0), "0");
    assert_eq!(to_decimal(7), "7");
    assert_eq!(to_decimal(10), "10");
    assert_eq!(to_decimal(1700000000000), "1700000000000");
    assert_eq!(to_decimal(u64::MAX as u128), "18446744073709551615");
    assert_eq!(
        to_decimal(u128::MAX),
        "340282366920938463463374607431768211455"
    );
    for n in [1u128, 9, 99, 100, 101, 12345, 1u128 << 70] {
        assert_eq!(to_decimal(n), n.to_string());
    }
}

#[test]
fn assembling_from_known_parts() {
    let id = assemble_cuid('k', 1700000000000, "salt0", 7, "fingerprint", 24);
    assert_eq!(id, "kd150174f75ce6fec90234d4");
    assert!(is_valid_cuid(&id, 2, 32));
    assert_eq!(
        assemble_cuid('k', 1700000000000, "salt0", 7, "fingerprint", 2),
        "kd"
    );
    assert_eq!(
        assemble_cuid('q', 1700000000000, "salt0", 7, "fingerprint", 32),
        "qd150174f75ce6fec90234d4e27c6914"
    );
    assert_eq!(
        assemble_cuid('q', 1700000000000, "salt0", 7, "fingerprint", 1),
        "q"
    );
}

#[test]
fn assembling_hashes_the_parts_in_order() {
    let id = assemble_cuid('a', 12, "xy", 34, "zw", 16);
    let digest = compute_hash("12xy34zw", 16);
    assert_eq!(id[1..], digest[1..]);
    assert_ne!(id, assemble_cuid('a', 12, "xy", 35, "zw", 16));
    assert_ne!(id, assemble_cuid('a', 13, "xy", 34, "zw", 16));
    assert_ne!(id, assemble_cuid('a', 12, "xz", 34, "zw", 16));
    assert_ne!(id, assemble_cuid('a', 12, "xy", 34, "zv", 16));
}

#[test]
fn counter_counts_from_zero() {
    let mut counter = Counter::new();
    assert_eq!(counter.current(), 0);
    assert_eq!(counter.fetch_increment(), 0);
    assert_eq!(counter.fetch_increment(), 1);
    assert_eq!(counter.fetch_increment(), 2);
    assert_eq!(counter.current(), 3);
}

#[test]
fn counter_wraps_after_the_largest_value() {
    let mut counter = Counter::starting_at(u64::MAX);
    assert_eq!(counter.fetch_increment(), u64::MAX);
    assert_eq!(counter.current(), 0);
    assert_eq!(counter.fetch_increment(), 0);
    assert_eq!(counter.current(), 1);
}

#[test]
fn counter_values_are_distinct() {
    let mut counter = Counter::starting_at(u64::MAX - 500);
    let mut seen = std::collections::HashSet::new();
    for _ in 0..1000 {
        assert!(seen.insert(counter.fetch_increment()));
    }
}

#[test]
fn clock_is_after_the_epoch() {
    let millis = unix_millis().unwrap();
    assert!(millis > 1_600_000_000_000);
}

#[test]
fn invalid_length_message() {
    let error = CuidError::InvalidLength(33, 2, 32);
    assert_eq!(
        error.message(),
        "Invalid CUID length: 33, expected between 2 and 32"
    );
    let error = CuidError::InvalidLength(0, 2, 32);
    assert_eq!(
        error.message(),
        "Invalid CUID length: 0, expected between 2 and 32"
    );
}

#[test]
fn clock_error_message() {
    let later = std::time::SystemTime::now() + std::time::Duration::from_secs(60);
    let err = std::time::SystemTime::now()
        .duration_since(later)
        .unwrap_err();
    let detail = err.to_string();
    let error = CuidError::from(err);
    assert!(matches!(error, CuidError::SystemTimeError(_)));
    assert_eq!(error.message(), format!("System time error: {}", detail));
}

#[test]
fn equal_seeds_give_equal_entropy() {
    for seed in [0u64, 1, 7, u64::MAX] {
        for length in [1usize, 2, 24, 32] {
            assert_eq!(
                entropy_from_seed(Ok(seed), length).unwrap(),
                entropy_from_seed(Ok(seed), length).unwrap()
            );
        }
    }
}

#[test]
fn shorter_entropy_starts_the_longer_of_one_seed() {
    let long = entropy_from_seed(Ok(99), 64).unwrap();
    for length in 0..=64usize {
        assert_eq!(entropy_from_seed(Ok(99), length).unwrap(), long[..length]);
    }
}

#[test]
fn entropy_depends_on_the_seed() {
    let texts: std::collections::HashSet<String> = (0..50u64)
        .map(|seed| entropy_from_seed(Ok(seed), 32).unwrap())
        .collect();
    assert!(texts.len() > 1);
}

#[test]
fn equal_seeds_give_equal_letters() {
    for seed in 0..100u64 {
        assert_eq!(
            letter_from_seed(Ok(seed)).unwrap(),
            letter_from_seed(Ok(seed)).unwrap()
        );
    }
}

#[test]
fn letters_depend_on_the_seed() {
    let letters: std::collections::HashSet<char> = (0..200u64)
        .map(|seed| letter_from_seed(Ok(seed)).unwrap())
        .collect();
    assert!(letters.len() > 1);
}

#[test]
fn fingerprint_of_known_entropy() {
    let fingerprint = fingerprint_from_entropy(Ok(String::from("abc"))).unwrap();
    assert_eq!(fingerprint, "b751850b1a57168a5693cd924b6b096e");
    let fingerprint = fingerprint_from_entropy(Ok(String::from("test_string"))).unwrap();
    assert_eq!(fingerprint, compute_hash("test_string", 32));
}

#[test]
fn fingerprint_hands_an_error_on() {
    let result = fingerprint_from_entropy(Err(CuidError::InvalidLength(40, 2, 32)));
    assert!(matches!(result, Err(CuidError::InvalidLength(40, 2, 32))));
}

#[test]
fn elapsed_time_in_whole_milliseconds() {
    let span = std::time::Duration::new(1_700_000_000, 123_456_789);
    assert_eq!(millis_from_elapsed(Ok(span)).unwrap(), 1_700_000_000_123);
    assert_eq!(
        millis_from_elapsed(Ok(std::time::Duration::from_millis(0))).unwrap(),
        0
    );
    assert_eq!(
        millis_from_elapsed(Ok(std::time::Duration::from_micros(1999))).unwrap(),
        1
    );
}

#[test]
fn failed_measurement_is_a_clock_error() {
    let now = std::time::SystemTime::now();
    let later = now + std::time::Duration::from_secs(60);
    let result = millis_from_elapsed(now.duration_since(later));
    assert!(matches!(result, Err(CuidError::SystemTimeError(_))));
}
