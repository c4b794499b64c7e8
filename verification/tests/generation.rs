use password_generator::chars::SEPARATOR;
use password_generator::chars::random_digit;
use password_generator::chars::random_lowercase;
use password_generator::chars::random_uppercase;
use password_generator::generator::chars_to_string;
use password_generator::generator::pick_letter;
use password_generator::ConfigurationError;
use password_generator::GenerationConfig;
use password_generator::generate;
use password_generator::generate_chars;

fn config(
    length: u32,
    allow_upper: bool,
    allow_lower: bool,
    allow_number: bool,
    allow_special: bool,
) -> GenerationConfig {
    GenerationConfig { length, allow_upper, allow_lower, allow_number, allow_special }
}

fn is_allowed(config: &GenerationConfig, c: char) -> bool {
    (config.allow_lower && c.is_ascii_lowercase())
        || (config.allow_upper && c.is_ascii_uppercase())
        || (config.allow_number && c.is_ascii_digit())
        || (config.allow_special && c == SEPARATOR)
}

#[test]
fn length_matches_config() {
    for length in [1, 2, 3, 5, 8, 10, 64, 1000] {
        let cfg = config(length, true, true, true, true);
        let pwd = generate(&cfg).unwrap();
        assert_eq!(pwd.chars().count(), length as usize);
    }
}

#[test]
fn lowercase_always_present() {
    for length in [1, 2, 5, 20] {
        for upper in [false, true] {
            for number in [false, true] {
                let cfg = config(length, upper, true, number, false);
                let pwd = generate(&cfg).unwrap();
                assert!(pwd.chars().any(|c| c.is_ascii_lowercase()), "no lowercase in {pwd:?}");
            }
        }
    }
}

#[test]
fn uppercase_present_when_room() {
    for length in [2, 3, 5, 20] {
        let cfg = config(length, true, true, true, true);
        let pwd = generate(&cfg).unwrap();
        assert!(pwd.chars().any(|c| c.is_ascii_uppercase()), "no uppercase in {pwd:?}");
    }
    let cfg = config(1, true, false, false, false);
    let pwd = generate(&cfg).unwrap();
    assert!(pwd.chars().any(|c| c.is_ascii_uppercase()));
}

#[test]
fn digit_present_when_room() {
    for length in [3, 4, 5, 20] {
        let cfg = config(length, true, true, true, true);
        let pwd = generate(&cfg).unwrap();
        assert!(pwd.chars().any(|c| c.is_ascii_digit()), "no digit in {pwd:?}");
    }
    let cfg = config(2, false, true, true, false);
    let pwd = generate(&cfg).unwrap();
    assert!(pwd.chars().any(|c| c.is_ascii_digit()));
}

#[test]
fn only_allowed_characters() {
    let configs = [
        config(20, true, true, true, true),
        config(20, true, true, true, false),
        config(20, false, true, true, true),
        config(20, true, false, false, true),
        config(20, false, true, false, false),
        config(20, true, false, true, false),
    ];
    for cfg in configs {
        let pwd = generate(&cfg).unwrap();
        for c in pwd.chars() {
            assert!(is_allowed(&cfg, c), "character {c:?} not allowed in {pwd:?}");
        }
    }
}

#[test]
fn no_letter_case_rejected() {
    for length in [0, 1, 10] {
        for number in [false, true] {
            for special in [false, true] {
                let cfg = config(length, false, false, number, special);
                assert_eq!(generate(&cfg), Err(ConfigurationError::NoLetterCase));
            }
        }
    }
}

#[test]
fn zero_length_rejected() {
    let cfg = config(0, true, true, true, true);
    assert_eq!(generate(&cfg), Err(ConfigurationError::ZeroLength));
    let cfg = config(0, false, true, false, false);
    assert_eq!(generate(&cfg), Err(ConfigurationError::ZeroLength));
}

#[test]
fn example_all_classes_length_ten() {
    let cfg = config(10, true, true, true, true);
    let pwd = generate(&cfg).unwrap();
    let chars: Vec<char> = pwd.chars().collect();
    assert_eq!(chars.len(), 10);
    assert!(chars.iter().any(|c| c.is_ascii_lowercase()));
    assert!(chars.iter().any(|c| c.is_ascii_uppercase()));
    assert!(chars.iter().any(|c| c.is_ascii_digit()));
    // The separator may only stand where the index is a multiple of five;
    // positions 0 and 5 hold it unless a mandatory placement claimed them.
    for (i, c) in chars.iter().enumerate() {
        if *c == SEPARATOR {
            assert_eq!(i % 5, 0, "separator off the word grid in {pwd:?}");
        }
    }
    for i in [0, 5] {
        assert!(
            chars[i] == SEPARATOR || chars[i].is_ascii_alphanumeric(),
            "unexpected character {:?} at {} in {pwd:?}",
            chars[i],
            i
        );
    }
    assert!(!chars.contains(&' '));
}

#[test]
fn example_single_lowercase() {
    let cfg = config(1, false, true, false, false);
    let pwd = generate(&cfg).unwrap();
    let chars: Vec<char> = pwd.chars().collect();
    assert_eq!(chars.len(), 1);
    assert!(chars[0].is_ascii_lowercase());
}

#[test]
fn repeated_calls_differ() {
    let cfg = config(12, true, true, true, false);
    let mut outputs = Vec::new();
    for _ in 0..100 {
        outputs.push(generate(&cfg).unwrap());
    }
    let first = &outputs[0];
    assert!(outputs.iter().any(|p| p != first), "100 identical passwords");
}

#[test]
fn separator_spacing() {
    let cfg = config(23, false, true, false, true);
    let pwd = generate(&cfg).unwrap();
    for (i, c) in pwd.chars().enumerate() {
        if c == SEPARATOR {
            assert_eq!(i % 5, 0);
        } else {
            assert!(c.is_ascii_lowercase());
        }
    }
}

#[test]
fn separator_absent_when_disabled() {
    let cfg = config(50, true, true, true, false);
    let pwd = generate(&cfg).unwrap();
    assert!(!pwd.contains(SEPARATOR));
}

#[test]
fn more_classes_than_slots() {
    let cfg = config(2, true, true, true, true);
    let pwd = generate(&cfg).unwrap();
    let chars: Vec<char> = pwd.chars().collect();
    assert_eq!(chars.len(), 2);
    assert!(chars.iter().any(|c| c.is_ascii_lowercase()));
    assert!(chars.iter().any(|c| c.is_ascii_uppercase()));
    for c in &chars {
        assert!(is_allowed(&cfg, *c));
    }
}

#[test]
fn generate_chars_matches_contract() {
    let cfg = config(15, true, true, true, true);
    let chars = generate_chars(&cfg).unwrap();
    assert_eq!(chars.len(), 15);
    assert!(chars.iter().any(|c| c.is_ascii_lowercase()));
    assert!(chars.iter().any(|c| c.is_ascii_uppercase()));
    assert!(chars.iter().any(|c| c.is_ascii_digit()));
    for c in &chars {
        assert!(is_allowed(&cfg, *c));
    }
}

#[test]
fn pick_letter_single_case_is_deterministic() {
    for _ in 0..20 {
        assert!(pick_letter(false, true).is_ascii_lowercase());
        assert!(pick_letter(true, false).is_ascii_uppercase());
    }
}

#[test]
fn pick_letter_both_cases_stays_a_letter() {
    for _ in 0..50 {
        let c = pick_letter(true, true);
        assert!(c.is_ascii_lowercase() || c.is_ascii_uppercase());
    }
}

#[test]
fn random_characters_stay_in_class() {
    for _ in 0..50 {
        assert!(random_lowercase().is_ascii_lowercase());
        assert!(random_uppercase().is_ascii_uppercase());
        assert!(random_digit().is_ascii_digit());
    }
}

#[test]
fn chars_to_string_keeps_characters() {
    let chars = vec!['a', 'B', '3', '-', 'z'];
    assert_eq!(chars_to_string(&chars), "aB3-z");
    let empty: Vec<char> = Vec::new();
    assert_eq!(chars_to_string(&empty), "");
}
