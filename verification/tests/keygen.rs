use shortlinks::keygen::alphabet;
use shortlinks::keygen::generate_key;

#[test]
fn alphabet_has_56_distinct_characters() {
    let alpha = alphabet();
    assert_eq!(alpha.len(), 56);
    for i in 0..alpha.len() {
        for j in 0..i {
            assert_ne!(alpha[i], alpha[j]);
        }
    }
}

#[test]
fn alphabet_excludes_ambiguous_characters() {
    let alpha = alphabet();
    for banned in ['0', '1', 'I', 'O', 'l', 'o'] {
        assert!(!alpha.contains(&banned));
    }
    for c in alpha {
        assert!(c.is_ascii_alphanumeric());
    }
}

#[test]
fn generated_key_has_length_10_over_the_alphabet() {
    let alpha = alphabet();
    for _ in 0..100 {
        let key = generate_key();
        assert_eq!(key.chars().count(), 10);
        for c in key.chars() {
            assert!(alpha.contains(&c), "character {:?} outside the alphabet", c);
        }
    }
}

#[test]
fn distinct_calls_give_distinct_keys() {
    let a = generate_key();
    let b = generate_key();
    assert_ne!(a, b);
}

#[test]
fn key_characters_show_no_gross_bias() {
    // 10_000 keys of 10 characters: 100_000 draws, about 1786 per
    // character under uniformity. Very generous bounds, far beyond any
    // plausible random fluctuation, catch only a skewed generator.
    let alpha = alphabet();
    let mut counts = std::collections::HashMap::new();
    for _ in 0..10_000 {
        for c in generate_key().chars() {
            *counts.entry(c).or_insert(0u32) += 1;
        }
    }
    for c in alpha {
        let n = *counts.get(&c).unwrap_or(&0);
        assert!(n > 1200, "character {:?} drawn only {} times", c, n);
        assert!(n < 2500, "character {:?} drawn {} times", c, n);
    }
}
