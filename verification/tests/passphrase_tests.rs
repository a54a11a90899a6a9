//! Tests of passphrase generation and the standard dictionary.

use std::collections::HashSet;

use pwgen::dictionary::Dictionary;
use pwgen::passphrase::generate_passphrase;

fn standard_words() -> Vec<String> {
    let d = Dictionary::standard();
    let mut words = Vec::new();
    let mut i = 0;
    while i < d.len() {
        words.push(d.word(i).to_string());
        i += 1;
    }
    words
}

#[test]
fn dictionary_has_7776_distinct_nonempty_words() {
    let words = standard_words();
    assert_eq!(words.len(), 7776);
    let distinct: HashSet<&str> = words.iter().map(|w| w.as_str()).collect();
    assert_eq!(distinct.len(), 7776);
    for w in &words {
        assert_eq!(w.len(), 5);
        assert!(!w.contains(' '));
    }
}

#[test]
fn dictionary_words_spell_their_base_six_index() {
    let d = Dictionary::standard();
    assert_eq!(d.word(0), "balac");
    assert_eq!(d.word(1), "balah");
    assert_eq!(d.word(42), "banec");
    assert_eq!(d.word(1296), "dalac");
    assert_eq!(d.word(7775), "myzyx");
}

#[test]
fn zero_words_is_empty_string() {
    assert_eq!(generate_passphrase(0).unwrap(), "");
}

#[test]
fn one_word_is_a_dictionary_word() {
    let words: HashSet<String> = standard_words().into_iter().collect();
    let p = generate_passphrase(1).unwrap();
    assert!(words.contains(&p));
}

#[test]
fn five_words_space_joined_from_dictionary() {
    let words: HashSet<String> = standard_words().into_iter().collect();
    let p = generate_passphrase(5).unwrap();
    let parts: Vec<&str> = p.split(' ').collect();
    assert_eq!(parts.len(), 5);
    for part in parts {
        assert!(words.contains(part));
    }
    assert!(!p.starts_with(' '));
    assert!(!p.ends_with(' '));
    assert!(!p.contains("  "));
}

#[test]
fn forty_words_have_exactly_39_separators() {
    let p = generate_passphrase(40).unwrap();
    assert_eq!(p.split(' ').count(), 40);
    assert_eq!(p.chars().filter(|c| *c == ' ').count(), 39);
}

#[test]
fn draws_spread_over_the_dictionary() {
    // 3000 independent uniform draws from 7776 words are expected to hit
    // about 2490 distinct ones; a narrow count would betray a biased draw
    let words: HashSet<String> = standard_words().into_iter().collect();
    let mut seen: HashSet<String> = HashSet::new();
    for _ in 0..3000 {
        let w = generate_passphrase(1).unwrap();
        assert!(words.contains(&w));
        seen.insert(w);
    }
    assert!(seen.len() >= 2300, "only {} distinct words", seen.len());
    assert!(seen.len() <= 2680, "{} distinct words", seen.len());
}
