use baby_birth_guessr::utils::generate_event_key;
use baby_birth_guessr::utils::generate_secret_key;
use baby_birth_guessr::utils::key_symbol;
use baby_birth_guessr::utils::secret_key_from;
use baby_birth_guessr::utils::EVENT_KEY_LEN;
use baby_birth_guessr::utils::FALLBACK_SECRET_KEY;
use baby_birth_guessr::utils::KEY_SYMBOLS;

#[test]
fn key_symbols_are_letters_then_digits() {
    assert_eq!(key_symbol(0), 'A');
    assert_eq!(key_symbol(1), 'B');
    assert_eq!(key_symbol(25), 'Z');
    assert_eq!(key_symbol(26), '0');
    assert_eq!(key_symbol(35), '9');
    let all: String = (0..KEY_SYMBOLS).map(key_symbol).collect();
    assert_eq!(all, "ABCDEFGHIJKLMNOPQRSTUVWXYZ0123456789");
}

#[test]
fn event_key_has_its_form() {
    for _ in 0..200 {
        let key = generate_event_key();
        let chars: Vec<char> = key.chars().collect();
        assert_eq!(chars.len(), EVENT_KEY_LEN);
        assert_eq!(chars.len(), 18);
        for (at, c) in chars.iter().enumerate() {
            if at == 6 || at == 12 {
                assert_eq!(*c, '-');
            } else {
                assert!(c.is_ascii_uppercase() || c.is_ascii_digit());
            }
        }
    }
}

#[test]
fn event_keys_differ() {
    let first = generate_event_key();
    let mut differs = false;
    for _ in 0..20 {
        if generate_event_key() != first {
            differs = true;
        }
    }
    assert!(differs);
}

#[test]
fn event_keys_use_many_symbols() {
    let mut seen = std::collections::BTreeSet::new();
    for _ in 0..500 {
        for c in generate_event_key().chars() {
            seen.insert(c);
        }
    }
    // All 36 symbols and the separator turn up in 8000 draws.
    assert_eq!(seen.len(), KEY_SYMBOLS + 1);
}

#[test]
fn secret_key_is_the_generated_name() {
    assert_eq!(secret_key_from(Some(String::from("calm-red-fox"))), "calm-red-fox");
}

#[test]
fn secret_key_falls_back() {
    assert_eq!(secret_key_from(None), "secret-key-fallback");
    assert_eq!(FALLBACK_SECRET_KEY, "secret-key-fallback");
}

#[test]
fn generated_secret_key_has_three_words() {
    let key = generate_secret_key();
    assert_ne!(key, FALLBACK_SECRET_KEY);
    let words: Vec<&str> = key.split('-').collect();
    assert_eq!(words.len(), 3);
    for word in words {
        assert!(!word.is_empty());
    }
}
