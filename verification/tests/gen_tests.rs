use qpasswd::gen::{charset, CharsetType, GenerationError, PasswdGen, PasswdGenBuilder};

const ALL: [CharsetType; 5] = [
    CharsetType::Lowercase,
    CharsetType::Uppercase,
    CharsetType::Symbols,
    CharsetType::Numbers,
    CharsetType::Special,
];

fn text_of(kind: CharsetType) -> String {
    charset(&kind).into_iter().collect()
}

fn generator(length: i16, kinds: &[CharsetType]) -> PasswdGen {
    let mut builder = PasswdGen::builder();
    builder.set_length(length);
    for kind in kinds {
        builder.add_charset(*kind);
    }
    builder.build()
}

#[test]
fn charset_sizes() {
    assert_eq!(charset(&CharsetType::Lowercase).len(), 26);
    assert_eq!(charset(&CharsetType::Uppercase).len(), 25);
    assert_eq!(charset(&CharsetType::Symbols).len(), 11);
    assert_eq!(charset(&CharsetType::Numbers).len(), 10);
    assert_eq!(charset(&CharsetType::Special).len(), 32);
}

#[test]
fn charset_contents() {
    assert_eq!(text_of(CharsetType::Lowercase), "abcdefghijklmnopqrstuvwxyz");
    assert_eq!(text_of(CharsetType::Uppercase), "ABCDEFGHIJKLMNPQRSTUVWXYZ");
    assert_eq!(text_of(CharsetType::Symbols), "_*&|!?@$#=%");
    assert_eq!(text_of(CharsetType::Numbers), "0123456789");
    assert_eq!(text_of(CharsetType::Special), "!\"#$%&'()*+,-./:;<=>?@[\\]^_`{|}~");
}

#[test]
fn uppercase_leaves_one_letter_out() {
    let upper = charset(&CharsetType::Uppercase);
    let missing: Vec<char> = ('A'..='Z').filter(|c| !upper.contains(c)).collect();
    assert_eq!(missing, vec!['O']);
}

#[test]
fn special_is_the_ascii_punctuation() {
    let special = charset(&CharsetType::Special);
    let expected: Vec<char> =
        (0u8..128).map(|b| b as char).filter(|c| c.is_ascii_punctuation()).collect();
    assert_eq!(special, expected);
}

#[test]
fn charset_is_the_same_on_every_call() {
    for kind in ALL {
        assert_eq!(charset(&kind), charset(&kind));
    }
}

#[test]
fn builder_starts_empty() {
    let builder = PasswdGen::builder();
    assert_eq!(builder.length(), 0);
    assert!(builder.charsets().is_empty());
    assert_eq!(builder.pool_size(), 0);
}

#[test]
fn defaults_are_empty() {
    let builder = PasswdGenBuilder::default();
    assert_eq!(builder.length(), 0);
    assert!(builder.charsets().is_empty());
    let mut gen = PasswdGen::default();
    assert_eq!(gen.generate(), Ok(String::new()));
}

#[test]
fn builder_keeps_order_and_repetitions() {
    let mut builder = PasswdGen::builder();
    builder
        .add_charset(CharsetType::Numbers)
        .add_charset(CharsetType::Lowercase)
        .add_charset(CharsetType::Numbers)
        .set_length(12);
    assert_eq!(
        builder.charsets(),
        &vec![CharsetType::Numbers, CharsetType::Lowercase, CharsetType::Numbers]
    );
    assert_eq!(builder.length(), 12);
    assert_eq!(builder.pool_size(), 46);
}

#[test]
fn set_length_keeps_the_last_value() {
    let mut builder = PasswdGen::builder();
    builder.set_length(5).set_length(-3).set_length(9);
    assert_eq!(builder.length(), 9);
    assert!(builder.charsets().is_empty());
}

#[test]
fn pool_size_adds_the_class_sizes() {
    let mut builder = PasswdGen::builder();
    let mut expected = 0;
    for (kind, size) in ALL.iter().zip([26usize, 25, 11, 10, 32]) {
        builder.add_charset(*kind);
        expected += size;
        assert_eq!(builder.pool_size(), expected);
    }
    assert_eq!(expected, 104);
}

#[test]
fn default_charsets_fill_an_empty_selection() {
    let mut builder = PasswdGen::builder();
    builder.set_length(7);
    builder.apply_default_charsets();
    assert_eq!(
        builder.charsets(),
        &vec![CharsetType::Lowercase, CharsetType::Uppercase, CharsetType::Numbers]
    );
    assert_eq!(builder.length(), 7);
    assert_eq!(builder.pool_size(), 61);
}

#[test]
fn default_charsets_leave_a_selection_alone() {
    let mut builder = PasswdGen::builder();
    builder.add_charset(CharsetType::Special);
    builder.apply_default_charsets();
    assert_eq!(builder.charsets(), &vec![CharsetType::Special]);
}

#[test]
fn generate_gives_the_length_asked_for() {
    for length in [1i16, 2, 8, 64, 1000] {
        let mut gen = generator(length, &[CharsetType::Lowercase, CharsetType::Numbers]);
        let password = gen.generate().unwrap();
        assert_eq!(password.chars().count(), length as usize);
    }
}

#[test]
fn generate_draws_from_the_selected_classes_only() {
    for kind in ALL {
        let allowed = charset(&kind);
        let mut gen = generator(200, &[kind]);
        let password = gen.generate().unwrap();
        assert_eq!(password.chars().count(), 200);
        assert!(password.chars().all(|c| allowed.contains(&c)));
    }
    let mut allowed = charset(&CharsetType::Uppercase);
    allowed.extend(charset(&CharsetType::Symbols));
    let mut gen = generator(500, &[CharsetType::Uppercase, CharsetType::Symbols]);
    let password = gen.generate().unwrap();
    assert!(password.chars().all(|c| allowed.contains(&c)));
    assert!(password.chars().any(|c| c.is_ascii_uppercase()));
    assert!(password.chars().any(|c| !c.is_ascii_uppercase()));
}

#[test]
fn generate_does_not_repeat_one_character() {
    let mut gen = generator(64, &[CharsetType::Lowercase]);
    let password = gen.generate().unwrap();
    let first = password.chars().next().unwrap();
    assert!(password.chars().any(|c| c != first));
    assert_ne!(gen.generate().unwrap(), password);
}

#[test]
fn generate_reaches_every_character_of_a_class() {
    let mut gen = generator(5000, &[CharsetType::Numbers]);
    let password = gen.generate().unwrap();
    for digit in charset(&CharsetType::Numbers) {
        assert!(password.contains(digit));
    }
}

#[test]
fn generate_can_be_called_again() {
    let mut gen = generator(10, &[CharsetType::Symbols]);
    for _ in 0..5 {
        assert_eq!(gen.generate().unwrap().chars().count(), 10);
    }
}

#[test]
fn zero_length_gives_the_empty_string() {
    let mut gen = generator(0, &[CharsetType::Lowercase]);
    assert_eq!(gen.generate(), Ok(String::new()));
    let mut gen = generator(0, &[]);
    assert_eq!(gen.generate(), Ok(String::new()));
}

#[test]
fn negative_length_gives_the_empty_string() {
    let mut gen = generator(-1, &[CharsetType::Lowercase]);
    assert_eq!(gen.generate(), Ok(String::new()));
    let mut gen = generator(i16::MIN, &[CharsetType::Special]);
    assert_eq!(gen.generate(), Ok(String::new()));
}

#[test]
fn generate_without_charset_fails() {
    let mut gen = generator(4, &[]);
    assert_eq!(gen.generate(), Err(GenerationError::EmptyPool));
}

#[test]
fn longest_password() {
    let mut gen = generator(i16::MAX, &[CharsetType::Numbers]);
    assert_eq!(gen.generate().unwrap().len(), 32767);
}

#[test]
fn entropy_of_eight_lowercase_letters() {
    let mut builder = PasswdGen::builder();
    builder.add_charset(CharsetType::Lowercase).set_length(8);
    let pool = builder.pool_size();
    let length = builder.length();
    assert_eq!(pool, 26);
    let reported = (pool as f64).powi(length.into()).log(2.0);
    let formula = f64::from(length) * (pool as f64).log2();
    assert!((reported - formula).abs() < 1e-9);
    assert_eq!(format!("{:.1}", reported), "37.6");
}
