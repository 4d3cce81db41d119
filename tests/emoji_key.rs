use channel_archiver::emoji_key::{CanonicalEmojiKey, EmojiName, LocalOnly};

fn custom(name: &str) -> CanonicalEmojiKey {
    CanonicalEmojiKey::Custom { name: EmojiName(name.to_string()), host: LocalOnly }
}

#[test]
fn custom_reference_is_classified_and_rendered_back() {
    let k = CanonicalEmojiKey::classify(":blob_cat@.:");
    assert_eq!(k, custom("blob_cat"));
    assert_eq!(k.render(), ":blob_cat@.:");
    let k = CanonicalEmojiKey::classify(":a-0_z@.:");
    assert_eq!(k, custom("a-0_z"));
    assert_eq!(k.render(), ":a-0_z@.:");
}

#[test]
fn custom_reference_rules_are_strict() {
    for raw in [":Blob@.:", ":@.:", ":blob@remote.example:", "blob@.:", ":blob@.", ":blob cat@.:"] {
        assert_eq!(CanonicalEmojiKey::classify(raw), CanonicalEmojiKey::Uncategorized(raw.to_string()));
    }
}

#[test]
fn unicode_emoji_is_classified() {
    for raw in ["👍", "🚀", "❤️", "👍🏽", "🇯🇵"] {
        let k = CanonicalEmojiKey::classify(raw);
        assert_eq!(k, CanonicalEmojiKey::Unicode { utf8: raw.to_string() });
        let rendered = k.render();
        assert_eq!(rendered, raw);
        assert_eq!(CanonicalEmojiKey::classify(&rendered), k);
    }
}

#[test]
fn registry_form_must_match_the_input() {
    // The registry knows U+263A only through its fully qualified form.
    let raw = "\u{263a}";
    assert_eq!(CanonicalEmojiKey::classify(raw), CanonicalEmojiKey::Uncategorized(raw.to_string()));
    assert_eq!(CanonicalEmojiKey::classify("hello"), CanonicalEmojiKey::Uncategorized("hello".to_string()));
}

#[test]
fn keycap_digits_are_classified() {
    for d in 0u8..10 {
        let raw = format!("{d}\u{20e3}");
        let k = CanonicalEmojiKey::classify(&raw);
        assert_eq!(k, CanonicalEmojiKey::BoxedSingleDigit { digit: d });
        assert_eq!(k.render(), raw);
    }
}

#[test]
fn keycap_needs_exactly_two_characters() {
    let raw = "1\u{20e3}x";
    assert_eq!(CanonicalEmojiKey::classify(raw), CanonicalEmojiKey::Uncategorized(raw.to_string()));
    let raw = "x\u{20e3}";
    assert_eq!(CanonicalEmojiKey::classify(raw), CanonicalEmojiKey::Uncategorized(raw.to_string()));
}

#[test]
fn fully_qualified_keycap_is_unicode() {
    let raw = "1\u{fe0f}\u{20e3}";
    assert_eq!(CanonicalEmojiKey::classify(raw), CanonicalEmojiKey::Unicode { utf8: raw.to_string() });
}

#[test]
fn large_digit_renders_in_decimal() {
    assert_eq!(CanonicalEmojiKey::BoxedSingleDigit { digit: 12 }.render(), "12\u{20e3}");
    assert_eq!(CanonicalEmojiKey::BoxedSingleDigit { digit: 255 }.render(), "255\u{20e3}");
}

#[test]
fn single_punctuation_is_classified() {
    for raw in ["!", "?", "~", "@", "[", "/"] {
        let k = CanonicalEmojiKey::classify(raw);
        assert_eq!(k, CanonicalEmojiKey::SingleCodepointPunctuation(raw.chars().next().unwrap()));
        assert_eq!(k.render(), raw);
    }
}

#[test]
fn punctuation_in_the_registry_is_unicode() {
    let raw = "\u{2757}";
    assert_eq!(CanonicalEmojiKey::classify(raw), CanonicalEmojiKey::Unicode { utf8: raw.to_string() });
}

#[test]
fn anything_else_is_kept_verbatim() {
    for raw in ["", "a", "!!", "hello world", " 👍", "\u{20e3}"] {
        let k = CanonicalEmojiKey::classify(raw);
        assert_eq!(k, CanonicalEmojiKey::Uncategorized(raw.to_string()));
        assert_eq!(k.render(), raw);
    }
}

#[test]
fn classify_with_registry_follows_the_given_registry() {
    let reg = Some("abc".to_string());
    assert_eq!(
        CanonicalEmojiKey::classify_with_registry("abc", &reg),
        CanonicalEmojiKey::Unicode { utf8: "abc".to_string() }
    );
    assert_eq!(
        CanonicalEmojiKey::classify_with_registry("abd", &reg),
        CanonicalEmojiKey::Uncategorized("abd".to_string())
    );
    assert_eq!(CanonicalEmojiKey::classify_with_registry(":x@.:", &Some(":x@.:".to_string())), custom("x"));
}

#[test]
fn same_key_compares_values() {
    assert!(custom("a").same_key(&custom("a")));
    assert!(!custom("a").same_key(&custom("b")));
    assert!(!custom("a").same_key(&CanonicalEmojiKey::Uncategorized("a".to_string())));
}
