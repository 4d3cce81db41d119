use channel_archiver::emoji_key::{CanonicalEmojiKey, EmojiName, LocalOnly};
use channel_archiver::reactions::{ReactionError, ReactionMap};

fn raw(entries: &[(&str, usize)]) -> Vec<(String, usize)> {
    entries.iter().map(|(k, c)| (k.to_string(), *c)).collect()
}

#[test]
fn custom_and_unicode_reactions_keep_their_counts() {
    let m = ReactionMap::from_wire(&raw(&[(":blob_cat@.:", 3), ("👍", 1)])).unwrap();
    assert_eq!(m.len(), 2);
    let custom = CanonicalEmojiKey::Custom { name: EmojiName("blob_cat".to_string()), host: LocalOnly };
    assert_eq!(m.count_of(&custom), Some(3));
    assert_eq!(m.count_of(&CanonicalEmojiKey::Unicode { utf8: "👍".to_string() }), Some(1));
    assert_eq!(m.count_of(&CanonicalEmojiKey::Uncategorized("👍".to_string())), None);
}

#[test]
fn zero_count_is_refused() {
    assert_eq!(ReactionMap::from_wire(&raw(&[("👍", 2), ("x", 0)])).err(), Some(ReactionError::ZeroCount));
    assert_eq!(ReactionMap::from_wire(&raw(&[("x", 0), ("x", 1)])).err(), Some(ReactionError::ZeroCount));
}

#[test]
fn duplicate_reaction_is_refused() {
    assert_eq!(ReactionMap::from_wire(&raw(&[("x", 2), ("y", 1), ("x", 1)])).err(), Some(ReactionError::DuplicateKey));
}

#[test]
fn empty_reactions_are_accepted() {
    let m = ReactionMap::from_wire(&Vec::new()).unwrap();
    assert_eq!(m.len(), 0);
    assert!(m.to_wire().is_empty());
}

#[test]
fn wire_form_round_trips() {
    let entries = raw(&[(":blob_cat@.:", 3), ("👍", 1), ("7\u{20e3}", 2), ("!", 4), ("odd", 5)]);
    let m = ReactionMap::from_wire(&entries).unwrap();
    assert_eq!(m.to_wire(), entries);
    assert_eq!(m.count_of(&CanonicalEmojiKey::BoxedSingleDigit { digit: 7 }), Some(2));
    assert_eq!(m.count_of(&CanonicalEmojiKey::SingleCodepointPunctuation('!')), Some(4));
}
