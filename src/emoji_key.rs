use vstd::prelude::*;

use crate::text::{chars_of, push_char, push_chars, string_of};

verus! {

/// The name of a custom emoji hosted on the local instance.
#[derive(Debug, PartialEq, Eq, Hash)]
pub struct EmojiName(pub String);

/// Marks a custom emoji as one of the local instance.
#[derive(Debug, PartialEq, Eq, Hash)]
pub struct LocalOnly;

/// What a reaction string stands for.
#[derive(Debug, PartialEq, Eq, Hash)]
pub enum CanonicalEmojiKey {
    SingleCodepointPunctuation(char),
    BoxedSingleDigit { digit: u8 },
    Unicode { utf8: String },
    Custom { name: EmojiName, host: LocalOnly },
    Uncategorized(String),
}

/// The mathematical value of a `CanonicalEmojiKey`.
pub enum EmojiKeyModel {
    Punctuation(char),
    Digit(u8),
    Unicode(Seq<char>),
    Custom(Seq<char>),
    Uncategorized(Seq<char>),
}

impl View for CanonicalEmojiKey {
    type V = EmojiKeyModel;

    open spec fn view(&self) -> EmojiKeyModel {
        match self {
            CanonicalEmojiKey::SingleCodepointPunctuation(c) => EmojiKeyModel::Punctuation(*c),
            CanonicalEmojiKey::BoxedSingleDigit { digit } => EmojiKeyModel::Digit(*digit),
            CanonicalEmojiKey::Unicode { utf8 } => EmojiKeyModel::Unicode(utf8@),
            CanonicalEmojiKey::Custom { name, .. } => EmojiKeyModel::Custom(name.0@),
            CanonicalEmojiKey::Uncategorized(s) => EmojiKeyModel::Uncategorized(s@),
        }
    }
}

/// The combining enclosing keycap, U+20E3.
pub const KEYCAP: char = '\u{20e3}';

/// What the emoji registry gives for a string: the fully qualified form of the
/// emoji it names, or nothing.
pub uninterp spec fn emoji_registry_form(s: Seq<char>) -> Option<Seq<char>>;

/// The characters of an optional string.
pub open spec fn opt_chars(o: Option<String>) -> Option<Seq<char>> {
    match o {
        Some(s) => Some(s@),
        None => None,
    }
}

/// Relies on emojis::get: looks a string up in the Unicode emoji registry and
/// gives the fully qualified form of the emoji found (`Emoji::as_str`).
#[verifier::external_body]
fn registry_lookup(s: &str) -> (r: Option<String>)
    ensures
        opt_chars(r) == emoji_registry_form(s@),
{
    emojis::get(s).map(|e| e.as_str().to_string())
}

/// A character allowed in a custom emoji name.
pub open spec fn is_name_char(c: char) -> bool {
    ('a' <= c && c <= 'z') || ('0' <= c && c <= '9') || c == '_' || c == '-'
}

/// `s` is `:name@.:` with a name of one or more of `a-z`, `0-9`, `_`, `-`.
pub open spec fn is_custom_ref(s: Seq<char>) -> bool {
    &&& s.len() >= 5
    &&& s[0] == ':'
    &&& s[s.len() - 3] == '@'
    &&& s[s.len() - 2] == '.'
    &&& s[s.len() - 1] == ':'
    &&& forall|i: int| 1 <= i < s.len() - 3 ==> is_name_char(#[trigger] s[i])
}

pub open spec fn custom_ref_of(name: Seq<char>) -> Seq<char> {
    seq![':'] + name + seq!['@', '.', ':']
}

pub open spec fn is_ascii_digit(c: char) -> bool {
    '0' <= c && c <= '9'
}

/// `s` is an ASCII digit followed by the keycap mark.
pub open spec fn is_keycap_digit(s: Seq<char>) -> bool {
    s.len() == 2 && is_ascii_digit(s[0]) && s[1] == KEYCAP
}

pub open spec fn digit_value(c: char) -> u8 {
    (c as u32 - '0' as u32) as u8
}

/// The ASCII digit of `d`, for `d < 10`.
pub open spec fn digit_char(d: nat) -> char {
    ((d + 48) as u8) as char
}

/// The decimal digits of `d`.
pub open spec fn decimal(d: nat) -> Seq<char>
    decreases d,
{
    if d < 10 {
        seq![digit_char(d)]
    } else {
        decimal(d / 10).push(digit_char(d % 10))
    }
}

/// The decimal digits of `d` followed by the keycap mark: for a digit, the
/// two-character keycap sequence.
pub open spec fn keycap_of(d: u8) -> Seq<char> {
    decimal(d as nat).push(KEYCAP)
}

/// Punctuation and symbols of ASCII: `!` to `/`, `:` to `@`, `[` to `` ` `` and
/// `{` to `~`. Other punctuation and symbols (`©`, `→`) are not in this class.
pub open spec fn is_punctuation(c: char) -> bool {
    ('!' <= c && c <= '/') || (':' <= c && c <= '@') || ('[' <= c && c <= '`') || ('{' <= c
        && c <= '~')
}

/// Classification of `s`, where `registry` is what the emoji registry gives for
/// `s`. The first rule that matches decides.
pub open spec fn classify_spec(s: Seq<char>, registry: Option<Seq<char>>) -> EmojiKeyModel {
    if is_custom_ref(s) {
        EmojiKeyModel::Custom(s.subrange(1, s.len() - 3))
    } else if registry == Some(s) {
        EmojiKeyModel::Unicode(s)
    } else if is_keycap_digit(s) {
        EmojiKeyModel::Digit(digit_value(s[0]))
    } else if s.len() == 1 && is_punctuation(s[0]) {
        EmojiKeyModel::Punctuation(s[0])
    } else {
        EmojiKeyModel::Uncategorized(s)
    }
}

/// Classification of `s` against the emoji registry.
pub open spec fn classify_str(s: Seq<char>) -> EmojiKeyModel {
    classify_spec(s, emoji_registry_form(s))
}

/// The wire form of a key.
pub open spec fn render_spec(k: EmojiKeyModel) -> Seq<char> {
    match k {
        EmojiKeyModel::Punctuation(c) => seq![c],
        EmojiKeyModel::Digit(d) => keycap_of(d),
        EmojiKeyModel::Unicode(s) => s,
        EmojiKeyModel::Custom(name) => custom_ref_of(name),
        EmojiKeyModel::Uncategorized(s) => s,
    }
}

/// Rendering a classified string gives back that string: classification loses
/// nothing, whatever the registry reports.
pub proof fn lemma_render_classify(s: Seq<char>, registry: Option<Seq<char>>)
    ensures
        render_spec(classify_spec(s, registry)) == s,
{
    if is_custom_ref(s) {
        assert(custom_ref_of(s.subrange(1, s.len() - 3)) =~= s);
    } else if registry == Some(s) {
    } else if is_keycap_digit(s) {
        let d = digit_value(s[0]);
        assert(d < 10);
        assert(digit_char(d as nat) == s[0]);
        assert(decimal(d as nat) == seq![digit_char(d as nat)]);
        assert(keycap_of(d) =~= s);
    } else if s.len() == 1 && is_punctuation(s[0]) {
        assert(seq![s[0]] =~= s);
    }
}

/// Classifying what a key renders to gives the key back, for every key that
/// classification produces: classify, render, classify is a fixed point.
pub proof fn lemma_classify_fixed_point(s: Seq<char>)
    ensures
        render_spec(classify_str(s)) == s,
        classify_str(render_spec(classify_str(s))) == classify_str(s),
{
    lemma_render_classify(s, emoji_registry_form(s));
}

/// Distinct strings classify to distinct keys.
pub proof fn lemma_classify_injective(s1: Seq<char>, s2: Seq<char>)
    ensures
        classify_str(s1) == classify_str(s2) ==> s1 == s2,
{
    lemma_classify_fixed_point(s1);
    lemma_classify_fixed_point(s2);
}

/// A local custom emoji reference `:name@.:` classifies as `Custom(name)`,
/// whatever the registry reports, and renders back to the same string.
pub proof fn lemma_custom_reference(name: Seq<char>, registry: Option<Seq<char>>)
    requires
        name.len() >= 1,
        forall|i: int| 0 <= i < name.len() ==> is_name_char(#[trigger] name[i]),
    ensures
        classify_spec(custom_ref_of(name), registry) == EmojiKeyModel::Custom(name),
        render_spec(EmojiKeyModel::Custom(name)) == custom_ref_of(name),
{
    let s = custom_ref_of(name);
    assert forall|i: int| 1 <= i < s.len() - 3 implies is_name_char(#[trigger] s[i]) by {
        assert(s[i] == name[i - 1]);
    }
    assert(s.subrange(1, s.len() - 3) =~= name);
}

/// A string that the registry reports as its own fully qualified emoji form
/// classifies as `Unicode`, and classify, render, classify is a fixed point on
/// it.
pub proof fn lemma_unicode_emoji(s: Seq<char>, registry: Option<Seq<char>>)
    requires
        registry == Some(s),
        !is_custom_ref(s),
    ensures
        classify_spec(s, registry) == EmojiKeyModel::Unicode(s),
        render_spec(classify_spec(s, registry)) == s,
        classify_spec(render_spec(classify_spec(s, registry)), registry) == classify_spec(
            s,
            registry,
        ),
{
}

/// A digit followed by the keycap mark classifies as `BoxedSingleDigit` of that
/// digit, unless the registry lists the pair as an emoji of its own, and
/// renders back to the two characters.
pub proof fn lemma_keycap_digit(d: u8, registry: Option<Seq<char>>)
    requires
        d <= 9,
        registry != Some(keycap_of(d)),
    ensures
        keycap_of(d) == seq![digit_char(d as nat), KEYCAP],
        classify_spec(keycap_of(d), registry) == EmojiKeyModel::Digit(d),
        render_spec(EmojiKeyModel::Digit(d)) == keycap_of(d),
{
    assert(decimal(d as nat) == seq![digit_char(d as nat)]);
    assert(keycap_of(d) =~= seq![digit_char(d as nat), KEYCAP]);
    assert(digit_value(digit_char(d as nat)) == d);
}

/// A string that matches none of the other rules is kept verbatim, and renders
/// back unchanged.
pub proof fn lemma_uncategorized(s: Seq<char>, registry: Option<Seq<char>>)
    requires
        !is_custom_ref(s),
        registry != Some(s),
        !is_keycap_digit(s),
        !(s.len() == 1 && is_punctuation(s[0])),
    ensures
        classify_spec(s, registry) == EmojiKeyModel::Uncategorized(s),
        render_spec(EmojiKeyModel::Uncategorized(s)) == s,
{
}

/// The empty string is kept as an empty uncategorized key.
pub proof fn lemma_empty_uncategorized(registry: Option<Seq<char>>)
    requires
        registry != Some(Seq::<char>::empty()),
    ensures
        classify_spec(Seq::<char>::empty(), registry) == EmojiKeyModel::Uncategorized(
            Seq::<char>::empty(),
        ),
{
}

fn is_custom_ref_exec(cs: &Vec<char>) -> (r: bool)
    ensures
        r == is_custom_ref(cs@),
{
    let n = cs.len();
    if n < 5 || cs[0] != ':' || cs[n - 3] != '@' || cs[n - 2] != '.' || cs[n - 1] != ':' {
        return false;
    }
    let mut i: usize = 1;
    while i < n - 3
        invariant
            1 <= i <= n - 3,
            n == cs@.len(),
            n >= 5,
            forall|j: int| 1 <= j < i ==> is_name_char(#[trigger] cs@[j]),
        decreases n - 3 - i,
    {
        let c = cs[i];
        if !(('a' <= c && c <= 'z') || ('0' <= c && c <= '9') || c == '_' || c == '-') {
            return false;
        }
        i = i + 1;
    }
    true
}

impl CanonicalEmojiKey {
    /// Whether two keys are the same key.
    pub fn same_key(&self, other: &CanonicalEmojiKey) -> (r: bool)
        ensures
            r == (self@ == other@),
    {
        match (self, other) {
            (
                CanonicalEmojiKey::SingleCodepointPunctuation(a),
                CanonicalEmojiKey::SingleCodepointPunctuation(b),
            ) => *a == *b,
            (
                CanonicalEmojiKey::BoxedSingleDigit { digit: a },
                CanonicalEmojiKey::BoxedSingleDigit { digit: b },
            ) => *a == *b,
            (CanonicalEmojiKey::Unicode { utf8: a }, CanonicalEmojiKey::Unicode { utf8: b }) => {
                crate::text::same_text(a, b)
            },
            (
                CanonicalEmojiKey::Custom { name: a, .. },
                CanonicalEmojiKey::Custom { name: b, .. },
            ) => crate::text::same_text(&a.0, &b.0),
            (CanonicalEmojiKey::Uncategorized(a), CanonicalEmojiKey::Uncategorized(b)) => {
                crate::text::same_text(a, b)
            },
            _ => false,
        }
    }

    /// Classifies a reaction string, given what the emoji registry reports for it.
    pub fn classify_with_registry(raw: &str, registry: &Option<String>) -> (r: CanonicalEmojiKey)
        ensures
            r@ == classify_spec(raw@, opt_chars(*registry)),
    {
        let cs = chars_of(raw);
        let n = cs.len();
        if is_custom_ref_exec(&cs) {
            let name = string_of(&cs, 1, n - 3);
            return CanonicalEmojiKey::Custom { name: EmojiName(name), host: LocalOnly };
        }
        let is_registered = match registry {
            Some(form) => crate::text::same_text(form, &raw.to_string()),
            None => false,
        };
        if is_registered {
            CanonicalEmojiKey::Unicode { utf8: raw.to_string() }
        } else if n == 2 && '0' <= cs[0] && cs[0] <= '9' && cs[1] == KEYCAP {
            let digit: u8 = (cs[0] as u32 - '0' as u32) as u8;
            CanonicalEmojiKey::BoxedSingleDigit { digit }
        } else if n == 1 && (('!' <= cs[0] && cs[0] <= '/') || (':' <= cs[0] && cs[0] <= '@') || (
        '[' <= cs[0] && cs[0] <= '`') || ('{' <= cs[0] && cs[0] <= '~')) {
            CanonicalEmojiKey::SingleCodepointPunctuation(cs[0])
        } else {
            CanonicalEmojiKey::Uncategorized(raw.to_string())
        }
    }

    /// Classifies a reaction string as it comes from the platform. The first
    /// rule that matches decides: a local custom emoji `:name@.:`; a string that
    /// the emoji registry gives as its own fully qualified form; an ASCII digit
    /// followed by the keycap mark, exactly two characters; a single ASCII
    /// punctuation or symbol character (other characters, such as `©` or `→`,
    /// are not in this class); anything else, the empty string included, kept
    /// verbatim as uncategorized.
    pub fn classify(raw: &str) -> (r: CanonicalEmojiKey)
        ensures
            r@ == classify_str(raw@),
    {
        let registry = registry_lookup(raw);
        CanonicalEmojiKey::classify_with_registry(raw, &registry)
    }

    /// The wire form of this key.
    pub fn render(&self) -> (r: String)
        ensures
            r@ == render_spec(self@),
    {
        match self {
            CanonicalEmojiKey::SingleCodepointPunctuation(c) => {
                let mut s = String::new();
                push_char(&mut s, *c);
                assert(s@ =~= seq![*c]);
                s
            },
            CanonicalEmojiKey::BoxedSingleDigit { digit } => {
                let d = *digit;
                let mut s = String::new();
                if d >= 100 {
                    push_char(&mut s, (d / 100 + 48) as char);
                }
                if d >= 10 {
                    push_char(&mut s, (d / 10 % 10 + 48) as char);
                }
                push_char(&mut s, (d % 10 + 48) as char);
                push_char(&mut s, KEYCAP);
                proof {
                    let n = d as nat;
                    if n >= 100 {
                        assert(decimal(n / 100) == seq![digit_char(n / 100)]);
                        assert(decimal(n / 10) =~= seq![digit_char(n / 100), digit_char((n / 10) % 10)]);
                    } else if n >= 10 {
                        assert(decimal(n / 10) == seq![digit_char(n / 10)]);
                    }
                }
                assert(s@ =~= keycap_of(d));
                s
            },
            CanonicalEmojiKey::Unicode { utf8 } => utf8.clone(),
            CanonicalEmojiKey::Custom { name, .. } => {
                let mut s = String::new();
                push_char(&mut s, ':');
                let cs = chars_of(name.0.as_str());
                push_chars(&mut s, &cs, 0, cs.len());
                push_char(&mut s, '@');
                push_char(&mut s, '.');
                push_char(&mut s, ':');
                assert(cs@.subrange(0, cs@.len() as int) =~= cs@);
                assert(s@ =~= custom_ref_of(name.0@));
                s
            },
            CanonicalEmojiKey::Uncategorized(s) => s.clone(),
        }
    }
}

} // verus!
