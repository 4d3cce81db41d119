use vstd::prelude::*;

use crate::emoji_key::{CanonicalEmojiKey, EmojiKeyModel, classify_str, lemma_classify_injective, render_spec};

verus! {

/// Why raw reactions were refused.
#[derive(Clone, Copy, Debug, PartialEq, Eq, Structural)]
pub enum ReactionError {
    /// A reaction was given with a count of zero.
    ZeroCount,
    /// The same reaction string was given twice.
    DuplicateKey,
}

/// The reactions of a note: distinct keys, each with a positive count, in the
/// order they were given.
pub struct ReactionMap {
    entries: Vec<(CanonicalEmojiKey, usize)>,
}

pub open spec fn keys_distinct(m: Seq<(EmojiKeyModel, nat)>) -> bool {
    forall|i: int, j: int| 0 <= i < j < m.len() ==> m[i].0 != m[j].0
}

pub open spec fn counts_positive(m: Seq<(EmojiKeyModel, nat)>) -> bool {
    forall|i: int| 0 <= i < m.len() ==> #[trigger] m[i].1 > 0
}

pub open spec fn has_zero_count(raw: Seq<(String, usize)>) -> bool {
    exists|i: int| 0 <= i < raw.len() && #[trigger] raw[i].1 == 0
}

pub open spec fn has_duplicate_key(raw: Seq<(String, usize)>) -> bool {
    exists|i: int, j: int| 0 <= i < j < raw.len() && #[trigger] raw[i].0@ == #[trigger] raw[j].0@
}

/// The keys and counts that raw reactions stand for.
pub open spec fn classify_reactions(raw: Seq<(String, usize)>) -> Seq<(EmojiKeyModel, nat)> {
    raw.map_values(|p: (String, usize)| (classify_str(p.0@), p.1 as nat))
}

impl ReactionMap {
    /// The keys and counts, in order.
    pub closed spec fn view(&self) -> Seq<(EmojiKeyModel, nat)> {
        self.entries@.map_values(|p: (CanonicalEmojiKey, usize)| (p.0@, p.1 as nat))
    }

    #[verifier::type_invariant]
    spec fn well_formed(&self) -> bool {
        keys_distinct(self.view()) && counts_positive(self.view())
    }

    /// Builds the reactions of a note from reaction strings and their counts as
    /// the platform sends them.
    pub fn from_wire(raw: &Vec<(String, usize)>) -> (r: Result<ReactionMap, ReactionError>)
        ensures
            has_zero_count(raw@) <==> (r matches Err(ReactionError::ZeroCount)),
            !has_zero_count(raw@) && has_duplicate_key(raw@) <==> (r matches Err(
                ReactionError::DuplicateKey,
            )),
            r matches Ok(m) ==> m.view() == classify_reactions(raw@),
            r matches Ok(m) ==> counts_positive(m.view()) && keys_distinct(m.view()),
    {
        let n = raw.len();
        let mut i: usize = 0;
        while i < n
            invariant
                n == raw@.len(),
                i <= n,
                forall|k: int| 0 <= k < i ==> #[trigger] raw@[k].1 != 0,
            decreases n - i,
        {
            if raw[i].1 == 0 {
                return Err(ReactionError::ZeroCount);
            }
            i = i + 1;
        }
        let mut entries: Vec<(CanonicalEmojiKey, usize)> = Vec::new();
        let mut i: usize = 0;
        while i < n
            invariant
                n == raw@.len(),
                i <= n,
                !has_zero_count(raw@),
                forall|a: int, b: int| 0 <= a < b < i ==> raw@[a].0@ != raw@[b].0@,
                entries@.len() == i,
                forall|k: int|
                    0 <= k < i ==> (#[trigger] entries@[k]).0@ == classify_str(raw@[k].0@)
                        && entries@[k].1 == raw@[k].1,
            decreases n - i,
        {
            let mut j: usize = 0;
            while j < i
                invariant
                    i < n == raw@.len(),
                    j <= i,
                    !has_zero_count(raw@),
                    forall|b: int| 0 <= b < j ==> raw@[b].0@ != raw@[i as int].0@,
                decreases i - j,
            {
                if crate::text::same_text(&raw[j].0, &raw[i].0) {
                    assert(raw@[j as int].0@ == raw@[i as int].0@);
                    return Err(ReactionError::DuplicateKey);
                }
                j = j + 1;
            }
            let key = CanonicalEmojiKey::classify(raw[i].0.as_str());
            entries.push((key, raw[i].1));
            i = i + 1;
        }
        let ghost v = entries@.map_values(|p: (CanonicalEmojiKey, usize)| (p.0@, p.1 as nat));
        assert(v =~= classify_reactions(raw@));
        assert forall|a: int, b: int| 0 <= a < b < v.len() implies v[a].0 != v[b].0 by {
            lemma_classify_injective(raw@[a].0@, raw@[b].0@);
        }
        let m = ReactionMap { entries };
        Ok(m)
    }

    /// The number of distinct reactions.
    pub fn len(&self) -> (r: usize)
        ensures
            r == self.view().len(),
    {
        self.entries.len()
    }

    /// The count of `key`, if the note has that reaction.
    pub fn count_of(&self, key: &CanonicalEmojiKey) -> (r: Option<usize>)
        ensures
            r matches Some(c) ==> exists|i: int|
                0 <= i < self.view().len() && #[trigger] self.view()[i] == (key@, c as nat),
            r is None ==> forall|i: int|
                0 <= i < self.view().len() ==> #[trigger] self.view()[i].0 != key@,
            r matches Some(c) ==> c > 0,
    {
        proof {
            use_type_invariant(self);
        }
        let mut i: usize = 0;
        while i < self.entries.len()
            invariant
                i <= self.entries@.len(),
                self.view().len() == self.entries@.len(),
                counts_positive(self.view()),
                forall|k: int| 0 <= k < i ==> #[trigger] self.view()[k].0 != key@,
            decreases self.entries@.len() - i,
        {
            if self.entries[i].0.same_key(key) {
                assert(self.view()[i as int] == (key@, self.entries[i as int].1 as nat));
                assert(self.view()[i as int].1 > 0);
                return Some(self.entries[i].1);
            }
            i = i + 1;
        }
        None
    }

    /// The reactions as the platform writes them: each key in its wire form.
    pub fn to_wire(&self) -> (r: Vec<(String, usize)>)
        ensures
            r@.len() == self.view().len(),
            forall|i: int|
                0 <= i < r@.len() ==> (#[trigger] r@[i]).0@ == render_spec(self.view()[i].0)
                    && r@[i].1 == self.view()[i].1,
            forall|i: int| 0 <= i < r@.len() ==> (#[trigger] r@[i]).1 > 0,
            keys_distinct(self.view()),
    {
        proof {
            use_type_invariant(self);
        }
        let mut out: Vec<(String, usize)> = Vec::new();
        let mut i: usize = 0;
        while i < self.entries.len()
            invariant
                i <= self.entries@.len(),
                self.view().len() == self.entries@.len(),
                out@.len() == i,
                counts_positive(self.view()),
                forall|k: int|
                    0 <= k < i ==> (#[trigger] out@[k]).0@ == render_spec(self.view()[k].0)
                        && out@[k].1 == self.view()[k].1,
            decreases self.entries@.len() - i,
        {
            out.push((self.entries[i].0.render(), self.entries[i].1));
            i = i + 1;
        }
        out
    }
}

} // verus!
