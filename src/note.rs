use vstd::prelude::*;

use crate::ids::{NoteId, UserId};
use crate::reactions::ReactionMap;

verus! {

/// An instant in UTC: whole seconds since the Unix epoch and the nanoseconds
/// past that second (a leap second may carry the nanoseconds past 10^9).
#[derive(Clone, Copy, PartialEq, Eq, Structural, Debug)]
pub struct UtcInstant {
    pub secs: i64,
    pub subsec_nanos: u32,
}

/// `a` comes strictly before `b`.
pub open spec fn earlier(a: UtcInstant, b: UtcInstant) -> bool {
    a.secs < b.secs || (a.secs == b.secs && a.subsec_nanos < b.subsec_nanos)
}

impl UtcInstant {
    /// Whether this instant comes strictly before `other`.
    pub fn is_earlier_than(&self, other: &UtcInstant) -> (r: bool)
        ensures
            r == earlier(*self, *other),
    {
        self.secs < other.secs || (self.secs == other.secs && self.subsec_nanos
            < other.subsec_nanos)
    }
}

/// Note text in the platform's markup.
pub struct MisskeyFlavoredMarkdown(pub String);

/// The author of a note, by identifier only.
pub struct PartialUser {
    pub id: UserId,
}

/// One post of a channel timeline.
pub struct Note {
    pub id: NoteId,
    pub created_at: UtcInstant,
    pub user: PartialUser,
    /// The body; absent for a plain renote.
    pub text: Option<MisskeyFlavoredMarkdown>,
    /// The content warning shown while the body is folded.
    pub spoiler_disclaimer_text: Option<String>,
    pub reply_to: Option<NoteId>,
    pub renote_on: Option<NoteId>,
    pub renote_count: usize,
    pub reply_count: usize,
    pub reactions: ReactionMap,
}

/// Note `i` is the first of the earliest-created notes of `page`.
pub open spec fn is_first_oldest(page: Seq<Note>, i: int) -> bool {
    &&& 0 <= i < page.len()
    &&& forall|j: int| 0 <= j < page.len() ==> !earlier(#[trigger] page[j].created_at, page[i].created_at)
    &&& forall|j: int| 0 <= j < i ==> earlier(page[i].created_at, #[trigger] page[j].created_at)
}

/// The index of the first of the earliest-created notes of a non-empty page.
pub fn oldest_note_index(page: &Vec<Note>) -> (r: usize)
    requires
        page@.len() > 0,
    ensures
        is_first_oldest(page@, r as int),
{
    let mut best: usize = 0;
    let mut i: usize = 1;
    while i < page.len()
        invariant
            1 <= i <= page@.len(),
            best < i,
            forall|j: int| 0 <= j < i ==> !earlier(#[trigger] page@[j].created_at, page@[best as int].created_at),
            forall|j: int| 0 <= j < best ==> earlier(page@[best as int].created_at, #[trigger] page@[j].created_at),
        decreases page@.len() - i,
    {
        if page[i].created_at.is_earlier_than(&page[best].created_at) {
            best = i;
        }
        i = i + 1;
    }
    best
}

} // verus!
