use vstd::prelude::*;

use crate::ids::{ChannelId, NoteId};
use crate::note::{Note, earlier, is_first_oldest, oldest_note_index};
use crate::users::AccumulatedUsers;

verus! {

/// Seconds since the Unix epoch, as a timeline request bound.
#[derive(Clone, Copy, PartialEq, Eq, Structural, Debug)]
pub struct UnixDateTime(pub u32);

/// How many notes one timeline request asks for.
pub const PAGE_SIZE: usize = 60;

/// One request for a page of a channel's timeline: notes newer than
/// `note_after` and older than `note_before`, newest first.
pub struct ChannelTimelineCommand {
    pub channel_id: ChannelId,
    pub limit: usize,
    pub note_after: Option<NoteId>,
    pub note_before: Option<NoteId>,
    pub date_after: Option<UnixDateTime>,
    pub date_before: Option<UnixDateTime>,
}

/// Whether a crawl goes on.
#[derive(Clone, Copy, PartialEq, Eq, Structural, Debug)]
pub enum CrawlState {
    Running,
    Done,
}

/// The mathematical state of a crawl.
pub struct CrawlModel {
    pub channel: Seq<char>,
    pub after: Option<Seq<char>>,
    /// The exclusive upper bound of the next page.
    pub cursor: Option<Seq<char>>,
    /// The authors of every page emitted so far.
    pub users: Set<Seq<char>>,
    pub done: bool,
}

pub open spec fn opt_id(o: Option<NoteId>) -> Option<Seq<char>> {
    match o {
        Some(id) => Some(id@),
        None => None,
    }
}

/// The authors of the notes of a page.
pub open spec fn authors(page: Seq<Note>) -> Set<Seq<char>> {
    Set::new(|u: Seq<char>| exists|i: int| 0 <= i < page.len() && #[trigger] page[i].user.id@ == u)
}

/// The identifier of the first of the earliest-created notes of a page.
pub open spec fn oldest_id(page: Seq<Note>) -> Seq<char> {
    page[choose|i: int| is_first_oldest(page, i)].id@
}

/// One step of a crawl on the page that its request returned: an empty page
/// ends the crawl; any other moves the cursor to the page's oldest note and
/// adds the page's authors. A finished crawl stays as it is.
pub open spec fn step_spec(s: CrawlModel, page: Seq<Note>) -> CrawlModel {
    if s.done {
        s
    } else if page.len() == 0 {
        CrawlModel { done: true, ..s }
    } else {
        CrawlModel { cursor: Some(oldest_id(page)), users: s.users + authors(page), ..s }
    }
}

/// The state after a crawl has been handed `pages` in turn.
pub open spec fn run_spec(s: CrawlModel, pages: Seq<Seq<Note>>) -> CrawlModel
    decreases pages.len(),
{
    if pages.len() == 0 {
        s
    } else {
        run_spec(step_spec(s, pages[0]), pages.drop_first())
    }
}

/// The authors of the pages before the first empty one.
pub open spec fn authors_until_empty(pages: Seq<Seq<Note>>) -> Set<Seq<char>>
    decreases pages.len(),
{
    if pages.len() == 0 || pages[0].len() == 0 {
        Set::empty()
    } else {
        authors(pages[0]) + authors_until_empty(pages.drop_first())
    }
}

/// Only one index of a page is its first oldest note.
pub proof fn lemma_first_oldest_unique(page: Seq<Note>, i: int, j: int)
    requires
        is_first_oldest(page, i),
        is_first_oldest(page, j),
    ensures
        i == j,
{
    if i < j {
        assert(earlier(page[j].created_at, page[i].created_at));
    } else if j < i {
        assert(earlier(page[i].created_at, page[j].created_at));
    }
}

/// Every non-empty page has a first oldest note.
pub proof fn lemma_first_oldest_exists(page: Seq<Note>)
    requires
        page.len() > 0,
    ensures
        exists|i: int| is_first_oldest(page, i),
    decreases page.len(),
{
    if page.len() == 1 {
        assert(is_first_oldest(page, 0));
    } else {
        let init = page.drop_last();
        lemma_first_oldest_exists(init);
        let i = choose|i: int| is_first_oldest(init, i);
        let n = page.len() - 1;
        if earlier(page[n].created_at, page[i].created_at) {
            assert forall|j: int| 0 <= j < n implies earlier(
                page[n].created_at,
                #[trigger] page[j].created_at,
            ) by {
                assert(init[j] == page[j]);
                assert(!earlier(init[j].created_at, init[i].created_at));
            }
            assert(is_first_oldest(page, n));
        } else {
            assert forall|j: int| 0 <= j < page.len() implies !earlier(
                #[trigger] page[j].created_at,
                page[i].created_at,
            ) by {
                if j < n {
                    assert(init[j] == page[j]);
                }
            }
            assert forall|j: int| 0 <= j < i implies earlier(
                page[i].created_at,
                #[trigger] page[j].created_at,
            ) by {
                assert(init[j] == page[j]);
            }
            assert(is_first_oldest(page, i));
        }
    }
}

/// After a step on a non-empty page the cursor is the identifier of that page's
/// first earliest-created note: no note of the page was created before it.
pub proof fn lemma_cursor_is_oldest(s: CrawlModel, page: Seq<Note>)
    requires
        !s.done,
        page.len() > 0,
    ensures
        exists|i: int|
            is_first_oldest(page, i) && step_spec(s, page).cursor == Some(
                #[trigger] page[i].id@,
            ),
{
    lemma_first_oldest_exists(page);
    let i = choose|i: int| is_first_oldest(page, i);
    assert(step_spec(s, page).cursor == Some(page[i].id@));
}

/// A step never loses a user: the users after it are those before it and the
/// authors of the page, and there are at least as many.
pub proof fn lemma_users_grow(s: CrawlModel, page: Seq<Note>)
    requires
        s.users.finite(),
    ensures
        s.users.subset_of(step_spec(s, page).users),
        step_spec(s, page).users.finite(),
        step_spec(s, page).users.len() >= s.users.len(),
        !s.done && page.len() > 0 ==> step_spec(s, page).users == s.users + authors(page),
{
    let t = step_spec(s, page);
    if !s.done && page.len() > 0 {
        let a = authors(page);
        let ids = page.map_values(|n: Note| n.user.id@);
        assert forall|u: Seq<char>| a.contains(u) implies ids.contains(u) by {
            let i = choose|i: int| 0 <= i < page.len() && #[trigger] page[i].user.id@ == u;
            assert(ids[i] == u);
        }
        assert forall|u: Seq<char>| ids.contains(u) implies a.contains(u) by {
            let i = choose|i: int| 0 <= i < ids.len() && ids[i] == u;
            assert(page[i].user.id@ == u);
        }
        assert(a =~= ids.to_set());
        vstd::seq_lib::seq_to_set_is_finite(ids);
        assert(t.users == s.users + a);
        vstd::set_lib::lemma_len_subset(s.users, s.users + a);
    }
}

/// Once a crawl is done, further pages change nothing.
pub proof fn lemma_done_stays(s: CrawlModel, pages: Seq<Seq<Note>>)
    requires
        s.done,
    ensures
        run_spec(s, pages) == s,
    decreases pages.len(),
{
    if pages.len() > 0 {
        lemma_done_stays(s, pages.drop_first());
    }
}

/// A crawl stops at the first empty page: handed pages of which one is empty,
/// it is done, and its users are those it started with and the authors of the
/// pages before the first empty one.
pub proof fn lemma_crawl_terminates(s: CrawlModel, pages: Seq<Seq<Note>>, k: int)
    requires
        !s.done,
        0 <= k < pages.len(),
        pages[k].len() == 0,
    ensures
        run_spec(s, pages).done,
        run_spec(s, pages).users == s.users + authors_until_empty(pages),
    decreases pages.len(),
{
    if pages[0].len() == 0 {
        let t = step_spec(s, pages[0]);
        lemma_done_stays(t, pages.drop_first());
        assert(s.users + Set::<Seq<char>>::empty() =~= s.users);
    } else {
        assert(pages.drop_first()[k - 1] == pages[k]);
        lemma_crawl_terminates(step_spec(s, pages[0]), pages.drop_first(), k - 1);
        assert(s.users + authors(pages[0]) + authors_until_empty(pages.drop_first()) =~= s.users
            + authors_until_empty(pages));
    }
}

/// A crawl of a channel's timeline, from the newest note (or a given one)
/// backward, page by page, until a page comes back empty.
pub struct PaginationCrawler {
    channel_id: ChannelId,
    after: Option<NoteId>,
    cursor: Option<NoteId>,
    users: AccumulatedUsers,
    state: CrawlState,
}

impl View for PaginationCrawler {
    type V = CrawlModel;

    closed spec fn view(&self) -> CrawlModel {
        CrawlModel {
            channel: self.channel_id@,
            after: opt_id(self.after),
            cursor: opt_id(self.cursor),
            users: self.users.view(),
            done: self.state == CrawlState::Done,
        }
    }
}

/// Adds the author of each note of `page` to `users`.
fn add_authors(users: &mut AccumulatedUsers, page: &Vec<Note>)
    ensures
        final(users).view() == old(users).view() + authors(page@),
{
    let ghost before = users.view();
    let mut i: usize = 0;
    while i < page.len()
        invariant
            i <= page@.len(),
            users.view() == before + Set::new(
                |u: Seq<char>| exists|k: int| 0 <= k < i && #[trigger] page@[k].user.id@ == u,
            ),
        decreases page@.len() - i,
    {
        users.insert(page[i].user.id.clone());
        assert(users.view() =~= before + Set::new(
            |u: Seq<char>| exists|k: int| 0 <= k < i + 1 && #[trigger] page@[k].user.id@ == u,
        ));
        i = i + 1;
    }
    assert(users.view() =~= before + authors(page@));
}

fn clone_opt_id(o: &Option<NoteId>) -> (r: Option<NoteId>)
    ensures
        opt_id(r) == opt_id(*o),
{
    match o {
        Some(id) => Some(id.clone()),
        None => None,
    }
}

impl PaginationCrawler {
    /// A crawl of `channel_id` that starts below `before` (or at the newest
    /// note) and asks only for notes newer than `after`, if given.
    pub fn new(channel_id: ChannelId, before: Option<NoteId>, after: Option<NoteId>) -> (r: Self)
        ensures
            r@ == (CrawlModel {
                channel: channel_id@,
                after: opt_id(after),
                cursor: opt_id(before),
                users: Set::empty(),
                done: false,
            }),
            r@.users.finite(),
    {
        PaginationCrawler {
            channel_id,
            after,
            cursor: before,
            users: AccumulatedUsers::new(),
            state: CrawlState::Running,
        }
    }

    /// The request for the next page.
    pub fn next_request(&self) -> (r: ChannelTimelineCommand)
        ensures
            r.channel_id@ == self@.channel,
            r.limit == PAGE_SIZE,
            opt_id(r.note_after) == self@.after,
            opt_id(r.note_before) == self@.cursor,
            r.date_after is None,
            r.date_before is None,
    {
        ChannelTimelineCommand {
            channel_id: self.channel_id.clone(),
            limit: PAGE_SIZE,
            note_after: clone_opt_id(&self.after),
            note_before: clone_opt_id(&self.cursor),
            date_after: None,
            date_before: None,
        }
    }

    /// Takes the page that the last request returned. Returns `Running` where
    /// the page is to be emitted and the crawl goes on, `Done` where it ends.
    pub fn step(&mut self, page: &Vec<Note>) -> (r: CrawlState)
        ensures
            final(self)@ == step_spec(old(self)@, page@),
            r == CrawlState::Done <==> final(self)@.done,
            final(self)@.users.finite(),
    {
        proof {
            self.users.lemma_finite();
        }
        if self.state == CrawlState::Done {
            return CrawlState::Done;
        }
        if page.len() == 0 {
            self.state = CrawlState::Done;
            return CrawlState::Done;
        }
        let oldest = oldest_note_index(page);
        proof {
            lemma_first_oldest_exists(page@);
            lemma_first_oldest_unique(page@, oldest as int, choose|i: int| is_first_oldest(page@, i));
        }
        self.cursor = Some(page[oldest].id.clone());
        add_authors(&mut self.users, page);
        proof {
            self.users.lemma_finite();
        }
        CrawlState::Running
    }

    /// Whether the crawl has ended.
    pub fn is_done(&self) -> (r: bool)
        ensures
            r == self@.done,
    {
        self.state == CrawlState::Done
    }

    /// The exclusive upper bound of the next page.
    pub fn cursor(&self) -> (r: Option<NoteId>)
        ensures
            opt_id(r) == self@.cursor,
    {
        clone_opt_id(&self.cursor)
    }

    /// The authors of every page emitted so far.
    pub fn users(&self) -> (r: &AccumulatedUsers)
        ensures
            r.view() == self@.users,
            self@.users.finite(),
    {
        proof {
            self.users.lemma_finite();
        }
        &self.users
    }
}

} // verus!
