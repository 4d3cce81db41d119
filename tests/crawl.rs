use channel_archiver::crawl::{CrawlState, PaginationCrawler, PAGE_SIZE};
use channel_archiver::ids::{ChannelId, NoteId, UserId};
use channel_archiver::note::{Note, PartialUser, UtcInstant};
use channel_archiver::reactions::ReactionMap;

fn note(id: &str, secs: i64, nanos: u32, user: &str) -> Note {
    Note {
        id: NoteId(id.to_string()),
        created_at: UtcInstant { secs, subsec_nanos: nanos },
        user: PartialUser { id: UserId(user.to_string()) },
        text: None,
        spoiler_disclaimer_text: None,
        reply_to: None,
        renote_on: None,
        renote_count: 0,
        reply_count: 0,
        reactions: ReactionMap::from_wire(&Vec::new()).unwrap(),
    }
}

fn channel() -> ChannelId {
    ChannelId("chan".to_string())
}

#[test]
fn first_request_has_no_upper_bound() {
    let c = PaginationCrawler::new(channel(), None, Some(NoteId("floor".to_string())));
    let r = c.next_request();
    assert_eq!(r.channel_id, channel());
    assert_eq!(r.limit, PAGE_SIZE);
    assert_eq!(r.limit, 60);
    assert_eq!(r.note_after, Some(NoteId("floor".to_string())));
    assert_eq!(r.note_before, None);
    assert!(r.date_after.is_none() && r.date_before.is_none());
    assert!(!c.is_done());
}

#[test]
fn operator_start_bound_is_the_first_cursor() {
    let c = PaginationCrawler::new(channel(), Some(NoteId("start".to_string())), None);
    assert_eq!(c.next_request().note_before, Some(NoteId("start".to_string())));
    assert_eq!(c.next_request().note_after, None);
}

#[test]
fn full_page_then_empty_page_ends_after_one_emission() {
    let mut c = PaginationCrawler::new(channel(), None, None);
    let page: Vec<Note> = (0..60).map(|i| note(&format!("n{i}"), 1_000 - i as i64, 0, &format!("u{}", i % 7))).collect();
    let mut emitted = 0;
    assert_eq!(c.step(&page), CrawlState::Running);
    emitted += 1;
    assert_eq!(c.cursor(), Some(NoteId("n59".to_string())));
    let second = c.next_request();
    assert_eq!(second.note_before, Some(NoteId("n59".to_string())));
    let empty: Vec<Note> = Vec::new();
    assert_eq!(c.step(&empty), CrawlState::Done);
    assert!(c.is_done());
    assert_eq!(emitted, 1);
    assert_eq!(c.users().len(), 7);
    assert_eq!(c.cursor(), Some(NoteId("n59".to_string())));
}

#[test]
fn cursor_is_the_earliest_created_note_not_the_last() {
    let mut c = PaginationCrawler::new(channel(), None, None);
    let page = vec![note("a", 50, 0, "x"), note("b", 10, 5, "y"), note("c", 10, 2, "x"), note("d", 30, 0, "z")];
    assert_eq!(c.step(&page), CrawlState::Running);
    assert_eq!(c.cursor(), Some(NoteId("c".to_string())));
}

#[test]
fn ties_take_the_first_earliest_note() {
    let mut c = PaginationCrawler::new(channel(), None, None);
    let page = vec![note("a", 20, 0, "x"), note("b", 10, 0, "y"), note("c", 10, 0, "x")];
    c.step(&page);
    assert_eq!(c.cursor(), Some(NoteId("b".to_string())));
}

#[test]
fn empty_first_page_ends_without_moving_the_cursor() {
    let mut c = PaginationCrawler::new(channel(), Some(NoteId("s".to_string())), None);
    assert_eq!(c.step(&Vec::new()), CrawlState::Done);
    assert_eq!(c.cursor(), Some(NoteId("s".to_string())));
    assert_eq!(c.users().len(), 0);
}

#[test]
fn users_accumulate_without_duplicates() {
    let mut c = PaginationCrawler::new(channel(), None, None);
    c.step(&vec![note("a", 5, 0, "u1"), note("b", 4, 0, "u2"), note("c", 3, 0, "u1")]);
    assert_eq!(c.users().len(), 2);
    c.step(&vec![note("d", 2, 0, "u2"), note("e", 1, 0, "u3")]);
    assert_eq!(c.users().len(), 3);
    let users = c.users().to_vec();
    assert_eq!(users.len(), 3);
    for u in ["u1", "u2", "u3"] {
        assert!(c.users().contains(&UserId(u.to_string())));
    }
    assert!(!c.users().contains(&UserId("u4".to_string())));
    assert_eq!(c.cursor(), Some(NoteId("e".to_string())));
    assert_eq!(c.step(&Vec::new()), CrawlState::Done);
    assert_eq!(c.step(&vec![note("f", 0, 0, "u9")]), CrawlState::Done);
    assert_eq!(c.users().len(), 3);
}
