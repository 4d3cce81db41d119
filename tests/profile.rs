use channel_archiver::ids::UserId;
use channel_archiver::profile::{pause_between_requests, DetailedUser, UserResolutionLoop};

fn user(name: Option<&str>) -> DetailedUser {
    DetailedUser {
        id: UserId("9xyz".to_string()),
        screen_name: name.map(|n| n.to_string()),
        mention: "alice".to_string(),
        is_bot: false,
        is_cat: true,
        icon_url: "https://example.com/a.png".to_string(),
    }
}

#[test]
fn missing_display_name_falls_back_to_the_handle() {
    let u = user(None);
    assert!(u.screen_name.is_none());
    assert_eq!(u.mention, "alice");
    assert_eq!(u.visible_name(), "alice");
}

#[test]
fn display_name_is_shown_when_set() {
    assert_eq!(user(Some("Alice A.")).visible_name(), "Alice A.");
}

#[test]
fn users_are_requested_in_order_with_duplicates() {
    let ids = vec![UserId("b".to_string()), UserId("a".to_string()), UserId("b".to_string())];
    let mut l = UserResolutionLoop::new(ids);
    let mut seen = Vec::new();
    while let Some(cmd) = l.next_request() {
        seen.push(cmd.id.0);
    }
    assert_eq!(seen, vec!["b", "a", "b"]);
    assert!(l.next_request().is_none());
}

#[test]
fn empty_user_list_requests_nothing() {
    let mut l = UserResolutionLoop::new(Vec::new());
    assert!(l.next_request().is_none());
}

#[test]
fn pause_splits_milliseconds() {
    assert_eq!(pause_between_requests(Some(1500)), (1, 500_000_000));
    assert_eq!(pause_between_requests(Some(999)), (0, 999_000_000));
    assert_eq!(pause_between_requests(Some(2000)), (2, 0));
    assert_eq!(pause_between_requests(Some(0)), (0, 0));
    assert_eq!(pause_between_requests(None), (0, 0));
}
