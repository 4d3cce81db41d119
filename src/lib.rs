//! Archiving a channel's timeline: reaction strings classified into canonical
//! keys and rendered back, the reactions of a note, and the decisions of the
//! crawl that pages a timeline backward and of the loop that resolves users.

pub mod crawl;
pub mod emoji_key;
pub mod ids;
pub mod note;
pub mod profile;
pub mod reactions;
pub mod text;
pub mod users;
