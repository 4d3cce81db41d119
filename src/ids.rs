use vstd::prelude::*;

verus! {

/// Identifies a note. Never interpreted.
#[derive(Debug, PartialEq, Eq, Hash)]
pub struct NoteId(pub String);

/// Identifies a channel. Never interpreted.
#[derive(Debug, PartialEq, Eq, Hash)]
pub struct ChannelId(pub String);

/// Identifies a user. Never interpreted.
#[derive(Debug, PartialEq, Eq, Hash)]
pub struct UserId(pub String);

impl View for NoteId {
    type V = Seq<char>;

    open spec fn view(&self) -> Seq<char> {
        self.0@
    }
}

impl View for ChannelId {
    type V = Seq<char>;

    open spec fn view(&self) -> Seq<char> {
        self.0@
    }
}

impl View for UserId {
    type V = Seq<char>;

    open spec fn view(&self) -> Seq<char> {
        self.0@
    }
}

impl Clone for NoteId {
    fn clone(&self) -> (r: Self)
        ensures
            r@ == self@,
    {
        NoteId(self.0.clone())
    }
}

impl Clone for ChannelId {
    fn clone(&self) -> (r: Self)
        ensures
            r@ == self@,
    {
        ChannelId(self.0.clone())
    }
}

impl Clone for UserId {
    fn clone(&self) -> (r: Self)
        ensures
            r@ == self@,
    {
        UserId(self.0.clone())
    }
}

impl core::str::FromStr for NoteId {
    type Err = core::convert::Infallible;

    fn from_str(s: &str) -> (r: Result<Self, Self::Err>)
        ensures
            r matches Ok(id) && id@ == s@,
    {
        Ok(NoteId(s.to_string()))
    }
}

impl core::str::FromStr for ChannelId {
    type Err = core::convert::Infallible;

    fn from_str(s: &str) -> (r: Result<Self, Self::Err>)
        ensures
            r matches Ok(id) && id@ == s@,
    {
        Ok(ChannelId(s.to_string()))
    }
}

impl core::str::FromStr for UserId {
    type Err = core::convert::Infallible;

    fn from_str(s: &str) -> (r: Result<Self, Self::Err>)
        ensures
            r matches Ok(id) && id@ == s@,
    {
        Ok(UserId(s.to_string()))
    }
}

/// The credential sent with each request. Its text is never rendered for
/// diagnostics: `debug_string` shows a fixed marker in its place.
#[derive(PartialEq, Eq)]
pub struct MisskeyAuthorizationToken(String);

impl View for MisskeyAuthorizationToken {
    type V = Seq<char>;

    closed spec fn view(&self) -> Seq<char> {
        self.0@
    }
}

/// The diagnostic rendering of every credential.
pub open spec fn redacted_token_text() -> Seq<char> {
    "MisskeyAuthorizationToken { value: \"*****\" }"@
}

impl MisskeyAuthorizationToken {
    /// A credential holding `value`.
    pub fn new(value: String) -> (r: Self)
        ensures
            r@ == value@,
    {
        MisskeyAuthorizationToken(value)
    }

    /// The credential's text, for the one place that must send it.
    pub fn leak(self) -> (r: String)
        ensures
            r@ == self@,
    {
        self.0
    }

    /// The text to show for this credential in logs and errors: the same fixed
    /// marker for every credential.
    pub fn debug_string(&self) -> (r: String)
        ensures
            r@ == redacted_token_text(),
    {
        let r = "MisskeyAuthorizationToken { value: \"*****\" }".to_string();
        proof {
            reveal_strlit("MisskeyAuthorizationToken { value: \"*****\" }");
        }
        r
    }
}

impl Clone for MisskeyAuthorizationToken {
    fn clone(&self) -> (r: Self)
        ensures
            r@ == self@,
    {
        MisskeyAuthorizationToken(self.0.clone())
    }
}

impl core::str::FromStr for MisskeyAuthorizationToken {
    type Err = core::convert::Infallible;

    fn from_str(s: &str) -> (r: Result<Self, Self::Err>)
        ensures
            r matches Ok(id) && id@ == s@,
    {
        Ok(MisskeyAuthorizationToken(s.to_string()))
    }
}

} // verus!
