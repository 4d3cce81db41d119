use vstd::prelude::*;

use crate::ids::UserId;
use crate::users::user_views;

verus! {

/// One request for a user's profile.
pub struct UserDetailCommand {
    pub id: UserId,
}

/// A user's profile.
pub struct DetailedUser {
    pub id: UserId,
    /// The display name; absent where the user set none.
    pub screen_name: Option<String>,
    /// The handle that mentions the user.
    pub mention: String,
    pub is_bot: bool,
    pub is_cat: bool,
    /// Where the current avatar is served.
    pub icon_url: String,
}

/// The name to show for a user: the display name, or the handle where there is
/// none.
pub open spec fn visible_name_of(screen_name: Option<String>, mention: String) -> Seq<char> {
    match screen_name {
        Some(n) => n@,
        None => mention@,
    }
}

impl DetailedUser {
    /// The name to show for this user.
    pub fn visible_name(&self) -> (r: String)
        ensures
            r@ == visible_name_of(self.screen_name, self.mention),
    {
        match &self.screen_name {
            Some(n) => n.clone(),
            None => self.mention.clone(),
        }
    }
}

/// Resolves an explicit list of users one request at a time, in the order
/// given, duplicates included.
pub struct UserResolutionLoop {
    ids: Vec<UserId>,
    next: usize,
}

impl UserResolutionLoop {
    /// The identifiers still to be requested, in order.
    pub closed spec fn remaining(&self) -> Seq<Seq<char>> {
        user_views(self.ids@).subrange(self.next as int, self.ids@.len() as int)
    }

    #[verifier::type_invariant]
    spec fn well_formed(&self) -> bool {
        self.next <= self.ids@.len()
    }

    /// A loop over `ids`.
    pub fn new(ids: Vec<UserId>) -> (r: Self)
        ensures
            r.remaining() == user_views(ids@),
    {
        let r = UserResolutionLoop { ids, next: 0 };
        assert(r.remaining() =~= user_views(r.ids@));
        r
    }

    /// The request for the next user, or `None` once every user was requested.
    pub fn next_request(&mut self) -> (r: Option<UserDetailCommand>)
        ensures
            old(self).remaining().len() == 0 ==> r is None && final(self).remaining() == old(
                self,
            ).remaining(),
            old(self).remaining().len() > 0 ==> (r matches Some(c) && c.id@ == old(
                self,
            ).remaining()[0]) && final(self).remaining() == old(self).remaining().drop_first(),
    {
        proof {
            use_type_invariant(&*self);
        }
        if self.next >= self.ids.len() {
            return None;
        }
        let id = self.ids[self.next].clone();
        self.next = self.next + 1;
        assert(self.remaining() =~= old(self).remaining().drop_first());
        Some(UserDetailCommand { id })
    }
}

/// A pause between requests: whole seconds and the nanoseconds beyond them.
pub open spec fn pause_nanos(p: (u64, u32)) -> int {
    p.0 * 1_000_000_000 + p.1
}

/// The pause between two requests for a cool-down given in milliseconds (none
/// means no pause), split into whole seconds and the remaining nanoseconds.
pub fn pause_between_requests(cool_down_millisecond: Option<u64>) -> (r: (u64, u32))
    ensures
        r.1 < 1_000_000_000,
        pause_nanos(r) == match cool_down_millisecond {
            Some(ms) => ms * 1_000_000,
            None => 0,
        },
{
    match cool_down_millisecond {
        Some(ms) => {
            let secs = ms / 1000;
            let nanos: u32 = ((ms % 1000) as u32) * 1_000_000;
            assert(secs * 1_000_000_000 + (ms % 1000) * 1_000_000 == ms * 1_000_000) by (
            nonlinear_arith)
                requires
                    secs == ms / 1000,
            ;
            (secs, nanos)
        },
        None => (0, 0),
    }
}

} // verus!
