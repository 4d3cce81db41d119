use vstd::prelude::*;

use crate::ids::UserId;

verus! {

/// A set of user identifiers, grown one at a time, holding each once.
pub struct AccumulatedUsers {
    ids: Vec<UserId>,
}

pub open spec fn user_views(ids: Seq<UserId>) -> Seq<Seq<char>> {
    ids.map_values(|u: UserId| u@)
}

impl AccumulatedUsers {
    /// The identifiers held.
    pub closed spec fn view(&self) -> Set<Seq<char>> {
        user_views(self.ids@).to_set()
    }

    #[verifier::type_invariant]
    spec fn well_formed(&self) -> bool {
        user_views(self.ids@).no_duplicates()
    }

    /// The set is finite.
    pub proof fn lemma_finite(&self)
        ensures
            self.view().finite(),
    {
        vstd::seq_lib::seq_to_set_is_finite(user_views(self.ids@));
    }

    /// An empty set.
    pub fn new() -> (r: Self)
        ensures
            r.view() == Set::<Seq<char>>::empty(),
    {
        let r = AccumulatedUsers { ids: Vec::new() };
        assert(r.view() =~= Set::<Seq<char>>::empty());
        r
    }

    /// Whether `id` is held.
    pub fn contains(&self, id: &UserId) -> (r: bool)
        ensures
            r == self.view().contains(id@),
    {
        let mut i: usize = 0;
        while i < self.ids.len()
            invariant
                i <= self.ids@.len(),
                forall|k: int| 0 <= k < i ==> (#[trigger] self.ids@[k])@ != id@,
            decreases self.ids@.len() - i,
        {
            if crate::text::same_text(&self.ids[i].0, &id.0) {
                assert(user_views(self.ids@)[i as int] == id@);
                return true;
            }
            i = i + 1;
        }
        assert(!user_views(self.ids@).contains(id@));
        false
    }

    /// Adds `id`; nothing changes where it is already held.
    pub fn insert(&mut self, id: UserId)
        ensures
            final(self).view() == old(self).view().insert(id@),
    {
        proof {
            use_type_invariant(&*self);
        }
        if self.contains(&id) {
            assert(self.view().insert(id@) =~= self.view());
            return;
        }
        let ghost before = user_views(self.ids@);
        let ghost v = id@;
        let mut ids: Vec<UserId> = Vec::new();
        core::mem::swap(&mut self.ids, &mut ids);
        ids.push(id);
        assert(user_views(ids@) =~= before.push(v));
        self.ids = ids;
        proof {
            before.lemma_push_to_set_commute(v);
        }
    }

    /// The number of identifiers held.
    pub fn len(&self) -> (r: usize)
        ensures
            r == self.view().len(),
    {
        proof {
            use_type_invariant(self);
            user_views(self.ids@).unique_seq_to_set();
        }
        self.ids.len()
    }

    /// The identifiers held, each once.
    pub fn to_vec(&self) -> (r: Vec<UserId>)
        ensures
            user_views(r@).to_set() == self.view(),
            user_views(r@).no_duplicates(),
            r@.len() == self.view().len(),
    {
        proof {
            use_type_invariant(self);
            user_views(self.ids@).unique_seq_to_set();
        }
        let mut out: Vec<UserId> = Vec::new();
        let mut i: usize = 0;
        while i < self.ids.len()
            invariant
                i <= self.ids@.len(),
                out@.len() == i,
                forall|k: int| 0 <= k < i ==> (#[trigger] out@[k])@ == self.ids@[k]@,
            decreases self.ids@.len() - i,
        {
            out.push(self.ids[i].clone());
            i = i + 1;
        }
        assert(user_views(out@) =~= user_views(self.ids@));
        out
    }
}

} // verus!
