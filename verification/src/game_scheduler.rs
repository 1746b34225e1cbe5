use vstd::prelude::*;

verus! {

use crate::user::User;

/// A sequence with `x` added at the end unless it is already present: the
/// insertion of set semantics, keeping first-insertion order.
pub open spec fn insert_unique<T>(s: Seq<T>, x: T) -> Seq<T> {
    if s.contains(x) {
        s
    } else {
        s.push(x)
    }
}

/// A sequence with every occurrence of `x` dropped, everything else keeping
/// its relative order: the removal of set semantics.
pub open spec fn remove_elem<T>(s: Seq<T>, x: T) -> Seq<T>
    decreases s.len(),
{
    if s.len() == 0 {
        Seq::empty()
    } else {
        let rest = remove_elem(s.drop_last(), x);
        if s.last() == x {
            rest
        } else {
            rest.push(s.last())
        }
    }
}

/// Removal keeps a duplicate-free sequence duplicate-free, and its members
/// are exactly the old members other than the removed one.
proof fn lemma_remove_elem_props<T>(s: Seq<T>, x: T)
    requires
        s.no_duplicates(),
    ensures
        remove_elem(s, x).no_duplicates(),
        forall|y: T| #[trigger] remove_elem(s, x).contains(y) <==> s.contains(y) && y != x,
    decreases s.len(),
{
    if s.len() == 0 {
        assert forall|y: T| #[trigger] remove_elem(s, x).contains(y) <==> s.contains(y) && y != x by {
            assert(!remove_elem(s, x).contains(y));
            assert(!s.contains(y));
        }
    } else {
        let dl = s.drop_last();
        let rest = remove_elem(dl, x);
        assert(dl.no_duplicates()) by {
            assert(forall|i: int| 0 <= i < dl.len() ==> dl[i] == s[i]);
        }
        lemma_remove_elem_props(dl, x);
        assert forall|y: T| s.contains(y) <==> dl.contains(y) || y == s.last() by {
            if s.contains(y) {
                let i = choose|i: int| 0 <= i < s.len() && s[i] == y;
                if i < s.len() - 1 {
                    assert(dl[i] == y);
                } else {
                    assert(y == s.last());
                }
            }
            if dl.contains(y) {
                let i = choose|i: int| 0 <= i < dl.len() && dl[i] == y;
                assert(s[i] == y);
            }
            if y == s.last() {
                assert(s[s.len() - 1] == y);
            }
        }
        assert(!dl.contains(s.last())) by {
            if dl.contains(s.last()) {
                let i = choose|i: int| 0 <= i < dl.len() && dl[i] == s.last();
                assert(s[i] == s[s.len() - 1]);
            }
        }
        if s.last() == x {
            assert(remove_elem(s, x) == rest);
        } else {
            assert(remove_elem(s, x) == rest.push(s.last()));
            assert(!rest.contains(s.last()));
            assert forall|y: T| #[trigger] rest.push(s.last()).contains(y) <==> rest.contains(y)
                || y == s.last() by {
                if rest.push(s.last()).contains(y) {
                    let i = choose|i: int|
                        0 <= i < rest.push(s.last()).len() && rest.push(s.last())[i] == y;
                    if i < rest.len() {
                        assert(rest[i] == y);
                    }
                }
                if rest.contains(y) {
                    let i = choose|i: int| 0 <= i < rest.len() && rest[i] == y;
                    assert(rest.push(s.last())[i] == y);
                }
                if y == s.last() {
                    assert(rest.push(s.last())[rest.len() as int] == y);
                }
            }
            assert(rest.push(s.last()).no_duplicates()) by {
                assert(forall|i: int|
                    0 <= i < rest.len() ==> rest.push(s.last())[i] == #[trigger] rest[i]);
                assert(rest.push(s.last())[rest.len() as int] == s.last());
            }
        }
    }
}

/// Tracks the set of live game sessions and the set of participating users —
/// sessions by a caller-chosen handle, users by their id, since user equality
/// is by id alone. Both collections carry set semantics: inserting a present
/// member changes nothing, removing an absent one is a no-op.
#[derive(Debug)]
pub struct GamesScheduler {
    game_set: Vec<u64>,
    participant_set: Vec<u32>,
}

impl GamesScheduler {
    /// The live session handles, in first-insertion order.
    pub closed spec fn games(self) -> Seq<u64> {
        self.game_set@
    }

    /// The participating user ids, in first-insertion order.
    pub closed spec fn participants(self) -> Seq<u32> {
        self.participant_set@
    }

    /// Both collections are genuine sets: no duplicates.
    pub closed spec fn wf(self) -> bool {
        self.game_set@.no_duplicates() && self.participant_set@.no_duplicates()
    }

    pub fn new() -> (scheduler: GamesScheduler)
        ensures
            scheduler.wf(),
            scheduler.games() == Seq::<u64>::empty(),
            scheduler.participants() == Seq::<u32>::empty(),
    {
        GamesScheduler { game_set: Vec::new(), participant_set: Vec::new() }
    }

    pub fn get_game_set(&self) -> (games: &Vec<u64>)
        ensures
            games@ == self.games(),
    {
        &self.game_set
    }

    pub fn get_participant_set(&self) -> (participants: &Vec<u32>)
        ensures
            participants@ == self.participants(),
    {
        &self.participant_set
    }

    pub fn add_game(&mut self, game_id: u64)
        requires
            old(self).wf(),
        ensures
            final(self).wf(),
            final(self).games() == insert_unique(old(self).games(), game_id),
            final(self).participants() == old(self).participants(),
    {
        if !vec_contains_u64(&self.game_set, game_id) {
            self.game_set.push(game_id);
        }
    }

    pub fn add_participant(&mut self, user: &User)
        requires
            old(self).wf(),
        ensures
            final(self).wf(),
            final(self).participants() == insert_unique(old(self).participants(), user.id),
            final(self).games() == old(self).games(),
    {
        if !vec_contains_u32(&self.participant_set, user.id) {
            self.participant_set.push(user.id);
        }
    }

    pub fn remove_game(&mut self, game_id: u64)
        requires
            old(self).wf(),
        ensures
            final(self).wf(),
            final(self).games() == remove_elem(old(self).games(), game_id),
            final(self).participants() == old(self).participants(),
    {
        let ghost prior = self.game_set@;
        let mut kept: Vec<u64> = Vec::new();
        let mut i: usize = 0;
        while i < self.game_set.len()
            invariant
                i <= self.game_set.len(),
                self.game_set@ == prior,
                kept@ == remove_elem(prior.take(i as int), game_id),
            decreases self.game_set.len() - i,
        {
            let id = self.game_set[i];
            proof {
                assert(prior.take(i + 1).drop_last() =~= prior.take(i as int));
                assert(prior.take(i + 1).last() == prior[i as int]);
            }
            if id != game_id {
                kept.push(id);
            }
            i += 1;
        }
        proof {
            assert(prior.take(prior.len() as int) =~= prior);
            lemma_remove_elem_props(prior, game_id);
        }
        self.game_set = kept;
    }

    pub fn remove_participant(&mut self, user: &User)
        requires
            old(self).wf(),
        ensures
            final(self).wf(),
            final(self).participants() == remove_elem(old(self).participants(), user.id),
            final(self).games() == old(self).games(),
    {
        let ghost prior = self.participant_set@;
        let mut kept: Vec<u32> = Vec::new();
        let mut i: usize = 0;
        while i < self.participant_set.len()
            invariant
                i <= self.participant_set.len(),
                self.participant_set@ == prior,
                kept@ == remove_elem(prior.take(i as int), user.id),
            decreases self.participant_set.len() - i,
        {
            let id = self.participant_set[i];
            proof {
                assert(prior.take(i + 1).drop_last() =~= prior.take(i as int));
                assert(prior.take(i + 1).last() == prior[i as int]);
            }
            if id != user.id {
                kept.push(id);
            }
            i += 1;
        }
        proof {
            assert(prior.take(prior.len() as int) =~= prior);
            lemma_remove_elem_props(prior, user.id);
        }
        self.participant_set = kept;
    }
}

/// Whether the list holds the given handle.
fn vec_contains_u64(list: &Vec<u64>, x: u64) -> (found: bool)
    ensures
        found == list@.contains(x),
{
    let mut i: usize = 0;
    while i < list.len()
        invariant
            i <= list.len(),
            forall|j: int| 0 <= j < i ==> list@[j] != x,
        decreases list.len() - i,
    {
        if list[i] == x {
            assert(list@[i as int] == x);
            return true;
        }
        i += 1;
    }
    false
}

/// Whether the list holds the given id.
fn vec_contains_u32(list: &Vec<u32>, x: u32) -> (found: bool)
    ensures
        found == list@.contains(x),
{
    let mut i: usize = 0;
    while i < list.len()
        invariant
            i <= list.len(),
            forall|j: int| 0 <= j < i ==> list@[j] != x,
        decreases list.len() - i,
    {
        if list[i] == x {
            assert(list@[i as int] == x);
            return true;
        }
        i += 1;
    }
    false
}

} // verus!
