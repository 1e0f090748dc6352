//! The vote ledger: at most one recorded decision per (proposal, voter).
use vstd::prelude::*;
use crate::types::{AccountId, GovernanceError};

verus! {

/// The keys of the voters who recorded `support` on proposal `id`.
pub open spec fn voters_for(votes: Map<(u64, AccountId), bool>, id: u64, support: bool) -> Set<
    (u64, AccountId),
> {
    votes.dom().filter(|k: (u64, AccountId)| k.0 == id && votes[k] == support)
}

/// How many voters recorded `support` on proposal `id`.
pub open spec fn tally(votes: Map<(u64, AccountId), bool>, id: u64, support: bool) -> nat {
    voters_for(votes, id, support).len()
}

/// Recording a new voter's decision adds one to that decision's tally on
/// that proposal and leaves every other tally as it was.
pub proof fn lemma_tally_insert(
    votes: Map<(u64, AccountId), bool>,
    key: (u64, AccountId),
    support: bool,
    id: u64,
    side: bool,
)
    requires
        votes.dom().finite(),
        !votes.contains_key(key),
    ensures
        tally(votes.insert(key, support), id, side) == if id == key.0 && side == support {
            tally(votes, id, side) + 1
        } else {
            tally(votes, id, side)
        },
{
    let after = votes.insert(key, support);
    let before_set = voters_for(votes, id, side);
    let after_set = voters_for(after, id, side);
    vstd::set_lib::lemma_len_subset(before_set, votes.dom());
    if id == key.0 && side == support {
        assert(after_set =~= before_set.insert(key));
        assert(!before_set.contains(key));
    } else {
        assert(after_set =~= before_set);
    }
}

/// Stores each voter's decision on each proposal. Its view maps
/// `(proposal id, voter)` to the decision; a key's presence means "has voted".
pub struct VoteLedger {
    records: Vec<(u64, AccountId, bool)>,
    cast: Ghost<Map<(u64, AccountId), bool>>,
}

impl View for VoteLedger {
    type V = Map<(u64, AccountId), bool>;

    closed spec fn view(&self) -> Map<(u64, AccountId), bool> {
        self.cast@
    }
}

impl VoteLedger {
    /// The records hold each key once, and hold exactly the view's entries.
    pub closed spec fn wf(&self) -> bool {
        &&& self.cast@.dom().finite()
        &&& forall|i: int|
            0 <= i < self.records@.len() ==> #[trigger] self.cast@.contains_key(
                (self.records@[i].0, self.records@[i].1),
            ) && self.cast@[(self.records@[i].0, self.records@[i].1)] == self.records@[i].2
        &&& forall|k: (u64, AccountId)|
            #[trigger] self.cast@.contains_key(k) ==> exists|i: int|
                0 <= i < self.records@.len() && self.records@[i].0 == k.0
                    && self.records@[i].1 == k.1
    }

    /// An empty ledger.
    pub fn new() -> (r: VoteLedger)
        ensures
            r.wf(),
            r@ == Map::<(u64, AccountId), bool>::empty(),
    {
        VoteLedger { records: Vec::new(), cast: Ghost(Map::empty()) }
    }

    /// Whether `voter` has voted on proposal `id`.
    pub fn has_voted(&self, id: u64, voter: AccountId) -> (r: bool)
        requires
            self.wf(),
        ensures
            r == self@.contains_key((id, voter)),
    {
        let mut i: usize = 0;
        while i < self.records.len()
            invariant
                i <= self.records@.len(),
                self.wf(),
                forall|k: int|
                    0 <= k < i ==> !(self.records@[k].0 == id && self.records@[k].1 == voter),
            decreases self.records@.len() - i,
        {
            if self.records[i].0 == id && self.records[i].1 == voter {
                assert(self@.contains_key((self.records@[i as int].0, self.records@[i as int].1)));
                return true;
            }
            i = i + 1;
        }
        false
    }

    /// Records `voter`'s decision on proposal `id`. Fails with
    /// `AlreadyVoted`, changing nothing, when a decision is already recorded.
    pub fn record(&mut self, id: u64, voter: AccountId, support: bool) -> (r: Result<
        (),
        GovernanceError,
    >)
        requires
            old(self).wf(),
        ensures
            final(self).wf(),
            old(self)@.contains_key((id, voter)) ==> r == Err::<(), GovernanceError>(
                GovernanceError::AlreadyVoted,
            ) && final(self)@ == old(self)@,
            !old(self)@.contains_key((id, voter)) ==> r == Ok::<(), GovernanceError>(()) && final(self)@ == old(self)@.insert(
                (id, voter),
                support,
            ),
    {
        if self.has_voted(id, voter) {
            return Err(GovernanceError::AlreadyVoted);
        }
        self.records.push((id, voter, support));
        self.cast = Ghost(self.cast@.insert((id, voter), support));
        assert forall|k: (u64, AccountId)| #[trigger] self.cast@.contains_key(k) implies exists|
            i: int,
        |
            0 <= i < self.records@.len() && self.records@[i].0 == k.0 && self.records@[i].1
                == k.1 by {
            if k != (id, voter) {
                let j = choose|j: int|
                    0 <= j < old(self).records@.len() && old(self).records@[j].0 == k.0
                        && old(self).records@[j].1 == k.1;
                assert(self.records@[j] == old(self).records@[j]);
            } else {
                assert(self.records@[old(self).records@.len() as int] == (id, voter, support));
            }
        }
        Ok(())
    }
}

} // verus!
