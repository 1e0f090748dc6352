//! The proposal store: proposals under sequential ids, starting at 0.
use vstd::prelude::*;
use crate::types::{AccountId, GovernanceError, Proposal, ProposalStatus};

verus! {

/// The proposal with id `id` among `proposals`, if there is one.
pub open spec fn proposal_at(proposals: Seq<Proposal>, id: u64) -> Option<Proposal> {
    if id < proposals.len() {
        Some(proposals[id as int])
    } else {
        None
    }
}

/// A freshly created proposal: no votes yet, `Active`.
pub open spec fn fresh_proposal(
    id: u64,
    title: String,
    description: String,
    proposer: AccountId,
    end_block: u64,
) -> Proposal {
    Proposal {
        id,
        title,
        description,
        proposer,
        yes_votes: 0,
        no_votes: 0,
        status: ProposalStatus::Active,
        end_block,
    }
}

/// Stores the proposals in creation order. The proposal at position `i`
/// has id `i`, so ids are unique, increase in creation order and are never
/// reused. Its view is that sequence.
pub struct ProposalStore {
    items: Vec<Proposal>,
}

impl View for ProposalStore {
    type V = Seq<Proposal>;

    closed spec fn view(&self) -> Seq<Proposal> {
        self.items@
    }
}

impl ProposalStore {
    /// Each proposal's id is its position.
    pub open spec fn wf(&self) -> bool {
        forall|i: int| 0 <= i < self@.len() ==> #[trigger] self@[i].id == i
    }

    /// An empty store.
    pub fn new() -> (r: ProposalStore)
        ensures
            r.wf(),
            r@ == Seq::<Proposal>::empty(),
    {
        ProposalStore { items: Vec::new() }
    }

    /// The number of proposals created so far, which is also the next id.
    pub fn len(&self) -> (r: usize)
        ensures
            r == self@.len(),
    {
        self.items.len()
    }

    /// Creates a proposal of `proposer` with deadline `end_block`, at time
    /// `now`. Fails with `InvalidEndBlock`, changing nothing, unless
    /// `end_block > now`; otherwise stores and returns a fresh proposal
    /// under the next id.
    pub fn create(
        &mut self,
        title: String,
        description: String,
        proposer: AccountId,
        end_block: u64,
        now: u64,
    ) -> (r: Result<Proposal, GovernanceError>)
        requires
            old(self).wf(),
        ensures
            final(self).wf(),
            end_block <= now ==> r == Err::<Proposal, GovernanceError>(
                GovernanceError::InvalidEndBlock,
            ) && final(self)@ == old(self)@,
            end_block > now ==> r == Ok::<Proposal, GovernanceError>(
                fresh_proposal(old(self)@.len() as u64, title, description, proposer, end_block),
            ) && final(self)@ == old(self)@.push(r->Ok_0),
    {
        if end_block <= now {
            return Err(GovernanceError::InvalidEndBlock);
        }
        let proposal = Proposal {
            id: self.items.len() as u64,
            title,
            description,
            proposer,
            yes_votes: 0,
            no_votes: 0,
            status: ProposalStatus::Active,
            end_block,
        };
        let stored = proposal.clone();
        self.items.push(stored);
        Ok(proposal)
    }

    /// The proposal with id `id`, or `None` when there is none.
    pub fn get(&self, id: u64) -> (r: Option<Proposal>)
        ensures
            r == proposal_at(self@, id),
    {
        if id < self.items.len() as u64 {
            Some(self.items[id as usize].clone())
        } else {
            None
        }
    }

    /// All proposals, ascending by id.
    pub fn list_all(&self) -> (r: Vec<Proposal>)
        ensures
            r@ == self@,
    {
        let mut out: Vec<Proposal> = Vec::new();
        let mut i: usize = 0;
        while i < self.items.len()
            invariant
                i <= self.items@.len(),
                out@ == self.items@.subrange(0, i as int),
            decreases self.items@.len() - i,
        {
            out.push(self.items[i].clone());
            i = i + 1;
            assert(out@ =~= self.items@.subrange(0, i as int));
        }
        assert(out@ =~= self.items@);
        out
    }

    /// Puts `proposal` in the place of the stored proposal with the same id.
    pub(crate) fn replace(&mut self, proposal: Proposal)
        requires
            old(self).wf(),
            proposal.id < old(self)@.len(),
        ensures
            final(self).wf(),
            final(self)@ == old(self)@.update(proposal.id as int, proposal),
    {
        let n = self.items.len();
        assert(proposal.id < n);
        let at = proposal.id as usize;
        self.items.set(at, proposal);
    }
}

} // verus!
