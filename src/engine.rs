//! The governance engine: the public operations over the three stores.
use vstd::prelude::*;
use crate::model::{
    create_step, finalize_step, initial, inv, lemma_create_inv, lemma_finalize_inv,
    lemma_initial_inv, lemma_set_role_inv, lemma_vote_inv, set_role_step, vote_fits, vote_step,
    GovernanceState,
};
use crate::policy::{authorize, Operation};
use crate::proposals::{proposal_at, ProposalStore};
use crate::roles::{role_in, RoleRegistry};
use crate::types::{AccountId, GovernanceError, Proposal, ProposalStatus, Role};
use crate::votes::VoteLedger;

verus! {

/// The engine. Every operation takes the caller's identity and the current
/// time as arguments, checks everything before it changes anything, and
/// either applies in full or returns an error and changes nothing.
pub struct DaoGovernance {
    roles: RoleRegistry,
    proposals: ProposalStore,
    votes: VoteLedger,
    quorum: u32,
}

impl View for DaoGovernance {
    type V = GovernanceState;

    closed spec fn view(&self) -> GovernanceState {
        GovernanceState {
            roles: self.roles@,
            proposals: self.proposals@,
            votes: self.votes@,
            quorum: self.quorum,
        }
    }
}

impl DaoGovernance {
    /// The three stores are well formed.
    pub closed spec fn stores_wf(&self) -> bool {
        &&& self.roles.wf()
        &&& self.proposals.wf()
        &&& self.votes.wf()
    }

    /// The stores are well formed and the state satisfies the invariant.
    pub open spec fn wf(&self) -> bool {
        &&& self.stores_wf()
        &&& inv(self@)
    }

    /// An engine with the given quorum in which nobody holds a role yet.
    pub fn new(quorum: u32) -> (r: DaoGovernance)
        ensures
            r.wf(),
            r@ == initial(quorum, Map::empty()),
    {
        proof {
            lemma_initial_inv(quorum, Map::empty());
        }
        DaoGovernance {
            roles: RoleRegistry::new(),
            proposals: ProposalStore::new(),
            votes: VoteLedger::new(),
            quorum,
        }
    }

    /// An engine with the given quorum in which `admin` holds `Admin`.
    pub fn with_admin(quorum: u32, admin: AccountId) -> (r: DaoGovernance)
        ensures
            r.wf(),
            r@ == initial(quorum, Map::empty().insert(admin, Role::Admin)),
    {
        proof {
            lemma_initial_inv(quorum, Map::empty().insert(admin, Role::Admin));
        }
        DaoGovernance {
            roles: RoleRegistry::with_admin(admin),
            proposals: ProposalStore::new(),
            votes: VoteLedger::new(),
            quorum,
        }
    }

    /// Gives `target` the role `role` on behalf of `caller`, who must hold
    /// `Admin` (else `Unauthorized`).
    pub fn set_role(&mut self, caller: AccountId, target: AccountId, role: Role) -> (r: Result<
        (),
        GovernanceError,
    >)
        requires
            old(self).wf(),
        ensures
            final(self).wf(),
            (final(self)@, r) == set_role_step(old(self)@, caller, target, role),
    {
        proof {
            lemma_set_role_inv(self@, caller, target, role);
        }
        self.roles.set_role(caller, target, role)
    }

    /// Creates a proposal of `caller` with deadline `end_block` at time
    /// `now` and returns it. The caller must hold `Tutor` or `Admin` (else
    /// `Unauthorized`), and `end_block` must be after `now` (else
    /// `InvalidEndBlock`).
    pub fn create_proposal(
        &mut self,
        caller: AccountId,
        title: String,
        description: String,
        end_block: u64,
        now: u64,
    ) -> (r: Result<Proposal, GovernanceError>)
        requires
            old(self).wf(),
        ensures
            final(self).wf(),
            (final(self)@, r) == create_step(old(self)@, caller, title, description, end_block, now),
            r matches Ok(p) ==> forall|i: int|
                0 <= i < old(self)@.proposals.len() ==> #[trigger] old(self)@.proposals[i].id
                    < p.id,
    {
        // A store's length is a `usize`, so the next id fits in a `u64`.
        let next_id = self.proposals.len();
        proof {
            assert(next_id <= u64::MAX);
            lemma_create_inv(self@, caller, title, description, end_block, now);
        }
        if !authorize(self.roles.get_role(caller), Operation::CreateProposal) {
            return Err(GovernanceError::Unauthorized);
        }
        self.proposals.create(title, description, caller, end_block, now)
    }

    /// Casts `caller`'s vote on proposal `proposal_id` at time `now`. The
    /// caller must hold `Student` or `Tutor` (else `Unauthorized`); the
    /// proposal must exist (`ProposalNotFound`), be `Active`
    /// (`VotingClosed`), have a deadline not before `now` (`VotingExpired`),
    /// and have no vote of `caller` yet (`AlreadyVoted`). On success the
    /// vote is recorded and counted together.
    pub fn vote(&mut self, caller: AccountId, proposal_id: u64, support: bool, now: u64) -> (r:
        Result<(), GovernanceError>)
        requires
            old(self).wf(),
            vote_fits(old(self)@, proposal_id, support),
        ensures
            final(self).wf(),
            (final(self)@, r) == vote_step(old(self)@, caller, proposal_id, support, now),
    {
        proof {
            lemma_vote_inv(self@, caller, proposal_id, support, now);
        }
        if !authorize(self.roles.get_role(caller), Operation::Vote) {
            return Err(GovernanceError::Unauthorized);
        }
        let mut proposal = match self.proposals.get(proposal_id) {
            Some(p) => p,
            None => {
                return Err(GovernanceError::ProposalNotFound);
            },
        };
        if proposal.status != ProposalStatus::Active {
            return Err(GovernanceError::VotingClosed);
        }
        if now > proposal.end_block {
            return Err(GovernanceError::VotingExpired);
        }
        match self.votes.record(proposal_id, caller, support) {
            Ok(()) => {},
            Err(e) => {
                return Err(e);
            },
        }
        if support {
            proposal.yes_votes = proposal.yes_votes + 1;
        } else {
            proposal.no_votes = proposal.no_votes + 1;
        }
        self.proposals.replace(proposal);
        Ok(())
    }

    /// Resolves proposal `proposal_id` at time `now` and returns its new
    /// status: `Accepted` when its total vote count reaches the quorum and
    /// its yes votes outnumber its no votes, `Rejected` otherwise. The
    /// proposal must exist (`ProposalNotFound`), still be `Active`
    /// (`VotingClosed`), and have its deadline before `now`
    /// (`VotingNotEnded`).
    pub fn finalize_proposal(&mut self, proposal_id: u64, now: u64) -> (r: Result<
        ProposalStatus,
        GovernanceError,
    >)
        requires
            old(self).wf(),
        ensures
            final(self).wf(),
            (final(self)@, r) == finalize_step(old(self)@, proposal_id, now),
    {
        proof {
            lemma_finalize_inv(self@, proposal_id, now);
        }
        let mut proposal = match self.proposals.get(proposal_id) {
            Some(p) => p,
            None => {
                return Err(GovernanceError::ProposalNotFound);
            },
        };
        if proposal.status != ProposalStatus::Active {
            return Err(GovernanceError::VotingClosed);
        }
        if now <= proposal.end_block {
            return Err(GovernanceError::VotingNotEnded);
        }
        let total = proposal.yes_votes as u64 + proposal.no_votes as u64;
        let status = if total >= self.quorum as u64 && proposal.yes_votes > proposal.no_votes {
            ProposalStatus::Accepted
        } else {
            ProposalStatus::Rejected
        };
        proposal.status = status;
        self.proposals.replace(proposal);
        Ok(status)
    }

    /// The proposal with id `proposal_id`, if there is one.
    pub fn get_proposal(&self, proposal_id: u64) -> (r: Option<Proposal>)
        requires
            self.wf(),
        ensures
            r == proposal_at(self@.proposals, proposal_id),
            r matches Some(p) ==> p.id == proposal_id,
    {
        self.proposals.get(proposal_id)
    }

    /// The role of `who`, if one was assigned.
    pub fn get_role(&self, who: AccountId) -> (r: Option<Role>)
        requires
            self.wf(),
        ensures
            r == role_in(self@.roles, who),
    {
        self.roles.get_role(who)
    }

    /// All proposals, ascending by id.
    pub fn list_proposals(&self) -> (r: Vec<Proposal>)
        requires
            self.wf(),
        ensures
            r@ == self@.proposals,
            forall|i: int| 0 <= i < r@.len() ==> #[trigger] r@[i].id == i,
    {
        self.proposals.list_all()
    }

    /// Whether `voter` has voted on proposal `proposal_id`.
    pub fn has_voted(&self, proposal_id: u64, voter: AccountId) -> (r: bool)
        requires
            self.wf(),
        ensures
            r == self@.votes.contains_key((proposal_id, voter)),
    {
        self.votes.has_voted(proposal_id, voter)
    }

    /// The quorum the engine was built with.
    pub fn quorum(&self) -> (r: u32)
        ensures
            r == self@.quorum,
    {
        self.quorum
    }
}

} // verus!
