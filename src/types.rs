//! The data of the engine: identities, roles, proposals, errors and notices.
use vstd::prelude::*;

verus! {

/// An authenticated participant identity: 32 opaque bytes.
#[derive(Clone, Copy, Debug, Eq)]
pub struct AccountId(pub [u8; 32]);

impl AccountId {
    /// Two identities are the same participant when their bytes agree.
    fn same_bytes(&self, other: &AccountId) -> (r: bool)
        ensures
            r == (*self == *other),
    {
        broadcast use vstd::array::group_array_axioms;

        let mut i: usize = 0;
        while i < 32
            invariant
                i <= 32,
                self.0@.len() == 32,
                other.0@.len() == 32,
                forall|k: int| 0 <= k < i ==> self.0@[k] == other.0@[k],
            decreases 32 - i,
        {
            if self.0[i] != other.0[i] {
                assert(self.0[i as int] != other.0[i as int]);
                return false;
            }
            i = i + 1;
        }
        proof {
            assert(self.0 =~= other.0);
        }
        true
    }
}

impl PartialEq for AccountId {
    fn eq(&self, other: &AccountId) -> (r: bool) {
        self.same_bytes(other)
    }
}

impl vstd::std_specs::cmp::PartialEqSpecImpl for AccountId {
    open spec fn obeys_eq_spec() -> bool {
        true
    }

    open spec fn eq_spec(&self, other: &AccountId) -> bool {
        *self == *other
    }
}

/// A coarse capability tier gating which operations an identity may invoke.
#[derive(Clone, Copy, Debug, PartialEq, Eq, Structural)]
pub enum Role {
    Tutor,
    Student,
    Admin,
}

/// Where a proposal stands. Created `Active`; `Accepted` and `Rejected` are
/// terminal. `Expired` is reserved: no operation produces it.
#[derive(Clone, Copy, Debug, PartialEq, Eq, Structural)]
pub enum ProposalStatus {
    Active,
    Accepted,
    Rejected,
    Expired,
}

/// A unit of decision with a bounded voting window.
///
/// `end_block` is the deadline: votes are taken while the current time is at
/// most `end_block`, and finalization is allowed once it is past.
#[derive(Debug, PartialEq, Eq)]
pub struct Proposal {
    pub id: u64,
    pub title: String,
    pub description: String,
    pub proposer: AccountId,
    pub yes_votes: u32,
    pub no_votes: u32,
    pub status: ProposalStatus,
    pub end_block: u64,
}

impl Clone for Proposal {
    fn clone(&self) -> (r: Proposal)
        ensures
            r == *self,
    {
        Proposal {
            id: self.id,
            title: self.title.clone(),
            description: self.description.clone(),
            proposer: self.proposer,
            yes_votes: self.yes_votes,
            no_votes: self.no_votes,
            status: self.status,
            end_block: self.end_block,
        }
    }
}

/// Why an operation was refused. A refused operation changes nothing.
#[derive(Clone, Copy, Debug, PartialEq, Eq, Structural)]
pub enum GovernanceError {
    /// The caller's role does not allow the operation.
    Unauthorized,
    /// No proposal has the given id.
    ProposalNotFound,
    /// The proposal is no longer `Active`.
    VotingClosed,
    /// A vote came after the proposal's deadline.
    VotingExpired,
    /// Finalization was asked for at or before the proposal's deadline.
    VotingNotEnded,
    /// The voter has already voted on the proposal.
    AlreadyVoted,
    /// The deadline of a new proposal is not strictly after the current time.
    InvalidEndBlock,
}

/// Notice that a proposal was created.
#[derive(Debug, PartialEq, Eq)]
pub struct ProposalCreated {
    pub proposal_id: u64,
    pub title: String,
    pub proposer: AccountId,
}

/// Notice that a vote was accepted.
#[derive(Clone, Copy, Debug, PartialEq, Eq)]
pub struct Voted {
    pub proposal_id: u64,
    pub voter: AccountId,
    pub support: bool,
}

/// Notice that a proposal was resolved.
#[derive(Clone, Copy, Debug, PartialEq, Eq)]
pub struct ProposalFinalized {
    pub proposal_id: u64,
    pub status: ProposalStatus,
}

} // verus!
