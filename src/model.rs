//! The engine as a mathematical state machine: its state, its invariant,
//! and one transition function per mutating operation. Each operation of
//! `DaoGovernance` is proved to follow its transition exactly.
use vstd::prelude::*;
use crate::policy::{allowed, Operation};
use crate::proposals::{fresh_proposal, proposal_at};
use crate::roles::role_in;
use crate::types::{AccountId, GovernanceError, Proposal, ProposalStatus, Role};
use crate::votes::{lemma_tally_insert, tally};

verus! {

/// The whole state of the engine.
pub struct GovernanceState {
    /// The role of each identity that has one.
    pub roles: Map<AccountId, Role>,
    /// The proposals in creation order; the one at position `i` has id `i`.
    pub proposals: Seq<Proposal>,
    /// The decision of each voter on each proposal, keyed by
    /// `(proposal id, voter)`.
    pub votes: Map<(u64, AccountId), bool>,
    /// The minimum number of votes for a proposal to be accepted.
    pub quorum: u32,
}

/// What holds of every state the engine can reach:
/// ids are positions (so unique and increasing), the statuses in use are
/// `Active`, `Accepted` and `Rejected`, votes exist only for stored
/// proposals, and each proposal's tallies count exactly its vote records.
pub open spec fn inv(s: GovernanceState) -> bool {
    &&& s.votes.dom().finite()
    &&& forall|i: int| 0 <= i < s.proposals.len() ==> #[trigger] s.proposals[i].id == i
    &&& forall|i: int|
        0 <= i < s.proposals.len() ==> #[trigger] s.proposals[i].status != ProposalStatus::Expired
    &&& forall|k: (u64, AccountId)| #[trigger] s.votes.contains_key(k) ==> k.0 < s.proposals.len()
    &&& forall|i: int|
        0 <= i < s.proposals.len() ==> (#[trigger] s.proposals[i]).yes_votes == tally(
            s.votes,
            i as u64,
            true,
        ) && s.proposals[i].no_votes == tally(s.votes, i as u64, false)
}

/// The state of a new engine with the given quorum and roles.
pub open spec fn initial(quorum: u32, roles: Map<AccountId, Role>) -> GovernanceState {
    GovernanceState {
        roles,
        proposals: Seq::empty(),
        votes: Map::empty(),
        quorum,
    }
}

/// The resolution rule: accepted iff the total reaches the quorum and the
/// yes votes outnumber the no votes.
pub open spec fn resolve(yes_votes: u32, no_votes: u32, quorum: u32) -> ProposalStatus {
    if yes_votes + no_votes >= quorum && yes_votes > no_votes {
        ProposalStatus::Accepted
    } else {
        ProposalStatus::Rejected
    }
}

/// Whether counting one more `support` vote on proposal `id` fits its tally.
pub open spec fn vote_fits(s: GovernanceState, id: u64, support: bool) -> bool {
    match proposal_at(s.proposals, id) {
        Some(p) => if support {
            p.yes_votes < u32::MAX
        } else {
            p.no_votes < u32::MAX
        },
        None => true,
    }
}

/// `p` with one more vote on the side of `support`.
pub open spec fn counted(p: Proposal, support: bool) -> Proposal {
    if support {
        Proposal { yes_votes: (p.yes_votes + 1) as u32, ..p }
    } else {
        Proposal { no_votes: (p.no_votes + 1) as u32, ..p }
    }
}

/// `setRole`: admins only; overwrites the target's role.
pub open spec fn set_role_step(s: GovernanceState, caller: AccountId, target: AccountId, role: Role) -> (
    GovernanceState,
    Result<(), GovernanceError>,
) {
    if !allowed(role_in(s.roles, caller), Operation::SetRole) {
        (s, Err(GovernanceError::Unauthorized))
    } else {
        (GovernanceState { roles: s.roles.insert(target, role), ..s }, Ok(()))
    }
}

/// `createProposal`: tutors and admins only; the deadline must be after
/// `now`. The new proposal takes the next id.
pub open spec fn create_step(
    s: GovernanceState,
    caller: AccountId,
    title: String,
    description: String,
    end_block: u64,
    now: u64,
) -> (GovernanceState, Result<Proposal, GovernanceError>) {
    if !allowed(role_in(s.roles, caller), Operation::CreateProposal) {
        (s, Err(GovernanceError::Unauthorized))
    } else if end_block <= now {
        (s, Err(GovernanceError::InvalidEndBlock))
    } else {
        let p = fresh_proposal(s.proposals.len() as u64, title, description, caller, end_block);
        (GovernanceState { proposals: s.proposals.push(p), ..s }, Ok(p))
    }
}

/// `vote`: students and tutors only, on an existing `Active` proposal, at
/// or before its deadline, once per voter. Records the decision and counts
/// it in the proposal's tally.
pub open spec fn vote_step(
    s: GovernanceState,
    caller: AccountId,
    id: u64,
    support: bool,
    now: u64,
) -> (GovernanceState, Result<(), GovernanceError>) {
    if !allowed(role_in(s.roles, caller), Operation::Vote) {
        (s, Err(GovernanceError::Unauthorized))
    } else {
        match proposal_at(s.proposals, id) {
            None => (s, Err(GovernanceError::ProposalNotFound)),
            Some(p) => if p.status != ProposalStatus::Active {
                (s, Err(GovernanceError::VotingClosed))
            } else if now > p.end_block {
                (s, Err(GovernanceError::VotingExpired))
            } else if s.votes.contains_key((id, caller)) {
                (s, Err(GovernanceError::AlreadyVoted))
            } else {
                (
                    GovernanceState {
                        proposals: s.proposals.update(id as int, counted(p, support)),
                        votes: s.votes.insert((id, caller), support),
                        ..s
                    },
                    Ok(()),
                )
            },
        }
    }
}

/// `finalizeProposal`: on an existing `Active` proposal whose deadline has
/// passed, sets and returns the status that the resolution rule gives.
pub open spec fn finalize_step(s: GovernanceState, id: u64, now: u64) -> (
    GovernanceState,
    Result<ProposalStatus, GovernanceError>,
) {
    match proposal_at(s.proposals, id) {
        None => (s, Err(GovernanceError::ProposalNotFound)),
        Some(p) => if p.status != ProposalStatus::Active {
            (s, Err(GovernanceError::VotingClosed))
        } else if now <= p.end_block {
            (s, Err(GovernanceError::VotingNotEnded))
        } else {
            let status = resolve(p.yes_votes, p.no_votes, s.quorum);
            (
                GovernanceState {
                    proposals: s.proposals.update(id as int, Proposal { status, ..p }),
                    ..s
                },
                Ok(status),
            )
        },
    }
}

/// One call of a mutating operation, with its arguments.
pub enum Action {
    SetRole { caller: AccountId, target: AccountId, role: Role },
    CreateProposal {
        caller: AccountId,
        title: String,
        description: String,
        end_block: u64,
        now: u64,
    },
    Vote { caller: AccountId, id: u64, support: bool, now: u64 },
    Finalize { id: u64, now: u64 },
}

/// The state after one call, whatever it returned.
pub open spec fn apply(s: GovernanceState, a: Action) -> GovernanceState {
    match a {
        Action::SetRole { caller, target, role } => set_role_step(s, caller, target, role).0,
        Action::CreateProposal { caller, title, description, end_block, now } => create_step(
            s,
            caller,
            title,
            description,
            end_block,
            now,
        ).0,
        Action::Vote { caller, id, support, now } => vote_step(s, caller, id, support, now).0,
        Action::Finalize { id, now } => finalize_step(s, id, now).0,
    }
}

/// The state after the calls `actions`, in order.
pub open spec fn run(s: GovernanceState, actions: Seq<Action>) -> GovernanceState
    decreases actions.len(),
{
    if actions.len() == 0 {
        s
    } else {
        run(apply(s, actions[0]), actions.drop_first())
    }
}

/// A new engine satisfies the invariant.
pub proof fn lemma_initial_inv(quorum: u32, roles: Map<AccountId, Role>)
    ensures
        inv(initial(quorum, roles)),
{
}

/// `setRole` keeps the invariant.
pub proof fn lemma_set_role_inv(s: GovernanceState, caller: AccountId, target: AccountId, role: Role)
    requires
        inv(s),
    ensures
        inv(set_role_step(s, caller, target, role).0),
{
}

/// `createProposal` keeps the invariant.
pub proof fn lemma_create_inv(
    s: GovernanceState,
    caller: AccountId,
    title: String,
    description: String,
    end_block: u64,
    now: u64,
)
    requires
        inv(s),
        s.proposals.len() <= u64::MAX,
    ensures
        inv(create_step(s, caller, title, description, end_block, now).0),
{
    let t = create_step(s, caller, title, description, end_block, now).0;
    if t != s {
        let n = s.proposals.len() as int;
        assert forall|i: int| 0 <= i < t.proposals.len() implies (#[trigger] t.proposals[i]).yes_votes
            == tally(t.votes, i as u64, true) && t.proposals[i].no_votes == tally(
            t.votes,
            i as u64,
            false,
        ) by {
            if i == n {
                assert forall|k: (u64, AccountId)| #[trigger] s.votes.contains_key(k) implies k.0
                    != i as u64 by {}
                assert(crate::votes::voters_for(s.votes, i as u64, true) =~= Set::empty());
                assert(crate::votes::voters_for(s.votes, i as u64, false) =~= Set::empty());
            }
        }
    }
}

/// `vote` keeps the invariant.
pub proof fn lemma_vote_inv(s: GovernanceState, caller: AccountId, id: u64, support: bool, now: u64)
    requires
        inv(s),
        vote_fits(s, id, support),
    ensures
        inv(vote_step(s, caller, id, support, now).0),
{
    let (t, r) = vote_step(s, caller, id, support, now);
    if r is Ok {
        let key = (id, caller);
        assert forall|i: int| 0 <= i < t.proposals.len() implies (#[trigger] t.proposals[i]).yes_votes
            == tally(t.votes, i as u64, true) && t.proposals[i].no_votes == tally(
            t.votes,
            i as u64,
            false,
        ) by {
            assert(s.proposals[i].id == i);
            lemma_tally_insert(s.votes, key, support, i as u64, true);
            lemma_tally_insert(s.votes, key, support, i as u64, false);
            if i == id as int {
                assert(t.proposals[i] == counted(s.proposals[i], support));
            } else {
                assert(t.proposals[i] == s.proposals[i]);
            }
        }
    }
}

/// `finalizeProposal` keeps the invariant.
pub proof fn lemma_finalize_inv(s: GovernanceState, id: u64, now: u64)
    requires
        inv(s),
    ensures
        inv(finalize_step(s, id, now).0),
{
}

} // verus!
