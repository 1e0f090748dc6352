//! Properties of the engine that relate several operations, or one
//! operation on every input, proved over the transition functions that the
//! operations of `DaoGovernance` follow.
use vstd::prelude::*;
use crate::model::{
    apply, create_step, finalize_step, inv, run, set_role_step, vote_step, Action,
    GovernanceState,
};
use crate::policy::{allowed, Operation};
use crate::proposals::proposal_at;
use crate::roles::role_in;
use crate::types::{AccountId, GovernanceError, ProposalStatus, Role};

verus! {

/// An identity that holds no role is refused every privileged operation
/// with `Unauthorized`, and the state stays as it was.
pub proof fn lemma_no_role_refused(
    s: GovernanceState,
    caller: AccountId,
    target: AccountId,
    role: Role,
    title: String,
    description: String,
    end_block: u64,
    id: u64,
    support: bool,
    now: u64,
)
    requires
        !s.roles.contains_key(caller),
    ensures
        set_role_step(s, caller, target, role) == (s, Err::<(), GovernanceError>(
            GovernanceError::Unauthorized,
        )),
        create_step(s, caller, title, description, end_block, now).0 == s,
        create_step(s, caller, title, description, end_block, now).1 == Err::<
            crate::types::Proposal,
            GovernanceError,
        >(GovernanceError::Unauthorized),
        vote_step(s, caller, id, support, now) == (s, Err::<(), GovernanceError>(
            GovernanceError::Unauthorized,
        )),
{
}

/// `setRole` succeeds exactly for callers holding `Admin`; for any other
/// caller it fails with `Unauthorized` and every role, the target's
/// included, stays as it was.
pub proof fn lemma_only_admin_sets_roles(
    s: GovernanceState,
    caller: AccountId,
    target: AccountId,
    role: Role,
)
    ensures
        set_role_step(s, caller, target, role).1 is Ok <==> role_in(s.roles, caller) == Some(
            Role::Admin,
        ),
        role_in(s.roles, caller) != Some(Role::Admin) ==> set_role_step(s, caller, target, role).1
            == Err::<(), GovernanceError>(GovernanceError::Unauthorized) && role_in(
            set_role_step(s, caller, target, role).0.roles,
            target,
        ) == role_in(s.roles, target),
        role_in(s.roles, caller) == Some(Role::Admin) ==> role_in(
            set_role_step(s, caller, target, role).0.roles,
            target,
        ) == Some(role),
{
}

/// `createProposal` succeeds only for tutors and admins; an accepted
/// proposal has no votes, is `Active`, is stored last, and its id is
/// greater than the id of every proposal created before it.
pub proof fn lemma_created_proposal(
    s: GovernanceState,
    caller: AccountId,
    title: String,
    description: String,
    end_block: u64,
    now: u64,
)
    requires
        inv(s),
        s.proposals.len() <= u64::MAX,
    ensures
        create_step(s, caller, title, description, end_block, now).1 is Ok ==> role_in(
            s.roles,
            caller,
        ) == Some(Role::Tutor) || role_in(s.roles, caller) == Some(Role::Admin),
        create_step(s, caller, title, description, end_block, now).1 matches Ok(p) ==> {
            &&& p.yes_votes == 0
            &&& p.no_votes == 0
            &&& p.status == ProposalStatus::Active
            &&& create_step(s, caller, title, description, end_block, now).0.proposals
                == s.proposals.push(p)
            &&& forall|i: int| 0 <= i < s.proposals.len() ==> #[trigger] s.proposals[i].id < p.id
        },
{
}

/// `createProposal` with a deadline not after `now` always fails and
/// creates no proposal; when the caller may create proposals, the error is
/// `InvalidEndBlock`.
pub proof fn lemma_past_deadline_creates_nothing(
    s: GovernanceState,
    caller: AccountId,
    title: String,
    description: String,
    end_block: u64,
    now: u64,
)
    requires
        end_block <= now,
    ensures
        create_step(s, caller, title, description, end_block, now).0 == s,
        create_step(s, caller, title, description, end_block, now).1 is Err,
        allowed(role_in(s.roles, caller), Operation::CreateProposal) ==> create_step(
            s,
            caller,
            title,
            description,
            end_block,
            now,
        ).1 == Err::<crate::types::Proposal, GovernanceError>(GovernanceError::InvalidEndBlock),
{
}

/// Every operation keeps each recorded vote as it was: records are never
/// removed or changed.
pub proof fn lemma_votes_persist(
    s: GovernanceState,
    caller: AccountId,
    target: AccountId,
    role: Role,
    title: String,
    description: String,
    end_block: u64,
    id: u64,
    support: bool,
    now: u64,
)
    ensures
        s.votes.submap_of(set_role_step(s, caller, target, role).0.votes),
        s.votes.submap_of(create_step(s, caller, title, description, end_block, now).0.votes),
        s.votes.submap_of(vote_step(s, caller, id, support, now).0.votes),
        s.votes.submap_of(finalize_step(s, id, now).0.votes),
{
}

/// Once a vote of `voter` on proposal `id` is recorded, every vote of
/// `voter` on `id`, whatever its decision, fails and changes nothing.
pub proof fn lemma_recorded_vote_blocks(
    s: GovernanceState,
    voter: AccountId,
    id: u64,
    support: bool,
    now: u64,
)
    requires
        s.votes.contains_key((id, voter)),
    ensures
        vote_step(s, voter, id, support, now).0 == s,
        vote_step(s, voter, id, support, now).1 is Err,
{
}

/// After a successful vote, a second vote of the same voter on the same
/// proposal fails, whatever its decision, and leaves the state and so the
/// tallies unchanged; while the deadline has not passed the error is
/// `AlreadyVoted`.
pub proof fn lemma_vote_once(
    s: GovernanceState,
    voter: AccountId,
    id: u64,
    first: bool,
    now1: u64,
    second: bool,
    now2: u64,
)
    requires
        vote_step(s, voter, id, first, now1).1 is Ok,
    ensures
        vote_step(vote_step(s, voter, id, first, now1).0, voter, id, second, now2).0
            == vote_step(s, voter, id, first, now1).0,
        vote_step(vote_step(s, voter, id, first, now1).0, voter, id, second, now2).1 is Err,
        now2 <= s.proposals[id as int].end_block ==> vote_step(
            vote_step(s, voter, id, first, now1).0,
            voter,
            id,
            second,
            now2,
        ).1 == Err::<(), GovernanceError>(GovernanceError::AlreadyVoted),
{
}

/// A vote after a proposal's deadline fails and changes nothing; when the
/// caller may vote and the proposal is `Active`, the error is
/// `VotingExpired`.
pub proof fn lemma_late_vote_refused(
    s: GovernanceState,
    caller: AccountId,
    id: u64,
    support: bool,
    now: u64,
)
    requires
        id < s.proposals.len(),
        now > s.proposals[id as int].end_block,
    ensures
        vote_step(s, caller, id, support, now).0 == s,
        vote_step(s, caller, id, support, now).1 is Err,
        allowed(role_in(s.roles, caller), Operation::Vote) && s.proposals[id as int].status
            == ProposalStatus::Active ==> vote_step(s, caller, id, support, now).1 == Err::<
            (),
            GovernanceError,
        >(GovernanceError::VotingExpired),
{
}

/// Finalizing at or before a proposal's deadline fails and changes
/// nothing, its status included; when the proposal is `Active`, the error
/// is `VotingNotEnded`.
pub proof fn lemma_early_finalize_refused(s: GovernanceState, id: u64, now: u64)
    requires
        id < s.proposals.len(),
        now <= s.proposals[id as int].end_block,
    ensures
        finalize_step(s, id, now).0 == s,
        finalize_step(s, id, now).1 is Err,
        s.proposals[id as int].status == ProposalStatus::Active ==> finalize_step(s, id, now).1
            == Err::<ProposalStatus, GovernanceError>(GovernanceError::VotingNotEnded),
{
}

/// A proposal whose total vote count is below the quorum resolves
/// `Rejected`, whichever way its votes went.
pub proof fn lemma_below_quorum_rejected(s: GovernanceState, id: u64, now: u64)
    requires
        id < s.proposals.len(),
        s.proposals[id as int].yes_votes + s.proposals[id as int].no_votes < s.quorum,
    ensures
        finalize_step(s, id, now).1 is Ok ==> finalize_step(s, id, now).1 == Ok::<
            ProposalStatus,
            GovernanceError,
        >(ProposalStatus::Rejected),
{
}

/// Finalization happens once: a second finalization of the same proposal
/// fails with `VotingClosed`, changes nothing, and the stored status stays
/// the one the first finalization returned.
pub proof fn lemma_finalize_once(s: GovernanceState, id: u64, now1: u64, now2: u64)
    requires
        finalize_step(s, id, now1).1 is Ok,
    ensures
        finalize_step(finalize_step(s, id, now1).0, id, now2) == (
            finalize_step(s, id, now1).0,
            Err::<ProposalStatus, GovernanceError>(GovernanceError::VotingClosed),
        ),
        Ok::<ProposalStatus, GovernanceError>(
            finalize_step(s, id, now1).0.proposals[id as int].status,
        ) == finalize_step(s, id, now1).1,
{
}

/// How one operation may change a proposal stored before it: none is
/// removed, none changes its id, title, description, proposer or deadline,
/// and a status changes only from `Active`, to `Accepted` or `Rejected`.
pub open spec fn settles(s: GovernanceState, t: GovernanceState) -> bool {
    &&& s.proposals.len() <= t.proposals.len()
    &&& forall|i: int|
        0 <= i < s.proposals.len() ==> {
            let (p, q) = (#[trigger] s.proposals[i], t.proposals[i]);
            &&& q.id == p.id
            &&& q.title == p.title
            &&& q.description == p.description
            &&& q.proposer == p.proposer
            &&& q.end_block == p.end_block
            &&& q.status != p.status ==> p.status == ProposalStatus::Active && (q.status
                == ProposalStatus::Accepted || q.status == ProposalStatus::Rejected)
        }
}

/// Every operation keeps every stored proposal, and moves a status only
/// from `Active` to `Accepted` or `Rejected`.
pub proof fn lemma_proposals_settle(
    s: GovernanceState,
    caller: AccountId,
    target: AccountId,
    role: Role,
    title: String,
    description: String,
    end_block: u64,
    id: u64,
    support: bool,
    now: u64,
)
    ensures
        settles(s, set_role_step(s, caller, target, role).0),
        settles(s, create_step(s, caller, title, description, end_block, now).0),
        settles(s, vote_step(s, caller, id, support, now).0),
        settles(s, finalize_step(s, id, now).0),
{
}

/// Whatever calls are made, no stored proposal is lost and a status other
/// than `Active` stays as it is.
pub proof fn lemma_run_keeps_status(s: GovernanceState, actions: Seq<Action>, id: u64)
    requires
        id < s.proposals.len(),
        s.proposals[id as int].status != ProposalStatus::Active,
    ensures
        id < run(s, actions).proposals.len(),
        run(s, actions).proposals[id as int].status == s.proposals[id as int].status,
    decreases actions.len(),
{
    if actions.len() > 0 {
        let t = apply(s, actions[0]);
        assert(settles(s, t)) by {
            match actions[0] {
                Action::SetRole { caller, target, role } => {},
                Action::CreateProposal { caller, title, description, end_block, now } => {},
                Action::Vote { caller, id, support, now } => {},
                Action::Finalize { id, now } => {},
            }
        }
        lemma_run_keeps_status(t, actions.drop_first(), id);
    }
}

/// Whatever calls are made, every recorded vote stays recorded as it was.
pub proof fn lemma_run_keeps_votes(s: GovernanceState, actions: Seq<Action>)
    ensures
        s.votes.submap_of(run(s, actions).votes),
    decreases actions.len(),
{
    if actions.len() > 0 {
        let t = apply(s, actions[0]);
        assert(s.votes.submap_of(t.votes)) by {
            match actions[0] {
                Action::SetRole { caller, target, role } => {},
                Action::CreateProposal { caller, title, description, end_block, now } => {},
                Action::Vote { caller, id, support, now } => {},
                Action::Finalize { id, now } => {},
            }
        }
        lemma_run_keeps_votes(t, actions.drop_first());
        let u = run(s, actions);
        assert forall|k: (u64, AccountId)| #[trigger] s.votes.contains_key(k) implies u.votes.contains_key(
            k,
        ) && u.votes[k] == s.votes[k] by {
            assert(t.votes.contains_key(k));
        }
    }
}

/// Once a vote of `voter` on proposal `id` has succeeded, whatever calls
/// follow, every later vote of `voter` on `id` fails, whatever its
/// decision, and changes nothing.
pub proof fn lemma_vote_succeeds_once(
    s: GovernanceState,
    voter: AccountId,
    id: u64,
    first: bool,
    now1: u64,
    between: Seq<Action>,
    second: bool,
    now2: u64,
)
    requires
        vote_step(s, voter, id, first, now1).1 is Ok,
    ensures
        vote_step(run(vote_step(s, voter, id, first, now1).0, between), voter, id, second, now2).0
            == run(vote_step(s, voter, id, first, now1).0, between),
        vote_step(
            run(vote_step(s, voter, id, first, now1).0, between),
            voter,
            id,
            second,
            now2,
        ).1 is Err,
{
    let t = vote_step(s, voter, id, first, now1).0;
    lemma_run_keeps_votes(t, between);
    assert(t.votes.contains_key((id, voter)));
    assert(run(t, between).votes.contains_key((id, voter)));
}

/// Once a proposal has been finalized, whatever calls follow, finalizing
/// it again fails with `VotingClosed` and changes nothing, and its status
/// stays the one the first finalization returned.
pub proof fn lemma_finalized_stays_closed(
    s: GovernanceState,
    id: u64,
    now1: u64,
    between: Seq<Action>,
    now2: u64,
)
    requires
        finalize_step(s, id, now1).1 is Ok,
    ensures
        finalize_step(run(finalize_step(s, id, now1).0, between), id, now2) == (
            run(finalize_step(s, id, now1).0, between),
            Err::<ProposalStatus, GovernanceError>(GovernanceError::VotingClosed),
        ),
        finalize_step(s, id, now1).1 == Ok::<ProposalStatus, GovernanceError>(
            run(finalize_step(s, id, now1).0, between).proposals[id as int].status,
        ),
{
    let t = finalize_step(s, id, now1).0;
    lemma_run_keeps_status(t, between, id);
}

} // verus!
