//! A role-gated proposal and voting engine.
//!
//! Participants hold roles (`Admin`, `Tutor`, `Student`); tutors and admins
//! submit proposals with a deadline, students and tutors vote once each, and
//! after the deadline a proposal resolves to `Accepted` or `Rejected` by a
//! quorum rule. The caller's identity and the current time are explicit
//! inputs of every operation, so the engine is a function of its state and
//! its arguments.

pub mod types;
pub mod policy;
pub mod roles;
pub mod votes;
pub mod proposals;
pub mod model;
pub mod engine;
pub mod laws;

pub use engine::DaoGovernance;
pub use policy::{authorize, Operation};
pub use proposals::ProposalStore;
pub use roles::RoleRegistry;
pub use types::{
    AccountId, GovernanceError, Proposal, ProposalCreated, ProposalFinalized, ProposalStatus, Role,
    Voted,
};
pub use votes::VoteLedger;
