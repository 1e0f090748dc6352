//! The authorization table: which roles may perform which privileged
//! operation, kept in one place so that the rules cannot drift apart.
use vstd::prelude::*;
use crate::types::Role;

verus! {

/// The privileged operations of the engine.
#[derive(Clone, Copy, Debug, PartialEq, Eq, Structural)]
pub enum Operation {
    SetRole,
    CreateProposal,
    Vote,
}

/// The policy: `SetRole` is for admins, `CreateProposal` for tutors and
/// admins, `Vote` for students and tutors. No role allows nothing.
pub open spec fn allowed(role: Option<Role>, op: Operation) -> bool {
    match role {
        None => false,
        Some(r) => match op {
            Operation::SetRole => r == Role::Admin,
            Operation::CreateProposal => r == Role::Tutor || r == Role::Admin,
            Operation::Vote => r == Role::Student || r == Role::Tutor,
        },
    }
}

/// Decides whether a caller holding `role` may perform `op`.
pub fn authorize(role: Option<Role>, op: Operation) -> (r: bool)
    ensures
        r == allowed(role, op),
{
    match role {
        None => false,
        Some(r) => match op {
            Operation::SetRole => r == Role::Admin,
            Operation::CreateProposal => r == Role::Tutor || r == Role::Admin,
            Operation::Vote => r == Role::Student || r == Role::Tutor,
        },
    }
}

} // verus!
