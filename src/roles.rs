//! The role registry: one role per participant identity.
use vstd::prelude::*;
use crate::policy::{allowed, authorize, Operation};
use crate::types::{AccountId, GovernanceError, Role};

verus! {

/// The role that `who` holds in `roles`, if any.
pub open spec fn role_in(roles: Map<AccountId, Role>, who: AccountId) -> Option<Role> {
    if roles.contains_key(who) {
        Some(roles[who])
    } else {
        None
    }
}

/// Stores one role per identity. Its view is the map from identity to role.
pub struct RoleRegistry {
    entries: Vec<(AccountId, Role)>,
    assigned: Ghost<Map<AccountId, Role>>,
}

impl View for RoleRegistry {
    type V = Map<AccountId, Role>;

    closed spec fn view(&self) -> Map<AccountId, Role> {
        self.assigned@
    }
}

impl RoleRegistry {
    /// The entries hold each identity at most once, and hold exactly the
    /// assignments of the view.
    pub closed spec fn wf(&self) -> bool {
        &&& forall|i: int, j: int|
            0 <= i < j < self.entries@.len() ==> self.entries@[i].0 != self.entries@[j].0
        &&& forall|i: int|
            0 <= i < self.entries@.len() ==> #[trigger] self.assigned@.contains_key(
                self.entries@[i].0,
            ) && self.assigned@[self.entries@[i].0] == self.entries@[i].1
        &&& forall|a: AccountId|
            #[trigger] self.assigned@.contains_key(a) ==> exists|i: int|
                0 <= i < self.entries@.len() && self.entries@[i].0 == a
    }

    /// An empty registry: nobody holds a role.
    pub fn new() -> (r: RoleRegistry)
        ensures
            r.wf(),
            r@ == Map::<AccountId, Role>::empty(),
    {
        RoleRegistry { entries: Vec::new(), assigned: Ghost(Map::empty()) }
    }

    /// A registry in which `admin` alone holds a role, `Admin`.
    pub fn with_admin(admin: AccountId) -> (r: RoleRegistry)
        ensures
            r.wf(),
            r@ == Map::<AccountId, Role>::empty().insert(admin, Role::Admin),
    {
        let mut r = RoleRegistry::new();
        r.assign(admin, Role::Admin);
        r
    }

    /// The position of `who` among the entries, if it has one.
    fn position(&self, who: AccountId) -> (r: Option<usize>)
        requires
            self.wf(),
        ensures
            match r {
                Some(i) => i < self.entries@.len() && self.entries@[i as int].0 == who,
                None => !self@.contains_key(who),
            },
    {
        let mut i: usize = 0;
        while i < self.entries.len()
            invariant
                i <= self.entries@.len(),
                forall|k: int| 0 <= k < i ==> self.entries@[k].0 != who,
            decreases self.entries@.len() - i,
        {
            if self.entries[i].0 == who {
                return Some(i);
            }
            i = i + 1;
        }
        None
    }

    /// The role of `who`, or `None` when none was assigned.
    pub fn get_role(&self, who: AccountId) -> (r: Option<Role>)
        requires
            self.wf(),
        ensures
            r == role_in(self@, who),
    {
        match self.position(who) {
            Some(i) => Some(self.entries[i].1),
            None => None,
        }
    }

    /// Gives `target` the role `role`, replacing any role it held.
    fn assign(&mut self, target: AccountId, role: Role)
        requires
            old(self).wf(),
        ensures
            final(self).wf(),
            final(self)@ == old(self)@.insert(target, role),
    {
        let ghost slot: int;
        match self.position(target) {
            Some(i) => {
                self.entries.set(i, (target, role));
                proof {
                    slot = i as int;
                }
            },
            None => {
                self.entries.push((target, role));
                proof {
                    slot = old(self).entries@.len() as int;
                }
            },
        }
        self.assigned = Ghost(self.assigned@.insert(target, role));
        assert forall|a: AccountId| #[trigger] self.assigned@.contains_key(a) implies exists|i: int|
            0 <= i < self.entries@.len() && self.entries@[i].0 == a by {
            if a != target {
                let k = choose|k: int|
                    0 <= k < old(self).entries@.len() && old(self).entries@[k].0 == a;
                assert(self.entries@[k].0 == a);
            } else {
                assert(self.entries@[slot].0 == a);
            }
        }
    }

    /// Sets the role of `target` on behalf of `caller`, who must hold
    /// `Admin`; otherwise fails with `Unauthorized` and changes nothing.
    pub fn set_role(&mut self, caller: AccountId, target: AccountId, role: Role) -> (r: Result<
        (),
        GovernanceError,
    >)
        requires
            old(self).wf(),
        ensures
            final(self).wf(),
            allowed(role_in(old(self)@, caller), Operation::SetRole) ==> r == Ok::<(), GovernanceError>(()) && final(self)@
                == old(self)@.insert(target, role),
            !allowed(role_in(old(self)@, caller), Operation::SetRole) ==> r == Err::<
                (),
                GovernanceError,
            >(GovernanceError::Unauthorized) && final(self)@ == old(self)@,
    {
        if !authorize(self.get_role(caller), Operation::SetRole) {
            return Err(GovernanceError::Unauthorized);
        }
        self.assign(target, role);
        Ok(())
    }
}

} // verus!
