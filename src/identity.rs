//! An in-memory identity store: the role of each account.
use vstd::prelude::*;
use std::collections::HashMap;
use crate::context::Passport;

verus! {

broadcast use {
    vstd::std_specs::hash::group_hash_axioms,
};

/// The role an account holds.
#[derive(Clone, Copy, Debug, PartialEq, Eq, Structural)]
pub enum Role {
    /// An administrator.
    Privileged,
    /// Any other account.
    NonPrivileged,
}

/// Why a session could not be resolved to a role.
#[derive(Clone, Copy, Debug, PartialEq, Eq, Structural)]
pub enum LookupError {
    /// The session names no account of the store.
    UnknownIdentity,
    /// The store could not be reached.
    StoreUnavailable,
}

/// What resolving a session against the given roles gives.
pub open spec fn spec_resolve(roles: Map<u64, Role>, p: Passport) -> Result<Role, LookupError> {
    if roles.contains_key(p.account) {
        Ok(roles[p.account])
    } else {
        Err(LookupError::UnknownIdentity)
    }
}

/// Accounts and their roles, keyed by account id.
pub struct IdentityStore {
    roles: HashMap<u64, Role>,
}

impl View for IdentityStore {
    type V = Map<u64, Role>;

    closed spec fn view(&self) -> Map<u64, Role> {
        self.roles@
    }
}

impl IdentityStore {
    /// An empty store.
    pub fn new() -> (r: IdentityStore)
        ensures
            r@ == Map::<u64, Role>::empty(),
    {
        IdentityStore { roles: HashMap::new() }
    }

    /// Records `role` for `account`, adding the account or replacing its role.
    pub fn set_role(&mut self, account: u64, role: Role)
        ensures
            final(self)@ == old(self)@.insert(account, role),
    {
        self.roles.insert(account, role);
    }

    /// Resolves a session to the role of the account it names.
    pub fn resolve_role(&self, p: &Passport) -> (r: Result<Role, LookupError>)
        ensures
            r == spec_resolve(self@, *p),
    {
        match self.roles.get(&p.account) {
            Some(role) => Ok(*role),
            None => Err(LookupError::UnknownIdentity),
        }
    }
}

} // verus!
