//! The lifecycle registry: one slot per supervised role, each holding at
//! most one process handle.  A handle is stored once at startup and taken at
//! most once at teardown; `take` empties the slot atomically, so no two
//! takers can receive the same handle.  The shell serializes access with a
//! mutual-exclusion guard around the whole registry.

use vstd::prelude::*;

use crate::process::{Handle, Role};

verus! {

/// Two independent at-most-one-handle slots, keyed by role.
#[derive(Clone, Copy, PartialEq, Eq, Structural, Debug)]
pub struct Registry {
    pub database: Option<Handle>,
    pub backend: Option<Handle>,
}

/// What `Registry::store` does: fills the chosen slot, leaves the other.
pub open spec fn spec_store(reg: Registry, role: Role, h: Handle) -> Registry {
    match role {
        Role::Database => Registry { database: Some(h), ..reg },
        Role::Backend => Registry { backend: Some(h), ..reg },
    }
}

/// What `Registry::take` does: empties the chosen slot and returns what it
/// held, leaving the other slot untouched.
pub open spec fn spec_take(reg: Registry, role: Role) -> (Registry, Option<Handle>) {
    match role {
        Role::Database => (Registry { database: None, ..reg }, reg.database),
        Role::Backend => (Registry { backend: None, ..reg }, reg.backend),
    }
}

impl Registry {
    /// The handle currently held for `role`, if any.
    pub open spec fn spec_slot(self, role: Role) -> Option<Handle> {
        match role {
            Role::Database => self.database,
            Role::Backend => self.backend,
        }
    }

    /// Both slots are empty.
    pub open spec fn spec_is_empty(self) -> bool {
        self.database is None && self.backend is None
    }

    /// A registry with both slots empty.
    pub fn new() -> (reg: Registry)
        ensures
            reg.spec_is_empty(),
            forall|role: Role| reg.spec_slot(role) is None,
    {
        Registry { database: None, backend: None }
    }

    /// Stores `h` under `role`, overwriting any previous handle for that
    /// role.  The caller keeps the invariant that each role is stored at
    /// most once per startup, so nothing is ever overwritten in practice.
    pub fn store(&mut self, role: Role, h: Handle)
        ensures
            *final(self) == spec_store(*old(self), role, h),
            final(self).spec_slot(role) == Some(h),
            forall|r: Role| r != role ==> final(self).spec_slot(r) == old(self).spec_slot(r),
    {
        match role {
            Role::Database => self.database = Some(h),
            Role::Backend => self.backend = Some(h),
        }
    }

    /// Atomically removes and returns the handle stored under `role`,
    /// leaving that slot empty.
    pub fn take(&mut self, role: Role) -> (taken: Option<Handle>)
        ensures
            (*final(self), taken) == spec_take(*old(self), role),
            taken == old(self).spec_slot(role),
            final(self).spec_slot(role) is None,
            forall|r: Role| r != role ==> final(self).spec_slot(r) == old(self).spec_slot(r),
    {
        match role {
            Role::Database => self.database.take(),
            Role::Backend => self.backend.take(),
        }
    }

    /// Whether both slots are empty.
    pub fn is_empty(&self) -> (b: bool)
        ensures
            b == self.spec_is_empty(),
    {
        self.database.is_none() && self.backend.is_none()
    }

    /// The handle currently held for `role`, by value.
    pub fn slot(&self, role: Role) -> (h: Option<Handle>)
        ensures
            h == self.spec_slot(role),
    {
        match role {
            Role::Database => self.database,
            Role::Backend => self.backend,
        }
    }
}

/// At-most-one-handle: once a slot's handle has been taken, a second take
/// of the same role finds the slot empty, whatever the registry held before
/// and however it had been filled.
pub proof fn lemma_take_at_most_once(reg: Registry, role: Role)
    ensures
        spec_take(spec_take(reg, role).0, role).1 is None,
{
}

/// Taking one role never disturbs the other role's slot.
pub proof fn lemma_take_independent(reg: Registry, role: Role, other: Role)
    requires
        role != other,
    ensures
        spec_take(reg, role).0.spec_slot(other) == reg.spec_slot(other),
{
}

} // verus!
