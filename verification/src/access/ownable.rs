use vstd::prelude::*;

use crate::storage_map::MapKey;
use crate::types::AccountId;

verus! {

/// Errors of ownership operations.
#[derive(Debug, PartialEq, Eq, Structural, Clone, Copy)]
pub enum OwnableError {
    /// The caller is not the current owner.
    CallerIsNotOwner,
    /// The action is redundant, such as transferring ownership to the current
    /// owner.
    ActionRedundant,
}

/// Emitted when ownership is transferred; `new` is `None` when it is
/// renounced.
#[derive(Debug, Clone, Copy)]
pub struct OwnershipTransferred {
    pub new: Option<AccountId>,
}

/// The storage of the ownable module: the current owner, if any.
pub struct OwnableData {
    pub owner: Option<AccountId>,
}

impl OwnableData {
    /// Ownership given to `owner`. Returns the `OwnershipTransferred` event to
    /// emit when there is an owner.
    pub fn new(owner: Option<AccountId>) -> (r: (Self, Option<OwnershipTransferred>))
        ensures
            r.0.owner == owner,
            owner is Some ==> r.1 == Some(OwnershipTransferred { new: owner }),
            owner is None ==> r.1 is None,
    {
        let mut instance = OwnableData { owner: None };
        if owner.is_some() {
            instance.set_owner(&owner);
            (instance, Some(OwnershipTransferred { new: owner }))
        } else {
            (instance, None)
        }
    }

    /// The current owner.
    pub fn owner(&self) -> (r: Option<AccountId>)
        ensures
            r == self.owner,
    {
        self.owner
    }

    /// Sets the owner.
    pub fn set_owner(&mut self, new_owner: &Option<AccountId>)
        ensures
            final(self).owner == *new_owner,
    {
        self.owner = *new_owner;
    }

    /// Fails with `CallerIsNotOwner` unless `caller` is the owner.
    pub fn _only_owner(&self, caller: AccountId) -> (r: Result<(), OwnableError>)
        ensures
            self.owner == Some(caller) ==> r is Ok,
            self.owner != Some(caller) ==> r == Err::<(), OwnableError>(
                OwnableError::CallerIsNotOwner,
            ),
    {
        if !Some(caller).key_eq(&self.owner) {
            return Err(OwnableError::CallerIsNotOwner);
        }
        Ok(())
    }

    /// Makes `new` the owner. Returns the `OwnershipTransferred` event.
    pub fn _update_owner(&mut self, new: &Option<AccountId>) -> (r: OwnershipTransferred)
        ensures
            final(self).owner == *new,
            r == (OwnershipTransferred { new: *new }),
    {
        self.set_owner(new);
        OwnershipTransferred { new: *new }
    }

    /// The `renounce_ownership` message: the owner leaves the contract
    /// without owner.
    pub fn renounce_ownership_default_impl(&mut self, caller: AccountId) -> (r: Result<
        OwnershipTransferred,
        OwnableError,
    >)
        ensures
            old(self).owner == Some(caller) ==> r == Ok::<OwnershipTransferred, OwnableError>(
                OwnershipTransferred { new: None },
            ) && final(self).owner is None,
            old(self).owner != Some(caller) ==> r == Err::<OwnershipTransferred, OwnableError>(
                OwnableError::CallerIsNotOwner,
            ) && *final(self) == *old(self),
    {
        self._only_owner(caller)?;
        Ok(self._update_owner(&None))
    }

    /// The `transfer_ownership` message: the owner hands ownership to
    /// `new_owner`.
    pub fn transfer_ownership_default_impl(&mut self, caller: AccountId, new_owner: AccountId) -> (r:
        Result<OwnershipTransferred, OwnableError>)
        ensures
            old(self).owner == Some(caller) ==> r == Ok::<OwnershipTransferred, OwnableError>(
                OwnershipTransferred { new: Some(new_owner) },
            ) && final(self).owner == Some(new_owner),
            old(self).owner != Some(caller) ==> r == Err::<OwnershipTransferred, OwnableError>(
                OwnableError::CallerIsNotOwner,
            ) && *final(self) == *old(self),
    {
        self._only_owner(caller)?;
        Ok(self._update_owner(&Some(new_owner)))
    }
}


/// Law: once ownership is renounced no caller passes the owner check, so
/// ownership can never be taken back.
pub proof fn law_renounced_is_final(data: OwnableData, caller: AccountId)
    requires
        data.owner is None,
    ensures
        data.owner != Some(caller),
{
}

/// Law: after ownership passes to `new_owner`, `new_owner` passes the owner
/// check and no one else does.
pub proof fn law_transfer_hands_over(data: OwnableData, new_owner: AccountId, caller: AccountId)
    requires
        data.owner == Some(new_owner),
    ensures
        (data.owner == Some(caller)) <==> caller == new_owner,
{
}

} // verus!
