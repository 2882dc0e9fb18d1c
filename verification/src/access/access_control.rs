use vstd::prelude::*;

use crate::storage_map::{MapKey, StorageMap};
use crate::types::AccountId;

verus! {

/// Identifier of a role.
pub type RoleType = u32;

/// The role that administers every role whose admin was never set.
pub const DEFAULT_ADMIN_ROLE: RoleType = 0;

/// The errors that can occur during access control operations.
#[derive(Debug, PartialEq, Eq, Structural, Clone, Copy)]
pub enum AccessControlError {
    /// The caller is not allowed to perform the operation.
    InvalidCaller,
    /// The role is missing.
    MissingRole,
    /// The role is redundant.
    RoleRedundant,
}

/// Emitted when the admin role of `role` changes from `previous` to `new`.
#[derive(Debug, Clone, Copy)]
pub struct RoleAdminChanged {
    pub role: RoleType,
    pub previous: RoleType,
    pub new: RoleType,
}

/// Emitted when `role` is granted to `grantee` (`None`: to everyone) by
/// `grantor`.
#[derive(Debug, Clone, Copy)]
pub struct RoleGranted {
    pub role: RoleType,
    pub grantee: Option<AccountId>,
    pub grantor: Option<AccountId>,
}

/// Emitted when `role` is revoked from `account` by `sender`.
#[derive(Debug, Clone, Copy)]
pub struct RoleRevoked {
    pub role: RoleType,
    pub account: Option<AccountId>,
    pub sender: AccountId,
}

/// The storage of access control: the admin role of each role and the
/// members of each role. A member `None` holds the role for everyone.
pub struct AccessControlData {
    pub admin_roles: StorageMap<RoleType, RoleType>,
    pub members: StorageMap<(RoleType, Option<AccountId>), ()>,
}

impl AccessControlData {
    /// Both maps are well formed.
    pub open spec fn wf(&self) -> bool {
        self.admin_roles.wf() && self.members.wf()
    }

    /// `account` is recorded as a member of `role`.
    pub open spec fn is_member(&self, role: RoleType, account: Option<AccountId>) -> bool {
        self.members@.contains_key((role, account))
    }

    /// `account` holds `role`: it is a member, or the role is held by
    /// everyone.
    pub open spec fn holds(&self, role: RoleType, account: Option<AccountId>) -> bool {
        self.is_member(role, account) || self.is_member(role, None)
    }

    /// The admin role of `role`: the one set, else the default admin role.
    pub open spec fn admin_of(&self, role: RoleType) -> RoleType {
        if self.admin_roles@.contains_key(role) {
            self.admin_roles@[role]
        } else {
            DEFAULT_ADMIN_ROLE
        }
    }

    /// Access control with `admin` (if any) holding the default admin role.
    /// Returns the `RoleGranted` event to emit when there is an admin: the
    /// admin receives the default admin role.
    pub fn new(admin: Option<AccountId>) -> (r: (Self, Option<RoleGranted>))
        ensures
            r.0.wf(),
            r.0.admin_roles@ == Map::<RoleType, RoleType>::empty(),
            admin matches Some(a) ==> r.0.members@ == Map::<(RoleType, Option<AccountId>), ()>::empty().insert(
                (DEFAULT_ADMIN_ROLE, Some(a)),
                (),
            ) && r.1 == Some(RoleGranted { role: DEFAULT_ADMIN_ROLE, grantee: Some(a), grantor: Some(a) }),
            admin is None ==> r.0.members@ == Map::<(RoleType, Option<AccountId>), ()>::empty()
                && r.1 is None,
    {
        let mut instance = AccessControlData { admin_roles: StorageMap::new(), members: StorageMap::new() };
        match admin {
            Some(a) => {
                instance.add(DEFAULT_ADMIN_ROLE, &Some(a));
                (instance, Some(RoleGranted { role: DEFAULT_ADMIN_ROLE, grantee: Some(a), grantor: Some(a) }))
            },
            None => (instance, None),
        }
    }

    /// Whether `address` holds `role`.
    pub fn has_role(&self, role: RoleType, address: &Option<AccountId>) -> (r: bool)
        requires
            self.wf(),
        ensures
            r == self.holds(role, *address),
    {
        self.members.contains(&(role, *address)) || self.members.contains(&(role, None))
    }

    /// Records `member` as a member of `role`.
    pub fn add(&mut self, role: RoleType, member: &Option<AccountId>)
        requires
            old(self).wf(),
        ensures
            final(self).wf(),
            final(self).members@ == old(self).members@.insert((role, *member), ()),
            final(self).admin_roles == old(self).admin_roles,
    {
        self.members.insert((role, *member), ());
    }

    /// Removes `member` from the members of `role`.
    pub fn remove(&mut self, role: RoleType, member: &Option<AccountId>)
        requires
            old(self).wf(),
        ensures
            final(self).wf(),
            final(self).members@ == old(self).members@.remove((role, *member)),
            final(self).admin_roles == old(self).admin_roles,
    {
        self.members.remove(&(role, *member));
    }

    /// The admin role set for `role`, if one was set.
    pub fn get_role_admin(&self, role: RoleType) -> (r: Option<RoleType>)
        requires
            self.wf(),
        ensures
            r == (if self.admin_roles@.contains_key(role) {
                Some(self.admin_roles@[role])
            } else {
                None::<RoleType>
            }),
    {
        self.admin_roles.get(&role)
    }

    /// Sets the admin role of `role`.
    pub fn set_role_admin(&mut self, role: RoleType, new_admin: RoleType)
        requires
            old(self).wf(),
        ensures
            final(self).wf(),
            final(self).admin_roles@ == old(self).admin_roles@.insert(role, new_admin),
            final(self).members == old(self).members,
    {
        self.admin_roles.insert(role, new_admin);
    }

    /// The default admin role.
    pub fn _default_admin() -> (r: RoleType)
        ensures
            r == DEFAULT_ADMIN_ROLE,
    {
        DEFAULT_ADMIN_ROLE
    }

    /// The admin role of `role`: the one set, else the default admin role.
    pub fn _get_role_admin(&self, role: RoleType) -> (r: RoleType)
        requires
            self.wf(),
        ensures
            r == self.admin_of(role),
    {
        match self.get_role_admin(role) {
            Some(a) => a,
            None => Self::_default_admin(),
        }
    }

    /// Fails with `MissingRole` unless `account` holds `role`.
    pub fn _ensure_has_role(&self, role: RoleType, account: Option<AccountId>) -> (r: Result<
        (),
        AccessControlError,
    >)
        requires
            self.wf(),
        ensures
            self.holds(role, account) ==> r is Ok,
            !self.holds(role, account) ==> r == Err::<(), AccessControlError>(
                AccessControlError::MissingRole,
            ),
    {
        if !self.has_role(role, &account) && !self.has_role(role, &None) {
            return Err(AccessControlError::MissingRole);
        }
        Ok(())
    }

    /// Grants `role` to `grantee` on behalf of `caller`; refused when
    /// `grantee` already holds it. Returns the `RoleGranted` event.
    pub fn _grant_role(&mut self, role: RoleType, grantee: Option<AccountId>, caller: AccountId) -> (r:
        Result<RoleGranted, AccessControlError>)
        requires
            old(self).wf(),
        ensures
            final(self).wf(),
            final(self).admin_roles == old(self).admin_roles,
            old(self).holds(role, grantee) ==> r == Err::<RoleGranted, AccessControlError>(
                AccessControlError::RoleRedundant,
            ) && final(self).members == old(self).members,
            !old(self).holds(role, grantee) ==> r == Ok::<RoleGranted, AccessControlError>(
                RoleGranted { role, grantee, grantor: Some(caller) },
            ) && final(self).members@ == old(self).members@.insert((role, grantee), ()),
    {
        if self.has_role(role, &grantee) {
            return Err(AccessControlError::RoleRedundant);
        }
        self.add(role, &grantee);
        Ok(RoleGranted { role, grantee, grantor: Some(caller) })
    }

    /// Revokes `role` from `account` on behalf of `caller`; refused when
    /// `account` does not hold it. Returns the `RoleRevoked` event.
    pub fn _do_revoke_role(&mut self, role: RoleType, account: Option<AccountId>, caller: AccountId) -> (r:
        Result<RoleRevoked, AccessControlError>)
        requires
            old(self).wf(),
        ensures
            final(self).wf(),
            final(self).admin_roles == old(self).admin_roles,
            !old(self).holds(role, account) ==> r == Err::<RoleRevoked, AccessControlError>(
                AccessControlError::MissingRole,
            ) && final(self).members == old(self).members,
            old(self).holds(role, account) ==> r == Ok::<RoleRevoked, AccessControlError>(
                RoleRevoked { role, account, sender: caller },
            ) && final(self).members@ == old(self).members@.remove((role, account)),
    {
        self._ensure_has_role(role, account)?;
        self.remove(role, &account);
        Ok(RoleRevoked { role, account, sender: caller })
    }

    /// Makes `new` the admin role of `role`. Returns the `RoleAdminChanged`
    /// event when the admin role changes.
    pub fn _set_role_admin(&mut self, role: RoleType, new: RoleType) -> (r: Option<RoleAdminChanged>)
        requires
            old(self).wf(),
        ensures
            final(self).wf(),
            final(self).members == old(self).members,
            new == old(self).admin_of(role) ==> r is None && final(self).admin_roles == old(self).admin_roles,
            new != old(self).admin_of(role) ==> r == Some(
                RoleAdminChanged { role, previous: old(self).admin_of(role), new },
            ) && final(self).admin_roles@ == old(self).admin_roles@.insert(role, new),
    {
        let previous = self._get_role_admin(role);
        if new != previous {
            self.set_role_admin(role, new);
            Some(RoleAdminChanged { role, previous, new })
        } else {
            None
        }
    }

    /// The `grant_role` message: `caller`, holding the admin role of `role`,
    /// grants `role` to `account`.
    pub fn grant_role_default_impl(&mut self, caller: AccountId, role: RoleType, account: Option<AccountId>) -> (r:
        Result<RoleGranted, AccessControlError>)
        requires
            old(self).wf(),
        ensures
            final(self).wf(),
            final(self).admin_roles == old(self).admin_roles,
            !old(self).holds(old(self).admin_of(role), Some(caller)) ==> r == Err::<
                RoleGranted,
                AccessControlError,
            >(AccessControlError::MissingRole) && final(self).members == old(self).members,
            old(self).holds(old(self).admin_of(role), Some(caller)) && old(self).holds(role, account)
                ==> r == Err::<RoleGranted, AccessControlError>(AccessControlError::RoleRedundant)
                && final(self).members == old(self).members,
            old(self).holds(old(self).admin_of(role), Some(caller)) && !old(self).holds(role, account)
                ==> r == Ok::<RoleGranted, AccessControlError>(
                RoleGranted { role, grantee: account, grantor: Some(caller) },
            ) && final(self).members@ == old(self).members@.insert((role, account), ()),
    {
        let admin = self._get_role_admin(role);
        self._ensure_has_role(admin, Some(caller))?;
        self._grant_role(role, account, caller)
    }

    /// The `revoke_role` message: `caller`, holding the admin role of
    /// `role`, revokes `role` from `account`.
    pub fn revoke_role_default_impl(&mut self, caller: AccountId, role: RoleType, account: Option<AccountId>) -> (r:
        Result<RoleRevoked, AccessControlError>)
        requires
            old(self).wf(),
        ensures
            final(self).wf(),
            final(self).admin_roles == old(self).admin_roles,
            !old(self).holds(old(self).admin_of(role), Some(caller)) || !old(self).holds(role, account)
                ==> r == Err::<RoleRevoked, AccessControlError>(AccessControlError::MissingRole)
                && final(self).members == old(self).members,
            old(self).holds(old(self).admin_of(role), Some(caller)) && old(self).holds(role, account)
                ==> r == Ok::<RoleRevoked, AccessControlError>(
                RoleRevoked { role, account, sender: caller },
            ) && final(self).members@ == old(self).members@.remove((role, account)),
    {
        let admin = self._get_role_admin(role);
        self._ensure_has_role(admin, Some(caller))?;
        self._do_revoke_role(role, account, caller)
    }

    /// The `renounce_role` message: `caller` gives up `role`; `account` must
    /// be the caller.
    pub fn renounce_role_default_impl(&mut self, caller: AccountId, role: RoleType, account: Option<AccountId>) -> (r:
        Result<RoleRevoked, AccessControlError>)
        requires
            old(self).wf(),
        ensures
            final(self).wf(),
            final(self).admin_roles == old(self).admin_roles,
            account != Some(caller) ==> r == Err::<RoleRevoked, AccessControlError>(
                AccessControlError::InvalidCaller,
            ) && final(self).members == old(self).members,
            account == Some(caller) && !old(self).holds(role, account) ==> r == Err::<
                RoleRevoked,
                AccessControlError,
            >(AccessControlError::MissingRole) && final(self).members == old(self).members,
            account == Some(caller) && old(self).holds(role, account) ==> r == Ok::<
                RoleRevoked,
                AccessControlError,
            >(RoleRevoked { role, account, sender: caller }) && final(self).members@ == old(self).members@.remove((role, account)),
    {
        if !account.key_eq(&Some(caller)) {
            return Err(AccessControlError::InvalidCaller);
        }
        self._do_revoke_role(role, account, caller)
    }

    /// Sets the admin role of `role` to `new_admin`; `caller` must hold the
    /// current admin role of `role`.
    pub fn set_role_admin_default_impl(&mut self, caller: AccountId, role: RoleType, new_admin: RoleType) -> (r:
        Result<Option<RoleAdminChanged>, AccessControlError>)
        requires
            old(self).wf(),
        ensures
            final(self).wf(),
            final(self).members == old(self).members,
            !old(self).holds(old(self).admin_of(role), Some(caller)) ==> r == Err::<
                Option<RoleAdminChanged>,
                AccessControlError,
            >(AccessControlError::MissingRole) && final(self).admin_roles == old(self).admin_roles,
            old(self).holds(old(self).admin_of(role), Some(caller)) && new_admin == old(self).admin_of(role)
                ==> r == Ok::<Option<RoleAdminChanged>, AccessControlError>(None) && final(self).admin_roles == old(self).admin_roles,
            old(self).holds(old(self).admin_of(role), Some(caller)) && new_admin != old(self).admin_of(role)
                ==> r == Ok::<Option<RoleAdminChanged>, AccessControlError>(
                Some(RoleAdminChanged { role, previous: old(self).admin_of(role), new: new_admin }),
            ) && final(self).admin_roles@ == old(self).admin_roles@.insert(role, new_admin),
    {
        let admin = self._get_role_admin(role);
        self._ensure_has_role(admin, Some(caller))?;
        Ok(self._set_role_admin(role, new_admin))
    }
}


/// Law: once a grant of `role` to `account` succeeds, `account` holds
/// `role`; a grant of a role already held is refused and changes nothing.
pub proof fn law_grant_then_holds(
    pre: AccessControlData,
    post: AccessControlData,
    role: RoleType,
    account: Option<AccountId>,
)
    requires
        post.members@ == pre.members@.insert((role, account), ()),
    ensures
        post.holds(role, account),
{
}

/// Law: granting `role` to an account that did not hold it and then
/// revoking it again leaves the members as they were.
pub proof fn law_grant_then_revoke_restores(
    pre: AccessControlData,
    mid: AccessControlData,
    post: AccessControlData,
    role: RoleType,
    account: Option<AccountId>,
)
    requires
        !pre.holds(role, account),
        mid.members@ == pre.members@.insert((role, account), ()),
        post.members@ == mid.members@.remove((role, account)),
    ensures
        post.members@ == pre.members@,
{
    assert(post.members@ =~= pre.members@);
}

/// Law: after its membership of `role` is revoked, an account holds `role`
/// only when the role is held by everyone.
pub proof fn law_revoked_holds_only_if_open(
    pre: AccessControlData,
    post: AccessControlData,
    role: RoleType,
    account: AccountId,
)
    requires
        post.members@ == pre.members@.remove((role, Some(account))),
    ensures
        post.holds(role, Some(account)) == pre.is_member(role, None),
{
}

/// Law: the admin role of a role is the default admin role until it is set,
/// and reads back what was set.
pub proof fn law_role_admin_read_after_write(
    pre: AccessControlData,
    post: AccessControlData,
    role: RoleType,
    new_admin: RoleType,
)
    requires
        post.admin_roles@ == pre.admin_roles@.insert(role, new_admin),
    ensures
        post.admin_of(role) == new_admin,
        forall|r: RoleType| r != role ==> #[trigger] post.admin_of(r) == pre.admin_of(r),
{
}

} // verus!
