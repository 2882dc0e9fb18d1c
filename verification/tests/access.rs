use pendzl_contracts::access::access_control::{AccessControlData, AccessControlError, DEFAULT_ADMIN_ROLE};
use pendzl_contracts::access::ownable::{OwnableData, OwnableError};
use pendzl_contracts::types::AccountId;

fn acc(b: u8) -> AccountId {
    AccountId([b; 32])
}

const MINTER: u32 = 7;

#[test]
fn admin_grants_and_revokes() {
    let (admin, alice) = (acc(1), acc(2));
    let (mut ac, ev) = AccessControlData::new(Some(admin));
    let ev = ev.unwrap();
    assert_eq!(ev.role, DEFAULT_ADMIN_ROLE);
    assert_eq!(ev.grantee, Some(admin));
    assert_eq!(ev.grantor, Some(admin));
    assert!(ac.has_role(DEFAULT_ADMIN_ROLE, &Some(admin)));

    let g = ac.grant_role_default_impl(admin, MINTER, Some(alice)).unwrap();
    assert_eq!(g.role, MINTER);
    assert!(ac.has_role(MINTER, &Some(alice)));
    assert_eq!(
        ac.grant_role_default_impl(admin, MINTER, Some(alice)).unwrap_err(),
        AccessControlError::RoleRedundant
    );

    ac.revoke_role_default_impl(admin, MINTER, Some(alice)).unwrap();
    assert!(!ac.has_role(MINTER, &Some(alice)));
    assert_eq!(
        ac.revoke_role_default_impl(admin, MINTER, Some(alice)).unwrap_err(),
        AccessControlError::MissingRole
    );
}

#[test]
fn non_admin_cannot_grant() {
    let (admin, alice, bob) = (acc(1), acc(2), acc(3));
    let (mut ac, _) = AccessControlData::new(Some(admin));
    assert_eq!(
        ac.grant_role_default_impl(alice, MINTER, Some(bob)).unwrap_err(),
        AccessControlError::MissingRole
    );
    assert!(!ac.has_role(MINTER, &Some(bob)));
}

#[test]
fn role_for_everyone() {
    let (admin, alice) = (acc(1), acc(2));
    let (mut ac, _) = AccessControlData::new(Some(admin));
    ac.grant_role_default_impl(admin, MINTER, None).unwrap();
    assert!(ac.has_role(MINTER, &Some(alice)));
    assert_eq!(
        ac.grant_role_default_impl(admin, MINTER, Some(alice)).unwrap_err(),
        AccessControlError::RoleRedundant
    );
}

#[test]
fn renounce_only_for_self() {
    let (admin, alice) = (acc(1), acc(2));
    let (mut ac, _) = AccessControlData::new(Some(admin));
    ac.grant_role_default_impl(admin, MINTER, Some(alice)).unwrap();
    assert_eq!(
        ac.renounce_role_default_impl(admin, MINTER, Some(alice)).unwrap_err(),
        AccessControlError::InvalidCaller
    );
    let ev = ac.renounce_role_default_impl(alice, MINTER, Some(alice)).unwrap();
    assert_eq!(ev.sender.0, alice.0);
    assert!(!ac.has_role(MINTER, &Some(alice)));
}

#[test]
fn role_admin_changes() {
    let (admin, alice, bob) = (acc(1), acc(2), acc(3));
    let (mut ac, _) = AccessControlData::new(Some(admin));
    assert_eq!(ac._get_role_admin(MINTER), DEFAULT_ADMIN_ROLE);
    let ev = ac.set_role_admin_default_impl(admin, MINTER, 9).unwrap().unwrap();
    assert_eq!((ev.previous, ev.new), (DEFAULT_ADMIN_ROLE, 9));
    assert!(ac.set_role_admin_default_impl(admin, MINTER, 9).is_err());
    ac.grant_role_default_impl(admin, 9, Some(alice)).unwrap();
    assert!(ac.set_role_admin_default_impl(alice, MINTER, 9).unwrap().is_none());
    ac.grant_role_default_impl(alice, MINTER, Some(bob)).unwrap();
    assert!(ac.has_role(MINTER, &Some(bob)));
}

#[test]
fn ownable_flow() {
    let (owner, other) = (acc(1), acc(2));
    let (mut o, ev) = OwnableData::new(Some(owner));
    assert!(ev.is_some());
    assert_eq!(o.transfer_ownership_default_impl(other, other).unwrap_err(), OwnableError::CallerIsNotOwner);
    let ev = o.transfer_ownership_default_impl(owner, other).unwrap();
    assert_eq!(ev.new.map(|a| a.0), Some(other.0));
    assert_eq!(o.owner().map(|a| a.0), Some(other.0));
    assert_eq!(o._only_owner(owner).unwrap_err(), OwnableError::CallerIsNotOwner);
    let ev = o.renounce_ownership_default_impl(other).unwrap();
    assert!(ev.new.is_none());
    assert!(o.owner().is_none());
    assert_eq!(o._only_owner(other).unwrap_err(), OwnableError::CallerIsNotOwner);
}

#[test]
fn ownable_without_owner() {
    let (o, ev) = OwnableData::new(None);
    assert!(ev.is_none());
    assert!(o.owner().is_none());
}
