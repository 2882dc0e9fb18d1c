use pendzl_contracts::token::psp22::implementation::PSP22Data;
use pendzl_contracts::token::psp22::psp22_error::PSP22Error;
use pendzl_contracts::types::AccountId;

fn acc(b: u8) -> AccountId {
    AccountId([b; 32])
}

#[test]
fn mint_transfer_and_supply() {
    let (a, b) = (acc(1), acc(2));
    let mut t = PSP22Data::new();
    let ev = t._mint_to(&a, &100).unwrap();
    assert_eq!(ev.from, None);
    assert_eq!(ev.to.map(|x| x.0), Some(a.0));
    assert_eq!(ev.value, 100);
    assert_eq!(t.total_supply(), 100);
    assert_eq!(t.balance_of(&a), 100);

    let ev = t.transfer_default_impl(a, b, 30, vec![]).unwrap();
    assert_eq!(ev.value, 30);
    assert_eq!(t.balance_of(&a), 70);
    assert_eq!(t.balance_of(&b), 30);
    assert_eq!(t.total_supply(), 100);
}

#[test]
fn transfer_more_than_balance_fails_and_changes_nothing() {
    let (a, b) = (acc(1), acc(2));
    let mut t = PSP22Data::new();
    t._mint_to(&a, &10).unwrap();
    assert_eq!(t.transfer_default_impl(a, b, 11, vec![]).unwrap_err(), PSP22Error::InsufficientBalance);
    assert_eq!(t.balance_of(&a), 10);
    assert_eq!(t.balance_of(&b), 0);
    assert_eq!(t.total_supply(), 10);
}

#[test]
fn transfer_to_self_keeps_balance() {
    let a = acc(1);
    let mut t = PSP22Data::new();
    t._mint_to(&a, &10).unwrap();
    t._transfer(&a, &a, &10).unwrap();
    assert_eq!(t.balance_of(&a), 10);
}

#[test]
fn zero_value_transfer_emits_event() {
    let (a, b) = (acc(1), acc(2));
    let mut t = PSP22Data::new();
    let ev = t.transfer_default_impl(a, b, 0, vec![]).unwrap();
    assert_eq!(ev.value, 0);
}

#[test]
fn mint_overflow_is_math_error() {
    let (a, b) = (acc(1), acc(2));
    let mut t = PSP22Data::new();
    t._mint_to(&a, &u128::MAX).unwrap();
    assert_eq!(t._mint_to(&b, &1).unwrap_err(), PSP22Error::Custom("M::Overflow".to_string()));
    assert_eq!(t.total_supply(), u128::MAX);
    assert_eq!(t.balance_of(&b), 0);
}

#[test]
fn burn_reduces_supply() {
    let a = acc(1);
    let mut t = PSP22Data::new();
    t._mint_to(&a, &50).unwrap();
    let ev = t._burn_from(&a, &20).unwrap();
    assert_eq!(ev.to, None);
    assert_eq!(t.total_supply(), 30);
    assert_eq!(t.balance_of(&a), 30);
    assert_eq!(t._burn_from(&a, &31).unwrap_err(), PSP22Error::InsufficientBalance);
}

#[test]
fn mint_extension_mints() {
    let a = acc(3);
    let mut t = PSP22Data::new();
    t.mint_default_impl(a, 7).unwrap();
    assert_eq!(t.balance_of(&a), 7);
    assert_eq!(t.total_supply(), 7);
}

#[test]
fn approve_and_transfer_from() {
    let (owner, spender, to) = (acc(1), acc(2), acc(3));
    let mut t = PSP22Data::new();
    t._mint_to(&owner, &100).unwrap();
    let ap = t.approve_default_impl(owner, spender, 40).unwrap();
    assert_eq!(ap.value, 40);
    assert_eq!(t.allowance(&owner, &spender), 40);

    let (ap, tr) = t.transfer_from_default_impl(spender, owner, to, 25, vec![]).unwrap();
    assert_eq!(ap.value, 15);
    assert_eq!(tr.value, 25);
    assert_eq!(t.allowance(&owner, &spender), 15);
    assert_eq!(t.balance_of(&owner), 75);
    assert_eq!(t.balance_of(&to), 25);

    assert_eq!(
        t.transfer_from_default_impl(spender, owner, to, 16, vec![]).unwrap_err(),
        PSP22Error::InsufficientAllowance
    );
    assert_eq!(t.allowance(&owner, &spender), 15);
}

#[test]
fn transfer_from_spends_allowance_even_when_balance_is_short() {
    let (owner, spender, to) = (acc(1), acc(2), acc(3));
    let mut t = PSP22Data::new();
    t._mint_to(&owner, &5).unwrap();
    t.approve_default_impl(owner, spender, 10).unwrap();
    assert_eq!(
        t.transfer_from_default_impl(spender, owner, to, 6, vec![]).unwrap_err(),
        PSP22Error::InsufficientBalance
    );
    // The allowance step ran before the balance step failed.
    assert_eq!(t.allowance(&owner, &spender), 4);
}

#[test]
fn increase_then_decrease_allowance() {
    let (owner, spender) = (acc(1), acc(2));
    let mut t = PSP22Data::new();
    t.approve_default_impl(owner, spender, 5).unwrap();
    let ap = t.increase_allowance_default_impl(owner, spender, 10).unwrap();
    assert_eq!(ap.value, 15);
    let ap = t.decrease_allowance_default_impl(owner, spender, 10).unwrap();
    assert_eq!(ap.value, 5);
    assert_eq!(
        t.decrease_allowance_default_impl(owner, spender, 6).unwrap_err(),
        PSP22Error::InsufficientAllowance
    );
    t.approve_default_impl(owner, spender, u128::MAX).unwrap();
    assert_eq!(
        t.increase_allowance_default_impl(owner, spender, 1).unwrap_err(),
        PSP22Error::Custom("M::Overflow".to_string())
    );
}

#[test]
fn storage_layer_operations() {
    let a = acc(9);
    let mut t = PSP22Data::new();
    t.increase_total_supply(&3).unwrap();
    assert_eq!(t.decrease_total_supply(&4).unwrap_err(), PSP22Error::Custom("M::Underflow".to_string()));
    t.increase_balance_of(&a, &3).unwrap();
    assert_eq!(t.decrease_balance_of(&a, &4).unwrap_err(), PSP22Error::InsufficientBalance);
    t.set_allowance(&a, &a, &8);
    assert_eq!(t.increase_allowance(&a, &a, &2).unwrap(), 10);
    assert_eq!(t.decrease_allowance(&a, &a, &10).unwrap(), 0);
}
