use pendzl_contracts::math::MathError;
use pendzl_contracts::token::psp22::implementation::PSP22Data;
use pendzl_contracts::token::psp22::psp22_error::PSP22Error;
use pendzl_contracts::token::psp22::vault::{pow10_u128, PSP22VaultData, Rounding};
use pendzl_contracts::types::AccountId;

fn acc(b: u8) -> AccountId {
    AccountId([b; 32])
}

#[test]
fn empty_vault_prices_one_to_one() {
    let v = PSP22VaultData::new(acc(100), 12);
    // 1000 * (0 + 1) / (0 + 1)
    assert_eq!(v._convert_to_shares(0, 0, &1000, Rounding::Down), Ok(1000));
    assert_eq!(v._convert_to_assets(0, 0, &1000, Rounding::Down), Ok(1000));
}

#[test]
fn conversions_round_as_asked() {
    let v = PSP22VaultData::new(acc(100), 12);
    // shares = 10 * (100 + 1) / (49 + 1) = 20.2
    assert_eq!(v._convert_to_shares(100, 49, &10, Rounding::Down), Ok(20));
    assert_eq!(v._convert_to_shares(100, 49, &10, Rounding::Up), Ok(21));
    // assets = 20 * (49 + 1) / (100 + 1) = 9.9
    assert_eq!(v._convert_to_assets(100, 49, &20, Rounding::Down), Ok(9));
    assert_eq!(v._convert_to_assets(100, 49, &20, Rounding::Up), Ok(10));
    assert_eq!(v._preview_deposit(100, 49, &10), Ok(20));
    assert_eq!(v._preview_withdraw(100, 49, &10), Ok(21));
    assert_eq!(v._preview_mint(100, 49, &20), Ok(10));
    assert_eq!(v._preview_redeem(100, 49, &20), Ok(9));
}

#[test]
fn conversion_overflow() {
    let v = PSP22VaultData::new(acc(100), 12);
    assert_eq!(v._convert_to_shares(u128::MAX, 0, &1, Rounding::Down), Err(MathError::Overflow));
    assert_eq!(v._convert_to_assets(0, u128::MAX, &1, Rounding::Down), Err(MathError::Overflow));
}

#[test]
fn decimals_offset_scales_shares() {
    let mut v = PSP22VaultData::new(acc(100), 6);
    v.decimals_offset = 3;
    assert_eq!(pow10_u128(3), 1000);
    assert_eq!(v._convert_to_shares(0, 0, &5, Rounding::Down), Ok(5000));
    assert_eq!(v.token_decimals(), 9);
    assert_eq!(pow10_u128(38), 100_000_000_000_000_000_000_000_000_000_000_000_000);
}

#[test]
fn asset_decimals_reply() {
    assert_eq!(PSP22VaultData::_try_get_asset_decimals(Some(18)), (true, 18));
    assert_eq!(PSP22VaultData::_try_get_asset_decimals(None), (false, 0));
}

#[test]
fn deposit_then_redeem_flow() {
    let (user, vault_acc) = (acc(1), acc(100));
    let v = PSP22VaultData::new(vault_acc, 12);
    let mut shares_token = PSP22Data::new();
    let total_assets = 0;
    assert_eq!(v._max_deposit(&user), u128::MAX);
    let shares = v.plan_deposit(&shares_token, total_assets, 500, &user).unwrap();
    assert_eq!(shares, 500);
    // The asset refused to move the funds: nothing is minted.
    let refused = v._deposit(&mut shares_token, &user, &user, &500, &shares, Err(PSP22Error::InsufficientAllowance));
    assert_eq!(refused.unwrap_err(), PSP22Error::InsufficientAllowance);
    assert_eq!(shares_token.total_supply(), 0);
    let (tr, dep) = v._deposit(&mut shares_token, &user, &user, &500, &shares, Ok(())).unwrap();
    assert_eq!(tr.value, 500);
    assert_eq!((dep.assets, dep.shares), (500, 500));
    assert_eq!(shares_token.balance_of(&user), 500);

    let total_assets = 500;
    assert_eq!(v._max_redeem(&shares_token, &user), 500);
    assert_eq!(v._max_withdraw(&shares_token, total_assets, &user), 500);
    let too_many = v.plan_redeem(&shares_token, total_assets, 501, &user);
    assert_eq!(too_many.unwrap_err(), PSP22Error::Custom("Vault: Max".to_string()));
    let assets = v.plan_redeem(&shares_token, total_assets, 200, &user).unwrap();
    assert_eq!(assets, 200);
    let (approval, burn) = v._withdraw(&mut shares_token, &user, &user, &200).unwrap();
    assert!(approval.is_none());
    assert_eq!(burn.value, 200);
    assert_eq!(shares_token.balance_of(&user), 300);
    let ev = PSP22VaultData::withdraw_event(&user, &user, &user, &assets, &200, Ok(())).unwrap();
    assert_eq!((ev.assets, ev.shares), (200, 200));
    assert_eq!(
        PSP22VaultData::withdraw_event(&user, &user, &user, &assets, &200, Err(PSP22Error::InsufficientBalance))
            .unwrap_err(),
        PSP22Error::InsufficientBalance
    );
}

#[test]
fn withdraw_for_another_owner_spends_allowance() {
    let (owner, operator, vault_acc) = (acc(1), acc(2), acc(100));
    let v = PSP22VaultData::new(vault_acc, 12);
    let mut token = PSP22Data::new();
    token._mint_to(&owner, &100).unwrap();
    assert_eq!(
        v._withdraw(&mut token, &operator, &owner, &10).unwrap_err(),
        PSP22Error::InsufficientAllowance
    );
    token.approve_default_impl(owner, operator, 30).unwrap();
    let (approval, burn) = v._withdraw(&mut token, &operator, &owner, &10).unwrap();
    assert_eq!(approval.unwrap().value, 20);
    assert_eq!(burn.value, 10);
    assert_eq!(token.balance_of(&owner), 90);
    assert_eq!(token.total_supply(), 90);
}

#[test]
fn withdraw_above_limit_is_refused() {
    let (owner, vault_acc) = (acc(1), acc(100));
    let v = PSP22VaultData::new(vault_acc, 12);
    let mut token = PSP22Data::new();
    token._mint_to(&owner, &100).unwrap();
    // 100 shares of 100 are worth (100 * 201) / 101 = 199 of 200 assets.
    assert_eq!(v._max_withdraw(&token, 200, &owner), 199);
    assert_eq!(
        v.plan_withdraw(&token, 200, 200, &owner).unwrap_err(),
        PSP22Error::Custom("Vault: Max".to_string())
    );
    // 199 * 101 / 201 = 99.99..., rounded up.
    assert_eq!(v.plan_withdraw(&token, 200, 199, &owner), Ok(100));
    assert_eq!(v.plan_mint(&token, 200, 100, &owner), Ok(200));
}

#[test]
fn max_withdraw_never_fails() {
    let (owner, vault_acc) = (acc(1), acc(100));
    let v = PSP22VaultData::new(vault_acc, 12);
    let mut token = PSP22Data::new();
    token._mint_to(&owner, &100).unwrap();
    // total assets + 1 overflows: no limit is reported
    assert_eq!(v._max_withdraw(&token, u128::MAX, &owner), u128::MAX);
    // the price then reports the overflow
    assert_eq!(
        v.plan_withdraw(&token, u128::MAX, 10, &owner).unwrap_err(),
        PSP22Error::Custom("M::Overflow".to_string())
    );
}
