use pendzl_contracts::finance::general_vest::{DurationReplies, VestingData, VestingSchedule};
use pendzl_contracts::token::psp22::implementation::PSP22Data;
use pendzl_contracts::token::psp22::vault::{mul_div, PSP22VaultData, Rounding};
use pendzl_contracts::types::AccountId;

fn acc(b: u8) -> AccountId {
    AccountId([b; 32])
}

#[test]
fn deposit_then_redeem_never_gains() {
    let v = PSP22VaultData::new(acc(100), 6);
    for (shares_total, assets_total, deposit) in [(100u128, 49u128, 10u128), (7, 1000, 333), (5, 3, 17)] {
        let shares = v._convert_to_shares(shares_total, assets_total, &deposit, Rounding::Down).unwrap();
        let back = v._convert_to_assets(shares_total, assets_total, &shares, Rounding::Down).unwrap();
        assert!(back <= deposit);
    }
}

#[test]
fn mint_cost_and_withdraw_burn_cover_value() {
    let v = PSP22VaultData::new(acc(100), 6);
    let (s, a) = (100u128, 49u128);
    let cost = v._convert_to_assets(s, a, &20, Rounding::Up).unwrap();
    assert!(v._convert_to_shares(s, a, &cost, Rounding::Down).unwrap() >= 20);
    let burned = v._convert_to_shares(s, a, &10, Rounding::Up).unwrap();
    assert!(v._convert_to_assets(s, a, &burned, Rounding::Down).unwrap() >= 10);
}

#[test]
fn rounding_up_is_within_one() {
    let down = mul_div(3643, 6393, 11645, Rounding::Down).unwrap();
    let up = mul_div(3643, 6393, 11645, Rounding::Up).unwrap();
    assert!(down <= up && up <= down + 1);
}

#[test]
fn supply_equals_sum_of_balances() {
    let (a, b, c) = (acc(1), acc(2), acc(3));
    let mut t = PSP22Data::new();
    t._mint_to(&a, &100).unwrap();
    t._mint_to(&b, &50).unwrap();
    t._transfer(&a, &c, &30).unwrap();
    t._burn_from(&b, &20).unwrap();
    let _ = t._transfer(&c, &a, &31);
    let sum = t.balance_of(&a) + t.balance_of(&b) + t.balance_of(&c);
    assert_eq!(t.total_supply(), sum);
    assert_eq!(sum, 130);
}

#[test]
fn release_grows_with_time_and_stays_within_amount() {
    let v = VestingData {
        creation_time: 0,
        schedule: VestingSchedule::Constant(10, 90),
        amount: 1000,
        released: 0,
    };
    let r = DurationReplies::new();
    let mut last = 0;
    for now in [0u64, 10, 20, 55, 99, 100, 150] {
        if let Ok(a) = v.amount_releaseable_rdown(now, &r) {
            assert!(a >= last);
            assert!(a <= v.amount);
            last = a;
        }
    }
    assert_eq!(last, 1000);
}
