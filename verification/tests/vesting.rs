use pendzl_contracts::finance::vesting::{TimeReplies, VestingError, VestingSchedule, VestingTimeConstraint};
use pendzl_contracts::types::AccountId;

#[test]
fn schedule_between_fixed_times() {
    let mut v = VestingSchedule {
        start: VestingTimeConstraint::Default(100),
        end: VestingTimeConstraint::Default(200),
        amount: 1000,
        released: 0,
    };
    let r = TimeReplies::new();
    assert_eq!(v.amount_releaseable_rdown(99, &r), Ok(0));
    assert_eq!(v.amount_releaseable_rdown(150, &r), Ok(499));
    assert_eq!(v.collect_releasable_rdown(150, &r), Ok(499));
    assert_eq!(v.released, 499);
    assert_eq!(v.is_overdue(200, &r), Ok(true));
    assert_eq!(v.collect_releasable_rdown(250, &r), Ok(501));
}

#[test]
fn external_time_needs_an_answer() {
    let provider = AccountId([8; 32]);
    let selector = [1, 2, 3, 4];
    let v = VestingSchedule {
        start: VestingTimeConstraint::Default(0),
        end: VestingTimeConstraint::External(provider, selector),
        amount: 10,
        released: 0,
    };
    let mut r = TimeReplies::new();
    assert_eq!(v.is_overdue(5, &r), Err(VestingError::CouldNotResolveTimeConstraint));
    r.insert((provider, selector), 5);
    assert_eq!(v.is_overdue(5, &r), Ok(true));
    assert_eq!(v.amount_releaseable_rdown(5, &r), Ok(10));
    assert_eq!(
        v._extract_timestamp_from_constraint(&VestingTimeConstraint::External(provider, [0, 0, 0, 0]), &r),
        Err(VestingError::CouldNotResolveTimeConstraint)
    );
}
