use pendzl_contracts::finance::general_vest::{
    DurationReplies, ExternalTimeConstraint, GeneralVestData, VestingData, VestingError,
    VestingSchedule,
};
use pendzl_contracts::token::psp22::psp22_error::PSP22Error;
use pendzl_contracts::types::AccountId;

fn acc(b: u8) -> AccountId {
    AccountId([b; 32])
}

fn no_replies() -> DurationReplies {
    DurationReplies::new()
}

#[test]
fn linear_release_rounds_down_minus_one() {
    let v = VestingData {
        creation_time: 100,
        schedule: VestingSchedule::Constant(50, 1000),
        amount: 1000,
        released: 0,
    };
    let r = no_replies();
    // before and at the start: nothing
    assert_eq!(v.amount_releaseable_rdown(150, &r), Ok(0));
    // half way: 1000 * 500 / 1000 - 1
    assert_eq!(v.amount_releaseable_rdown(650, &r), Ok(499));
    // at the end: everything left
    assert_eq!(v.amount_releaseable_rdown(1150, &r), Ok(1000));
    assert_eq!(v.is_overdue(1149, &r), Ok(false));
    assert_eq!(v.is_overdue(1150, &r), Ok(true));
}

#[test]
fn early_release_of_small_share_underflows() {
    let v = VestingData {
        creation_time: 0,
        schedule: VestingSchedule::Constant(0, 1000),
        amount: 10,
        released: 0,
    };
    // 10 * 1 / 1000 = 0, minus one fails
    assert_eq!(
        v.amount_releaseable_rdown(1, &no_replies()),
        Err(VestingError::Custom("M::Underflow".to_string()))
    );
}

#[test]
fn collect_records_release() {
    let mut v = VestingData {
        creation_time: 0,
        schedule: VestingSchedule::Constant(0, 100),
        amount: 100,
        released: 0,
    };
    let r = no_replies();
    assert_eq!(v.collect_releasable_rdown(50, &r), Ok(49));
    assert_eq!(v.released, 49);
    assert_eq!(v.collect_releasable_rdown(60, &r), Ok(10));
    assert_eq!(v.released, 59);
    assert_eq!(v.collect_releasable_rdown(200, &r), Ok(41));
    assert_eq!(v.released, 100);
}

#[test]
fn external_schedule_uses_reply_or_fallback() {
    let provider = acc(50);
    let c = ExternalTimeConstraint { account: provider, fallback_values: (1, 2) };
    let mut r = no_replies();
    assert_eq!(c.get_waiting_and_duration_times(&r), (1, 2));
    r.insert(provider, (10, 20));
    assert_eq!(c.get_waiting_and_duration_times(&r), (10, 20));
    assert_eq!(VestingSchedule::External(c).get_waiting_and_duration_times(&r), (10, 20));
    assert_eq!(VestingSchedule::Constant(3, 4).get_waiting_and_duration_times(&r), (3, 4));
}

#[test]
fn create_and_read_vests() {
    let (bob, token) = (acc(1), acc(9));
    let mut g = GeneralVestData::new();
    assert_eq!(g._next_id_vest_of(bob, Some(token), &vec![]), 0);
    g.create(bob, Some(token), 100, VestingSchedule::Constant(0, 10), 5, &vec![]).unwrap();
    g.create(bob, Some(token), 200, VestingSchedule::Constant(0, 20), 6, &vec![]).unwrap();
    assert_eq!(g._next_id_vest_of(bob, Some(token), &vec![]), 2);
    assert_eq!(g._next_id_vest_of(bob, None, &vec![]), 0);
    let v = g.get_schedule_by_id(bob, Some(token), 1, &vec![]).unwrap();
    assert_eq!((v.amount, v.creation_time, v.released), (200, 6, 0));
    assert!(g.get_schedule_by_id(bob, Some(token), 2, &vec![]).is_none());
}

#[test]
fn release_removes_finished_vests() {
    let bob = acc(1);
    let mut g = GeneralVestData::new();
    let r = no_replies();
    // vest 0 ends at 10, vest 1 at 100, vest 2 at 20
    g.create(bob, None, 100, VestingSchedule::Constant(0, 10), 0, &vec![]).unwrap();
    g.create(bob, None, 1000, VestingSchedule::Constant(0, 100), 0, &vec![]).unwrap();
    g.create(bob, None, 50, VestingSchedule::Constant(0, 20), 0, &vec![]).unwrap();
    // at 50: vest 0 and vest 2 are over (100 + 50), vest 1 releases 1000*50/100 - 1
    let total = g.release(bob, None, 50, &r, &vec![]).unwrap();
    assert_eq!(total, 100 + 50 + 499);
    // the next id still counts every vest created; finished ids stay empty
    assert_eq!(g._next_id_vest_of(bob, None, &vec![]), 3);
    assert!(g.get_schedule_by_id(bob, None, 0, &vec![]).is_none());
    assert!(g.get_schedule_by_id(bob, None, 2, &vec![]).is_none());
    let left = g.get_schedule_by_id(bob, None, 1, &vec![]).unwrap();
    assert_eq!((left.amount, left.released), (1000, 499));
    // releasing again at the same time gives nothing more
    assert_eq!(g.release(bob, None, 50, &r, &vec![]), Ok(0));
    // after the end the last vest goes too
    assert_eq!(g.release(bob, None, 100, &r, &vec![]), Ok(501));
    assert!(g.get_schedule_by_id(bob, None, 1, &vec![]).is_none());
    assert_eq!(g._next_id_vest_of(bob, None, &vec![]), 3);
    // with no vests left, nothing is released
    assert_eq!(g.release(bob, None, 100, &r, &vec![]), Ok(0));
    // a new vest gets a new id
    g.create(bob, None, 7, VestingSchedule::Constant(0, 10), 100, &vec![]).unwrap();
    assert_eq!(g._next_id_vest_of(bob, None, &vec![]), 4);
    assert_eq!(g.get_schedule_by_id(bob, None, 3, &vec![]).unwrap().amount, 7);
}

#[test]
fn release_by_id_leaves_the_id_empty() {
    let bob = acc(1);
    let mut g = GeneralVestData::new();
    let r = no_replies();
    g.create(bob, None, 10, VestingSchedule::Constant(0, 5), 0, &vec![]).unwrap();
    g.create(bob, None, 20, VestingSchedule::Constant(0, 500), 0, &vec![]).unwrap();
    assert_eq!(g.release_by_vest_id(bob, None, 0, 10, &r, &vec![]), Ok((true, 10)));
    assert_eq!(g._next_id_vest_of(bob, None, &vec![]), 2);
    assert!(g.get_schedule_by_id(bob, None, 0, &vec![]).is_none());
    assert_eq!(g.get_schedule_by_id(bob, None, 1, &vec![]).unwrap().amount, 20);
    // an empty or unknown id releases nothing
    assert_eq!(g.release_by_vest_id(bob, None, 0, 10, &r, &vec![]), Ok((false, 0)));
    assert_eq!(g.release_by_vest_id(bob, None, 7, 10, &r, &vec![]), Ok((false, 0)));
    // the vest under id 1 records its release and keeps its id
    assert_eq!(g.release_by_vest_id(bob, None, 1, 250, &r, &vec![]), Ok((false, 9)));
    let v = g.get_schedule_by_id(bob, None, 1, &vec![]).unwrap();
    assert_eq!((v.amount, v.released, v.creation_time), (20, 9, 0));
}

#[test]
fn internal_flows() {
    let (alice, bob) = (acc(1), acc(2));
    let mut g = GeneralVestData::new();
    let r = no_replies();
    assert_eq!(
        GeneralVestData::_handle_transfer_in(None, 10, 9, Ok(())),
        Err(VestingError::InvalidAmountPaid)
    );
    assert_eq!(GeneralVestData::_handle_transfer_in(None, 10, 10, Ok(())), Ok(()));
    assert_eq!(
        GeneralVestData::_handle_transfer_in(Some(acc(9)), 10, 0, Err(PSP22Error::InsufficientBalance)),
        Err(VestingError::PSP22Error(PSP22Error::InsufficientBalance))
    );
    let paid = GeneralVestData::_handle_transfer_in(None, 10, 10, Ok(()));
    let ev = g._create_vest(alice, bob, None, 10, VestingSchedule::Constant(0, 0), 3, paid, &vec![]).unwrap();
    assert_eq!((ev.creator, ev.receiver, ev.amount), (alice, bob, 10));
    // bob releases his own vest; it started and ended at 3
    let (to, amount) = g._release(bob, None, None, 4, &r, &vec![]).unwrap();
    assert_eq!((to, amount), (bob, 10));
    let out = GeneralVestData::_handle_transfer_out(None, Ok(()), false);
    assert_eq!(out, Err(VestingError::NativeTransferFailed));
    assert_eq!(
        GeneralVestData::token_released(bob, to, None, amount, out).unwrap_err(),
        VestingError::NativeTransferFailed
    );
    let ok = GeneralVestData::token_released(bob, to, None, amount, Ok(())).unwrap();
    assert_eq!(ok.amount, 10);
    assert_eq!(g._release_by_vest_id(alice, Some(bob), None, 0, 4, &r, &vec![]), Ok((bob, 0)));
}

#[test]
fn waiting_vest_releases_nothing_whatever_was_released() {
    let mut v = VestingData {
        creation_time: 100,
        schedule: VestingSchedule::Constant(50, 1000),
        amount: 10,
        released: 20,
    };
    let r = no_replies();
    assert_eq!(v.amount_releaseable_rdown(120, &r), Ok(0));
    assert_eq!(v.amount_releaseable_rdown(150, &r), Ok(0));
    assert_eq!(v.collect_releasable_rdown(150, &r), Ok(0));
    assert_eq!(v.released, 20);
    assert!(v.release_is_defined(150, &r));
    // between start and end, or once over, it would panic
    assert!(!v.release_is_defined(650, &r));
    assert!(!v.release_is_defined(1150, &r));
}

#[test]
fn overflowing_start_is_an_error_even_when_overreleased() {
    let v = VestingData {
        creation_time: u64::MAX,
        schedule: VestingSchedule::Constant(1, 0),
        amount: 10,
        released: 20,
    };
    assert_eq!(
        v.amount_releaseable_rdown(5, &no_replies()),
        Err(VestingError::Custom("M::Overflow".to_string()))
    );
}

#[test]
fn release_keeps_every_vest_under_its_id() {
    let bob = acc(1);
    let mut g = GeneralVestData::new();
    let r = no_replies();
    // vests 0 and 3 end at 10; vests 1 and 2 run to 100
    g.create(bob, None, 1, VestingSchedule::Constant(0, 10), 0, &vec![]).unwrap();
    g.create(bob, None, 200, VestingSchedule::Constant(0, 100), 0, &vec![]).unwrap();
    g.create(bob, None, 300, VestingSchedule::Constant(0, 100), 0, &vec![]).unwrap();
    g.create(bob, None, 4, VestingSchedule::Constant(0, 10), 0, &vec![]).unwrap();
    let total = g.release(bob, None, 50, &r, &vec![]).unwrap();
    assert_eq!(total, 1 + 99 + 149 + 4);
    assert_eq!(g._next_id_vest_of(bob, None, &vec![]), 4);
    assert!(g.get_schedule_by_id(bob, None, 0, &vec![]).is_none());
    assert!(g.get_schedule_by_id(bob, None, 3, &vec![]).is_none());
    let one = g.get_schedule_by_id(bob, None, 1, &vec![]).unwrap();
    let two = g.get_schedule_by_id(bob, None, 2, &vec![]).unwrap();
    assert_eq!((one.amount, one.released), (200, 99));
    assert_eq!((two.amount, two.released), (300, 149));
    // a second release at the same time changes nothing
    assert!(g.releases_are_defined(bob, None, 50, &r));
    assert_eq!(g.release(bob, None, 50, &r, &vec![]), Ok(0));
    let one_again = g.get_schedule_by_id(bob, None, 1, &vec![]).unwrap();
    assert_eq!((one_again.amount, one_again.released), (200, 99));
    assert_eq!(g._next_id_vest_of(bob, None, &vec![]), 4);
}

#[test]
fn release_stops_at_the_first_error() {
    let (bob, provider) = (acc(1), acc(50));
    let mut g = GeneralVestData::new();
    // vest 0, created at 499: at 500, 10 * 1 / 1000 = 0, minus one fails
    g.create(bob, None, 10, VestingSchedule::Constant(0, 1000), 499, &vec![]).unwrap();
    // vest 1 takes its durations from a provider
    let ext = ExternalTimeConstraint { account: provider, fallback_values: (0, 1000) };
    g.create(bob, None, 100, VestingSchedule::External(ext), 0, &vec![]).unwrap();
    let mut first = no_replies();
    first.insert(provider, (0, 1000));
    // 100 * 500 / 1000 - 1
    assert_eq!(g.release_by_vest_id(bob, None, 1, 500, &first, &vec![]), Ok((false, 49)));
    // the provider now answers a longer duration: vest 1 has released more
    // than it has vested, and computing its release would panic
    let mut later = no_replies();
    later.insert(provider, (0, 10000));
    let v1 = g.get_schedule_by_id(bob, None, 1, &vec![]).unwrap();
    assert!(!v1.release_is_defined(500, &later));
    // but the release stops at vest 0 and never reaches it
    assert!(g.releases_are_defined(bob, None, 500, &later));
    assert_eq!(
        g.release(bob, None, 500, &later, &vec![]),
        Err(VestingError::Custom("M::Underflow".to_string()))
    );
    assert_eq!(g.get_schedule_by_id(bob, None, 1, &vec![]).unwrap().released, 49);
}
