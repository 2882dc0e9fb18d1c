use vstd::prelude::*;

use vstd::arithmetic::div_mod::{lemma_div_is_ordered, lemma_div_multiples_vanish};
use vstd::arithmetic::mul::lemma_mul_is_commutative;

use crate::math::{lemma_floor_div_bounds, MathError};
use crate::storage_map::StorageMap;
use crate::token::psp22::psp22_error::{math_error_message, math_error_text, PSP22Error};
use crate::types::{AccountId, Balance, Timestamp};

verus! {

/// Errors of vesting operations.
#[derive(Debug, PartialEq, Eq, Clone)]
pub enum VestingError {
    /// Custom error type for cases the standard does not name.
    Custom(String),
    /// Returned if a transfer of a PSP22 token fails.
    PSP22Error(PSP22Error),
    /// Returned if a transfer of the native token fails.
    NativeTransferFailed,
    /// Returned if the amount paid is invalid (native token only).
    InvalidAmountPaid,
}

/// `e` is the vesting error that the arithmetic error `m` converts to.
pub open spec fn is_vest_math_error(e: VestingError, m: MathError) -> bool {
    e matches VestingError::Custom(s) && s@ == math_error_message(m)
}

/// `r` relates to `m` as the `?` operator makes it: the same value, or the
/// vesting error of the same arithmetic error.
pub open spec fn vest_carries<T>(r: Result<T, VestingError>, m: Result<T, MathError>) -> bool {
    match m {
        Ok(v) => r == Ok::<T, VestingError>(v),
        Err(e) => r matches Err(ve) && is_vest_math_error(ve, e),
    }
}

/// `r` is the vesting error of the arithmetic error `m`.
pub open spec fn vest_fails<T>(r: Result<T, VestingError>, m: MathError) -> bool {
    r matches Err(e) && is_vest_math_error(e, m)
}

impl VestingError {
    /// The vesting error an arithmetic error converts to: a `Custom` error
    /// naming it.
    pub fn from_math_error(e: MathError) -> (r: VestingError)
        ensures
            is_vest_math_error(r, e),
    {
        VestingError::Custom(math_error_text(e))
    }

    /// The vesting error a failed PSP22 transfer converts to.
    pub fn from_psp22_error(e: PSP22Error) -> (r: VestingError)
        ensures
            r == VestingError::PSP22Error(e),
    {
        VestingError::PSP22Error(e)
    }
}

/// The message of a contract that provides vesting durations.
pub trait ProvideVestScheduleInfo {
    /// The (waiting, vesting) durations of the vests that name this contract.
    fn get_waiting_and_vesting_durations(&self) -> (Timestamp, Timestamp);
}

/// A schedule whose durations another contract provides, with the durations
/// to use when that contract does not answer.
#[derive(Debug, Clone, Copy)]
pub struct ExternalTimeConstraint {
    pub account: AccountId,
    pub fallback_values: (Timestamp, Timestamp),
}

/// The waiting and vesting durations of a vest.
#[derive(Debug, Clone, Copy)]
pub enum VestingSchedule {
    Constant(Timestamp, Timestamp),
    External(ExternalTimeConstraint),
}

/// The answers of the contracts that provide vesting durations: for each
/// provider that answered `get_waiting_and_vesting_durations`, the pair it
/// gave. A provider without an entry did not answer.
pub type DurationReplies = StorageMap<AccountId, (Timestamp, Timestamp)>;

/// The (waiting, vesting) durations of `schedule`, given the providers'
/// answers `replies`.
pub open spec fn durations(
    schedule: VestingSchedule,
    replies: Map<AccountId, (Timestamp, Timestamp)>,
) -> (Timestamp, Timestamp) {
    match schedule {
        VestingSchedule::Constant(w, d) => (w, d),
        VestingSchedule::External(c) => if replies.contains_key(c.account) {
            replies[c.account]
        } else {
            c.fallback_values
        },
    }
}

impl ExternalTimeConstraint {
    /// The durations the provider answered, or the fallback values when it
    /// did not answer.
    pub fn get_waiting_and_duration_times(&self, replies: &DurationReplies) -> (r: (Timestamp, Timestamp))
        requires
            replies.wf(),
        ensures
            r == durations(VestingSchedule::External(*self), replies@),
    {
        match replies.get(&self.account) {
            Some(v) => v,
            None => self.fallback_values,
        }
    }
}

impl VestingSchedule {
    /// The waiting and vesting durations of the schedule.
    pub fn get_waiting_and_duration_times(&self, replies: &DurationReplies) -> (r: (Timestamp, Timestamp))
        requires
            replies.wf(),
        ensures
            r == durations(*self, replies@),
    {
        match self {
            VestingSchedule::Constant(waiting_duration, vesting_duration) => {
                (*waiting_duration, *vesting_duration)
            },
            VestingSchedule::External(external_constraint) => {
                external_constraint.get_waiting_and_duration_times(replies)
            },
        }
    }
}

/// One vest: when it was created, its schedule, the amount vested and the
/// amount already released.
#[derive(Debug, Clone, Copy)]
pub struct VestingData {
    pub creation_time: Timestamp,
    pub schedule: VestingSchedule,
    pub amount: Balance,
    pub released: Balance,
}

/// The vest starts releasing at `creation_time + waiting` (`Err` if that
/// overflows).
pub open spec fn start_time(v: VestingData, times: (Timestamp, Timestamp)) -> Result<int, MathError> {
    if v.creation_time + times.0 > u64::MAX {
        Err(MathError::Overflow)
    } else {
        Ok(v.creation_time + times.0)
    }
}

/// The vest is fully released at `start + vesting` (`Err` if that
/// overflows).
pub open spec fn end_time(v: VestingData, times: (Timestamp, Timestamp)) -> Result<int, MathError> {
    match start_time(v, times) {
        Err(e) => Err(e),
        Ok(s) => if s + times.1 > u64::MAX {
            Err(MathError::Overflow)
        } else {
            Ok(s + times.1)
        },
    }
}

/// Whether the vest is over at `now`.
pub open spec fn overdue(v: VestingData, now: Timestamp, times: (Timestamp, Timestamp)) -> Result<
    bool,
    MathError,
> {
    match end_time(v, times) {
        Err(e) => Err(e),
        Ok(end) => Ok(now >= end),
    }
}

/// The linear part of the vest at `now`: `amount * (now - start) / (end -
/// start)`, between the start and the end.
pub open spec fn vested_so_far(v: VestingData, now: Timestamp, start: int, end: int) -> int {
    (v.amount * (now - start)) / (end - start)
}

/// What the vest can release at `now` (rounding down): all that is left once
/// it is over, nothing before it starts, and in between the linear part minus
/// one, minus what was already released.
pub open spec fn releasable(v: VestingData, now: Timestamp, times: (Timestamp, Timestamp)) -> Result<
    u128,
    MathError,
> {
    match end_time(v, times) {
        Err(e) => Err(e),
        Ok(end) => {
            let start = start_time(v, times)->Ok_0;
            if now >= end {
                Ok((v.amount - v.released) as u128)
            } else if now <= start {
                Ok(0u128)
            } else if v.amount * (now - start) > u128::MAX {
                Err(MathError::Overflow)
            } else if vested_so_far(v, now, start, end) < 1 {
                Err(MathError::Underflow)
            } else {
                Ok((vested_so_far(v, now, start, end) - 1 - v.released) as u128)
            }
        },
    }
}

/// The inputs on which computing what the vest releases at `now` would
/// subtract below zero, where the contract panics: once the vest is over,
/// more released than its amount; between start and end, more released than
/// the linear part minus one.
pub open spec fn release_panics(v: VestingData, now: Timestamp, times: (Timestamp, Timestamp)) -> bool {
    match end_time(v, times) {
        Err(_) => false,
        Ok(end) => {
            let start = start_time(v, times)->Ok_0;
            ||| now >= end && v.released > v.amount
            ||| {
                &&& start < now < end
                &&& v.amount * (now - start) <= u128::MAX
                &&& vested_so_far(v, now, start, end) >= 1
                &&& vested_so_far(v, now, start, end) - 1 < v.released
            }
        },
    }
}

/// The linear part never exceeds the amount.
pub proof fn lemma_vested_le_amount(v: VestingData, now: Timestamp, start: int, end: int)
    requires
        start < now < end,
    ensures
        0 <= vested_so_far(v, now, start, end) <= v.amount,
{
    let a = v.amount as int;
    let e = now - start;
    let s = end - start;
    assert(a * e <= a * s) by (nonlinear_arith)
        requires
            a >= 0,
            0 < e < s,
    ;
    assert(a * e >= 0) by (nonlinear_arith)
        requires
            a >= 0,
            e > 0,
    ;
    lemma_div_is_ordered(a * e, a * s, s);
    lemma_div_is_ordered(0, a * e, s);
    lemma_mul_is_commutative(a, s);
    lemma_div_multiples_vanish(a, s);
}

impl VestingData {
    /// Whether the vest is over at `now` (`Err` if its end overflows).
    pub fn is_overdue(&self, now: Timestamp, replies: &DurationReplies) -> (r: Result<
        bool,
        VestingError,
    >)
        requires
            replies.wf(),
        ensures
            vest_carries(r, overdue(*self, now, durations(self.schedule, replies@))),
    {
        let (waiting_duration, vesting_duration) = self.schedule.get_waiting_and_duration_times(
            replies,
        );
        let start_time = match self.creation_time.checked_add(waiting_duration) {
            Some(t) => t,
            None => return Err(VestingError::from_math_error(MathError::Overflow)),
        };
        let end_time = match start_time.checked_add(vesting_duration) {
            Some(t) => t,
            None => return Err(VestingError::from_math_error(MathError::Overflow)),
        };
        Ok(now >= end_time)
    }

    /// What the vest can release at `now`.
    pub fn amount_releaseable_rdown(&self, now: Timestamp, replies: &DurationReplies) -> (r: Result<
        Balance,
        VestingError,
    >)
        requires
            replies.wf(),
            !release_panics(*self, now, durations(self.schedule, replies@)),
        ensures
            vest_carries(r, releasable(*self, now, durations(self.schedule, replies@))),
    {
        let (waiting_duration, vesting_duration) = self.schedule.get_waiting_and_duration_times(
            replies,
        );
        let start_time = match self.creation_time.checked_add(waiting_duration) {
            Some(t) => t,
            None => return Err(VestingError::from_math_error(MathError::Overflow)),
        };
        let end_time = match start_time.checked_add(vesting_duration) {
            Some(t) => t,
            None => return Err(VestingError::from_math_error(MathError::Overflow)),
        };
        let is_overdue = self.is_overdue(now, replies)?;
        if is_overdue {
            return Ok(self.amount - self.released);
        }
        if now <= start_time {
            return Ok(0);
        }
        if start_time == end_time && now > start_time {
            return Ok(self.amount - self.released);
        }
        let elapsed = (now - start_time) as u128;
        let span = (end_time - start_time) as u128;
        let product = match self.amount.checked_mul(elapsed) {
            Some(p) => p,
            None => return Err(VestingError::from_math_error(MathError::Overflow)),
        };
        let quotient = match product.checked_div(span) {
            Some(q) => q,
            None => return Err(VestingError::from_math_error(MathError::DivByZero)),
        };
        let total_to_release = match quotient.checked_sub(1) {
            Some(t) => t,
            None => return Err(VestingError::from_math_error(MathError::Underflow)),
        };
        let amount_releaseable = total_to_release - self.released;
        Ok(amount_releaseable)
    }

    /// Marks what the vest can release at `now` as released and returns it.
    pub fn collect_releasable_rdown(&mut self, now: Timestamp, replies: &DurationReplies) -> (r:
        Result<Balance, VestingError>)
        requires
            replies.wf(),
            !release_panics(*old(self), now, durations(old(self).schedule, replies@)),
        ensures
            vest_carries(r, releasable(*old(self), now, durations(old(self).schedule, replies@))),
            r is Err ==> *final(self) == *old(self),
            r matches Ok(a) ==> *final(self) == (VestingData {
                released: (old(self).released + a) as u128,
                ..*old(self)
            }),
            r is Ok && old(self).released <= old(self).amount ==> final(self).released <= final(self).amount,
    {
        let amount_releaseable = self.amount_releaseable_rdown(now, replies)?;
        proof {
            let times = durations(self.schedule, replies@);
            let start = start_time(*self, times)->Ok_0;
            let end = end_time(*self, times)->Ok_0;
            if start < now < end {
                lemma_vested_le_amount(*self, now, start, end);
            }
        }
        self.released = match self.released.checked_add(amount_releaseable) {
            Some(v) => v,
            None => return Err(VestingError::from_math_error(MathError::Overflow)),
        };
        Ok(amount_releaseable)
    }
}


/// Emitted when vested tokens are released.
#[derive(Debug, Clone, Copy)]
pub struct TokenReleased {
    /// The account that triggered the release.
    pub caller: AccountId,
    /// The account to which the tokens are sent.
    pub to: AccountId,
    /// The locked asset (`None` for the native token).
    pub asset: Option<AccountId>,
    /// The amount of tokens released.
    pub amount: Balance,
}

/// Emitted when a vest is created.
#[derive(Debug, Clone, Copy)]
pub struct VestingScheduled {
    /// The creator of the vest.
    pub creator: AccountId,
    /// The locked asset (`None` for the native token).
    pub asset: Option<AccountId>,
    /// The account to which the tokens will be sent.
    pub receiver: AccountId,
    /// The amount of tokens vested.
    pub amount: Balance,
    /// The schedule of the vest.
    pub schedule: VestingSchedule,
}

/// Key of the vests of one receiver in one asset.
pub type VestKey = (AccountId, Option<AccountId>);

/// The storage of the general vesting module: for each receiver and asset,
/// the next id, which counts the vests ever created, and the vests under
/// their ids. An id keeps its vest for good; once the vest is over and
/// released, its id stays empty.
pub struct GeneralVestData {
    vesting_datas: StorageMap<(AccountId, Option<AccountId>, u32), VestingData>,
    next_id: StorageMap<VestKey, u32>,
}

impl GeneralVestData {
    /// The stored vests by (receiver, asset, id).
    pub closed spec fn datas(&self) -> Map<(AccountId, Option<AccountId>, u32), VestingData> {
        self.vesting_datas@
    }

    /// The stored next ids by (receiver, asset).
    pub closed spec fn next_ids(&self) -> Map<VestKey, u32> {
        self.next_id@
    }

    /// The next id of the vests of `to` in `asset`: how many were created.
    pub open spec fn next_of(&self, to: AccountId, asset: Option<AccountId>) -> u32 {
        if self.next_ids().contains_key((to, asset)) {
            self.next_ids()[(to, asset)]
        } else {
            0
        }
    }

    /// The vests of `to` in `asset`, by id below the next id; `None` where
    /// the vest has been fully released.
    pub open spec fn vests(&self, to: AccountId, asset: Option<AccountId>) -> Seq<Option<VestingData>> {
        Seq::new(
            self.next_of(to, asset) as nat,
            |i: int|
                if self.datas().contains_key((to, asset, i as u32)) {
                    Some(self.datas()[(to, asset, i as u32)])
                } else {
                    None
                },
        )
    }

    /// Well formed: every stored vest has an id below the next id of its
    /// receiver and asset.
    pub closed spec fn wf(&self) -> bool {
        &&& self.vesting_datas.wf()
        &&& self.next_id.wf()
        &&& forall|k: (AccountId, Option<AccountId>, u32)| #[trigger]
            self.vesting_datas@.contains_key(k) ==> k.2 < self.next_of(k.0, k.1)
    }

    /// No vests at all.
    pub fn new() -> (d: Self)
        ensures
            d.wf(),
            forall|to: AccountId, asset: Option<AccountId>| #[trigger] d.next_of(to, asset) == 0,
    {
        GeneralVestData { vesting_datas: StorageMap::new(), next_id: StorageMap::new() }
    }

    /// The next id of the vests of `of` in `asset`: how many were created.
    pub fn _next_id_vest_of(&self, of: AccountId, asset: Option<AccountId>, _data: &Vec<u8>) -> (r:
        u32)
        requires
            self.wf(),
        ensures
            r == self.next_of(of, asset),
    {
        match self.next_id.get(&(of, asset)) {
            Some(v) => v,
            None => 0,
        }
    }

    /// The vest of `to` in `asset` numbered `id`, if it is held.
    pub fn get_schedule_by_id(
        &self,
        to: AccountId,
        asset: Option<AccountId>,
        id: u32,
        _data: &Vec<u8>,
    ) -> (r: Option<VestingData>)
        requires
            self.wf(),
        ensures
            id < self.next_of(to, asset) ==> r == self.vests(to, asset)[id as int],
            id >= self.next_of(to, asset) ==> r is None,
    {
        proof {
            if self.vesting_datas@.contains_key((to, asset, id)) {
                assert(id < self.next_of(to, asset));
            }
        }
        self.vesting_datas.get(&(to, asset, id))
    }

    /// Adds a vest of `amount` for `to` in `asset`, created at `now`, under
    /// the next id.
    pub fn create(
        &mut self,
        to: AccountId,
        asset: Option<AccountId>,
        amount: Balance,
        schedule: VestingSchedule,
        now: Timestamp,
        _data: &Vec<u8>,
    ) -> (r: Result<(), VestingError>)
        requires
            old(self).wf(),
        ensures
            create_post(*old(self), *final(self), to, asset, amount, schedule, now, r),
    {
        let id = match self.next_id.get(&(to, asset)) {
            Some(v) => v,
            None => 0,
        };
        let ghost pre = *self;
        let v = VestingData { creation_time: now, schedule, amount, released: 0 };
        self.vesting_datas.insert((to, asset, id), v);
        let next = match id.checked_add(1) {
            Some(n) => n,
            None => return Err(VestingError::from_math_error(MathError::Overflow)),
        };
        self.next_id.insert((to, asset), next);
        proof {
            assert forall|k: (AccountId, Option<AccountId>, u32)| #[trigger]
                self.vesting_datas@.contains_key(k) implies k.2 < self.next_of(k.0, k.1) by {
                if k != (to, asset, id) {
                    assert(pre.vesting_datas@.contains_key(k));
                }
            }
            assert(!pre.vesting_datas@.contains_key((to, asset, id)));
            assert(self.vests(to, asset) =~= pre.vests(to, asset).push(Some(v)));
            assert forall|t: AccountId, a: Option<AccountId>|
                (t, a) != (to, asset) implies #[trigger] self.vests(t, a) == pre.vests(t, a) by {
                assert(self.vests(t, a) =~= pre.vests(t, a));
            }
        }
        Ok(())
    }
}

/// `v` with `a` more released.
pub open spec fn with_released(v: VestingData, a: u128) -> VestingData {
    VestingData { released: (v.released + a) as u128, ..v }
}

/// The vest stays after a release at `now`: it is not over.
pub open spec fn stays(v: VestingData, now: Timestamp, replies: Map<AccountId, (Timestamp, Timestamp)>) -> bool {
    overdue(v, now, durations(v.schedule, replies)) == Ok::<bool, MathError>(false)
}

/// The vest once its release at `now` is recorded.
pub open spec fn collected(
    v: VestingData,
    now: Timestamp,
    replies: Map<AccountId, (Timestamp, Timestamp)>,
) -> VestingData {
    with_released(v, releasable(v, now, durations(v.schedule, replies))->Ok_0)
}

/// What a release at `now` leaves under the id of the vest `v`: nothing once
/// the vest is over, else the vest with its release recorded.
pub open spec fn settle(
    v: VestingData,
    now: Timestamp,
    replies: Map<AccountId, (Timestamp, Timestamp)>,
) -> Option<VestingData> {
    if stays(v, now, replies) {
        Some(collected(v, now, replies))
    } else {
        None
    }
}

impl GeneralVestData {
    /// Releases what the vest `id` of `to` in `asset` can release at `now`.
    /// A vest that is over leaves its id empty. Returns whether that happened
    /// and the amount released.
    pub fn release_by_vest_id(
        &mut self,
        to: AccountId,
        asset: Option<AccountId>,
        id: u32,
        now: Timestamp,
        replies: &DurationReplies,
        _data: &Vec<u8>,
    ) -> (r: Result<(bool, Balance), VestingError>)
        requires
            old(self).wf(),
            replies.wf(),
            id < old(self).next_of(to, asset) ==> (old(self).vests(to, asset)[id as int] matches Some(v)
                ==> !release_panics(v, now, durations(v.schedule, replies@))),
        ensures
            release_by_id_post(*old(self), *final(self), to, asset, id, now, replies@, r),
    {
        let ghost pre = *self;
        proof {
            if pre.vesting_datas@.contains_key((to, asset, id)) {
                assert(id < pre.next_of(to, asset));
            }
        }
        let mut data = match self.vesting_datas.get(&(to, asset, id)) {
            Some(d) => d,
            None => return Ok((false, 0)),
        };
        let amount_released = data.collect_releasable_rdown(now, replies)?;
        let over = data.is_overdue(now, replies)?;
        if over {
            let leftover = data.amount - data.released;
            self.vesting_datas.remove(&(to, asset, id));
            proof {
                assert forall|k: (AccountId, Option<AccountId>, u32)| #[trigger]
                    self.vesting_datas@.contains_key(k) implies k.2 < self.next_of(k.0, k.1) by {
                    assert(pre.vesting_datas@.contains_key(k));
                }
                let s = pre.vests(to, asset);
                assert(self.vests(to, asset) =~= s.update(id as int, None));
                assert forall|t: AccountId, b: Option<AccountId>|
                    (t, b) != (to, asset) implies #[trigger] self.vests(t, b) == pre.vests(t, b) by {
                    assert(self.vests(t, b) =~= pre.vests(t, b));
                }
            }
            let total = match amount_released.checked_add(leftover) {
                Some(t) => t,
                None => return Err(VestingError::from_math_error(MathError::Overflow)),
            };
            return Ok((true, total));
        }
        self.vesting_datas.insert((to, asset, id), data);
        proof {
            assert forall|k: (AccountId, Option<AccountId>, u32)| #[trigger]
                self.vesting_datas@.contains_key(k) implies k.2 < self.next_of(k.0, k.1) by {
                if k != (to, asset, id) {
                    assert(pre.vesting_datas@.contains_key(k));
                }
            }
            let s = pre.vests(to, asset);
            assert(self.vests(to, asset) =~= s.update(id as int, Some(with_released(s[id as int]->Some_0, amount_released))));
            assert forall|t: AccountId, b: Option<AccountId>|
                (t, b) != (to, asset) implies #[trigger] self.vests(t, b) == pre.vests(t, b) by {
                assert(self.vests(t, b) =~= pre.vests(t, b));
            }
        }
        Ok((false, amount_released))
    }
}

/// What a release at `now` does to the vests `s`, from id `i` on, once
/// `total` has been released: the vests it leaves and the total it releases,
/// or the error it stops at. It takes the ids in order, skips the empty
/// ones, and stops at the first error; an id it has gone past keeps what the
/// release left there.
pub open spec fn release_run(
    s: Seq<Option<VestingData>>,
    i: int,
    total: u128,
    now: Timestamp,
    replies: Map<AccountId, (Timestamp, Timestamp)>,
) -> (Seq<Option<VestingData>>, Result<u128, MathError>)
    decreases s.len() - i,
{
    if i < 0 || i >= s.len() {
        (s, Ok(total))
    } else {
        match s[i] {
            None => release_run(s, i + 1, total, now, replies),
            Some(v) => match releasable(v, now, durations(v.schedule, replies)) {
                Err(m) => (s, Err(m)),
                Ok(a) => {
                    let t = s.update(i, settle(v, now, replies));
                    if total + a > u128::MAX {
                        (t, Err(MathError::Overflow))
                    } else {
                        release_run(t, i + 1, (total + a) as u128, now, replies)
                    }
                },
            },
        }
    }
}

/// The release of `release_run(s, i, total)` never computes the release of
/// a vest on which that computation would panic: each vest it reaches before
/// it stops is safe.
pub open spec fn release_safe(
    s: Seq<Option<VestingData>>,
    i: int,
    total: u128,
    now: Timestamp,
    replies: Map<AccountId, (Timestamp, Timestamp)>,
) -> bool
    decreases s.len() - i,
{
    if i < 0 || i >= s.len() {
        true
    } else {
        match s[i] {
            None => release_safe(s, i + 1, total, now, replies),
            Some(v) => {
                &&& !release_panics(v, now, durations(v.schedule, replies))
                &&& match releasable(v, now, durations(v.schedule, replies)) {
                    Ok(a) => total + a <= u128::MAX ==> release_safe(
                        s.update(i, settle(v, now, replies)),
                        i + 1,
                        (total + a) as u128,
                        now,
                        replies,
                    ),
                    Err(_) => true,
                }
            },
        }
    }
}

impl GeneralVestData {
    /// Releases what every vest of `to` in `asset` can release at `now`,
    /// going through their ids in order, and returns the total. Vests that
    /// are over leave their ids empty. Stops at the first error.
    pub fn release(
        &mut self,
        to: AccountId,
        asset: Option<AccountId>,
        now: Timestamp,
        replies: &DurationReplies,
        data: &Vec<u8>,
    ) -> (r: Result<Balance, VestingError>)
        requires
            old(self).wf(),
            replies.wf(),
            release_safe(old(self).vests(to, asset), 0, 0, now, replies@),
        ensures
            release_post(*old(self), *final(self), to, asset, now, replies@, r),
    {
        let ghost s = self.vests(to, asset);
        let ghost pre = *self;
        let ghost rep = replies@;
        let next_id = self._next_id_vest_of(to, asset, data);
        let mut current_id: u32 = 0;
        let mut total: u128 = 0;
        while current_id < next_id
            invariant
                self.wf(),
                replies.wf(),
                rep == replies@,
                pre == *old(self),
                s == pre.vests(to, asset),
                next_id == pre.next_of(to, asset),
                current_id <= next_id,
                self.next_ids() == pre.next_ids(),
                forall|t: AccountId, b: Option<AccountId>|
                    (t, b) != (to, asset) ==> #[trigger] self.vests(t, b) == pre.vests(t, b),
                release_run(self.vests(to, asset), current_id as int, total, now, rep) == release_run(
                    s,
                    0,
                    0,
                    now,
                    rep,
                ),
                release_safe(self.vests(to, asset), current_id as int, total, now, rep),
            decreases next_id - current_id,
        {
            let ghost c = self.vests(to, asset);
            let ghost p = current_id as int;
            let released = self.release_by_vest_id(to, asset, current_id, now, replies, data);
            let amount_released = match released {
                Ok(pair) => pair.1,
                Err(e) => {
                    return Err(e);
                },
            };
            proof {
                if c[p] is None {
                    assert(release_run(c, p, total, now, rep) == release_run(c, p + 1, total, now, rep));
                    assert(release_safe(c, p, total, now, rep) == release_safe(c, p + 1, total, now, rep));
                }
            }
            total = match total.checked_add(amount_released) {
                Some(t) => t,
                None => {
                    return Err(VestingError::from_math_error(MathError::Overflow));
                },
            };
            current_id = current_id + 1;
        }
        proof {
            let c = self.vests(to, asset);
            assert(release_run(c, next_id as int, total, now, rep) == (c, Ok::<u128, MathError>(total)));
        }
        Ok(total)
    }
}

/// What `create(to, asset, amount, schedule)` at `now` does, from `pre` to
/// `post` with result `r`: the new vest gets the next id, which advances;
/// when the next id is already `u32::MAX` the vest is stored but the id does
/// not advance.
pub open spec fn create_post(
    pre: GeneralVestData,
    post: GeneralVestData,
    to: AccountId,
    asset: Option<AccountId>,
    amount: Balance,
    schedule: VestingSchedule,
    now: Timestamp,
    r: Result<(), VestingError>,
) -> bool {
    let v = VestingData { creation_time: now, schedule, amount, released: 0 };
    &&& pre.next_of(to, asset) < u32::MAX ==> {
        &&& r is Ok
        &&& post.wf()
        &&& post.next_of(to, asset) == pre.next_of(to, asset) + 1
        &&& post.vests(to, asset) == pre.vests(to, asset).push(Some(v))
        &&& forall|t: AccountId, a: Option<AccountId>|
            (t, a) != (to, asset) ==> #[trigger] post.vests(t, a) == pre.vests(t, a)
    }
    &&& pre.next_of(to, asset) == u32::MAX ==> {
        &&& vest_carries(r, Err::<(), MathError>(MathError::Overflow))
        &&& post.datas() == pre.datas().insert((to, asset, u32::MAX), v)
        &&& post.next_ids() == pre.next_ids()
    }
}

/// What `release_by_vest_id(to, asset, id)` at `now` does, from `pre` to
/// `post` with result `r`, the duration providers having answered `replies`.
/// No id changes its vest but `id`, and no next id changes.
pub open spec fn release_by_id_post(
    pre: GeneralVestData,
    post: GeneralVestData,
    to: AccountId,
    asset: Option<AccountId>,
    id: u32,
    now: Timestamp,
    replies: Map<AccountId, (Timestamp, Timestamp)>,
    r: Result<(bool, Balance), VestingError>,
) -> bool {
    let s = pre.vests(to, asset);
    &&& post.wf()
    &&& post.next_ids() == pre.next_ids()
    &&& (id >= pre.next_of(to, asset) || s[id as int] is None) ==> r == Ok::<
        (bool, Balance),
        VestingError,
    >((false, 0)) && post == pre
    &&& id < pre.next_of(to, asset) ==> (s[id as int] matches Some(v) ==> {
        let times = durations(v.schedule, replies);
        &&& releasable(v, now, times) matches Err(m) ==> vest_fails(r, m) && post == pre
        &&& releasable(v, now, times) matches Ok(a) ==> {
            &&& r == Ok::<(bool, Balance), VestingError>((!stays(v, now, replies), a))
            &&& post.vests(to, asset) == s.update(id as int, settle(v, now, replies))
            &&& forall|t: AccountId, b: Option<AccountId>|
                (t, b) != (to, asset) ==> #[trigger] post.vests(t, b) == pre.vests(t, b)
        }
    })
}

/// What `release(to, asset)` at `now` does, from `pre` to `post` with result
/// `r`, the duration providers having answered `replies`: what `release_run`
/// gives from the first id with nothing released yet. No other receiver or
/// asset is touched and no next id changes.
pub open spec fn release_post(
    pre: GeneralVestData,
    post: GeneralVestData,
    to: AccountId,
    asset: Option<AccountId>,
    now: Timestamp,
    replies: Map<AccountId, (Timestamp, Timestamp)>,
    r: Result<Balance, VestingError>,
) -> bool {
    let run = release_run(pre.vests(to, asset), 0, 0, now, replies);
    &&& post.wf()
    &&& post.next_ids() == pre.next_ids()
    &&& post.vests(to, asset) == run.0
    &&& vest_carries(r, run.1)
    &&& forall|t: AccountId, b: Option<AccountId>|
        (t, b) != (to, asset) ==> #[trigger] post.vests(t, b) == pre.vests(t, b)
}

/// The receiver of a release: the one named, else the caller.
pub open spec fn receiver_or(receiver: Option<AccountId>, caller: AccountId) -> AccountId {
    match receiver {
        Some(x) => x,
        None => caller,
    }
}

impl GeneralVestData {
    /// Checks the payment of a new vest: for a PSP22 `asset`, the reply
    /// `pulled` of its `transfer_from` into the contract; for the native
    /// token, that the value sent with the call equals `amount`.
    pub fn _handle_transfer_in(
        asset: Option<AccountId>,
        amount: Balance,
        transferred_value: Balance,
        pulled: Result<(), PSP22Error>,
    ) -> (r: Result<(), VestingError>)
        ensures
            asset is Some ==> (match pulled {
                Ok(_) => r is Ok,
                Err(e) => r == Err::<(), VestingError>(VestingError::PSP22Error(e)),
            }),
            asset is None ==> (if transferred_value == amount {
                r is Ok
            } else {
                r == Err::<(), VestingError>(VestingError::InvalidAmountPaid)
            }),
    {
        match asset {
            Some(_) => match pulled {
                Ok(_) => Ok(()),
                Err(e) => Err(VestingError::from_psp22_error(e)),
            },
            None => {
                if transferred_value != amount {
                    return Err(VestingError::InvalidAmountPaid);
                }
                Ok(())
            },
        }
    }

    /// Reads the outcome of paying out a release: for a PSP22 `asset`, the
    /// reply `sent` of its `transfer`; for the native token, whether the
    /// native transfer succeeded.
    pub fn _handle_transfer_out(
        asset: Option<AccountId>,
        sent: Result<(), PSP22Error>,
        native_sent: bool,
    ) -> (r: Result<(), VestingError>)
        ensures
            asset is Some ==> (match sent {
                Ok(_) => r is Ok,
                Err(e) => r == Err::<(), VestingError>(VestingError::PSP22Error(e)),
            }),
            asset is None ==> (if native_sent {
                r is Ok
            } else {
                r == Err::<(), VestingError>(VestingError::NativeTransferFailed)
            }),
    {
        match asset {
            Some(_) => match sent {
                Ok(_) => Ok(()),
                Err(e) => Err(VestingError::from_psp22_error(e)),
            },
            None => {
                if !native_sent {
                    return Err(VestingError::NativeTransferFailed);
                }
                Ok(())
            },
        }
    }

    /// Creates a vest for `receiver` once the payment of `creator` has been
    /// checked (`paid` is the outcome of `_handle_transfer_in`). Returns the
    /// `VestingScheduled` event.
    pub fn _create_vest(
        &mut self,
        creator: AccountId,
        receiver: AccountId,
        asset: Option<AccountId>,
        amount: Balance,
        schedule: VestingSchedule,
        now: Timestamp,
        paid: Result<(), VestingError>,
        data: &Vec<u8>,
    ) -> (r: Result<VestingScheduled, VestingError>)
        requires
            old(self).wf(),
        ensures
            paid matches Err(e) ==> r == Err::<VestingScheduled, VestingError>(e) && *final(self)
                == *old(self),
            paid is Ok ==> exists|c: Result<(), VestingError>|
                {
                    &&& create_post(*old(self), *final(self), receiver, asset, amount, schedule, now, c)
                    &&& (c matches Err(e) ==> r == Err::<VestingScheduled, VestingError>(e))
                    &&& (c is Ok ==> r == Ok::<VestingScheduled, VestingError>(
                        VestingScheduled { creator, asset, receiver, amount, schedule },
                    ))
                },
    {
        paid?;
        let created = self.create(receiver, asset, amount, schedule, now, data);
        match created {
            Ok(_) => Ok(VestingScheduled { creator, asset, receiver, amount, schedule }),
            Err(e) => Err(e),
        }
    }

    /// Releases all the vests of `receiver` (the caller when `None`) in
    /// `asset` at `now`. Returns the receiver and the amount to pay out.
    pub fn _release(
        &mut self,
        caller: AccountId,
        receiver: Option<AccountId>,
        asset: Option<AccountId>,
        now: Timestamp,
        replies: &DurationReplies,
        data: &Vec<u8>,
    ) -> (r: Result<(AccountId, Balance), VestingError>)
        requires
            old(self).wf(),
            replies.wf(),
            release_safe(old(self).vests(receiver_or(receiver, caller), asset), 0, 0, now, replies@),
        ensures
            exists|out: Result<Balance, VestingError>|
                {
                    &&& #[trigger] release_post(*old(self), *final(self), receiver_or(receiver, caller), asset, now, replies@, out)
                    &&& (out matches Ok(a) ==> r == Ok::<(AccountId, Balance), VestingError>(
                        (receiver_or(receiver, caller), a),
                    ))
                    &&& (out matches Err(e) ==> r == Err::<(AccountId, Balance), VestingError>(e))
                },
    {
        let receiver = match receiver {
            Some(x) => x,
            None => caller,
        };
        let released = self.release(receiver, asset, now, replies, data);
        match released {
            Ok(a) => Ok((receiver, a)),
            Err(e) => Err(e),
        }
    }

    /// Releases the vest `id` of `receiver` (the caller when `None`) in
    /// `asset` at `now`. Returns the receiver and the amount to pay out.
    pub fn _release_by_vest_id(
        &mut self,
        caller: AccountId,
        receiver: Option<AccountId>,
        asset: Option<AccountId>,
        id: u32,
        now: Timestamp,
        replies: &DurationReplies,
        data: &Vec<u8>,
    ) -> (r: Result<(AccountId, Balance), VestingError>)
        requires
            old(self).wf(),
            replies.wf(),
            id < old(self).next_of(receiver_or(receiver, caller), asset) ==> (old(self).vests(
                receiver_or(receiver, caller),
                asset,
            )[id as int] matches Some(v) ==> !release_panics(v, now, durations(v.schedule, replies@))),
        ensures
            exists|out: Result<(bool, Balance), VestingError>|
                {
                    &&& #[trigger] release_by_id_post(*old(self), *final(self), receiver_or(receiver, caller), asset, id, now, replies@, out)
                    &&& (out matches Ok(p) ==> r == Ok::<(AccountId, Balance), VestingError>(
                        (receiver_or(receiver, caller), p.1),
                    ))
                    &&& (out matches Err(e) ==> r == Err::<(AccountId, Balance), VestingError>(e))
                },
    {
        let receiver = match receiver {
            Some(x) => x,
            None => caller,
        };
        let released = self.release_by_vest_id(receiver, asset, id, now, replies, data);
        match released {
            Ok(p) => Ok((receiver, p.1)),
            Err(e) => Err(e),
        }
    }

    /// The `TokenReleased` event once a release of `amount` to `to` has been
    /// paid out (`paid` is the outcome of `_handle_transfer_out`).
    pub fn token_released(
        caller: AccountId,
        to: AccountId,
        asset: Option<AccountId>,
        amount: Balance,
        paid: Result<(), VestingError>,
    ) -> (r: Result<TokenReleased, VestingError>)
        ensures
            paid matches Err(e) ==> r == Err::<TokenReleased, VestingError>(e),
            paid is Ok ==> r == Ok::<TokenReleased, VestingError>(
                TokenReleased { caller, to, asset, amount },
            ),
    {
        paid?;
        Ok(TokenReleased { caller, to, asset, amount })
    }
}


/// Law: a vest never releases more than it holds: what it can release at
/// any time, added to what it has released, stays within its amount.
pub proof fn law_release_within_amount(v: VestingData, now: Timestamp, times: (Timestamp, Timestamp), a: u128)
    requires
        v.released <= v.amount,
        releasable(v, now, times) == Ok::<u128, MathError>(a),
        !release_panics(v, now, times),
    ensures
        v.released + a <= v.amount,
{
    let start = start_time(v, times)->Ok_0;
    let end = end_time(v, times)->Ok_0;
    if start < now < end {
        lemma_vested_le_amount(v, now, start, end);
    }
}

/// Law: when a vest is over and what it releases at `now`, its waiting and
/// vesting durations being `times`. It starts at `creation_time + waiting` and ends `vesting`
/// later, an `Overflow` where either point passes the largest timestamp.
/// Once over it releases all that is left; until it starts, nothing; strictly
/// between start and end, what was released plus what it releases is the
/// linear part minus one, the linear part being the largest `q` with
/// `q * (end - start) <= amount * (now - start)` (the amount is multiplied by
/// the time elapsed before the span divides it). That product failing to fit
/// in 128 bits is an `Overflow`, and a linear part of zero an `Underflow`.
pub proof fn law_release_is_linear(v: VestingData, now: Timestamp, times: (Timestamp, Timestamp))
    requires
        !release_panics(v, now, times),
    ensures
        ({
            let start = v.creation_time + times.0;
            let end = start + times.1;
            let p = v.amount * (now - start);
            let r = releasable(v, now, times);
            &&& end > u64::MAX ==> overdue(v, now, times) == Err::<bool, MathError>(MathError::Overflow)
            &&& end <= u64::MAX ==> overdue(v, now, times) == Ok::<bool, MathError>(now >= end)
            &&& end > u64::MAX ==> r == Err::<u128, MathError>(MathError::Overflow)
            &&& end <= u64::MAX && now >= end ==> v.released <= v.amount && r == Ok::<u128, MathError>(
                (v.amount - v.released) as u128,
            )
            &&& end <= u64::MAX && now < end && now <= start ==> r == Ok::<u128, MathError>(0)
            &&& end <= u64::MAX && start < now < end && p > u128::MAX ==> r == Err::<u128, MathError>(
                MathError::Overflow,
            )
            &&& end <= u64::MAX && start < now < end && p <= u128::MAX && p < end - start ==> r
                == Err::<u128, MathError>(MathError::Underflow)
            &&& end <= u64::MAX && start < now < end && p <= u128::MAX && p >= end - start ==> (r matches Ok(a)
                && ({
                let q = v.released + a + 1;
                &&& q * (end - start) <= p
                &&& p < (q + 1) * (end - start)
            }))
        }),
{
    let start = v.creation_time + times.0;
    let end = start + times.1;
    if end <= u64::MAX && start < now < end {
        let p = v.amount * (now - start);
        let d = end - start;
        assert(p >= 0) by (nonlinear_arith)
            requires
                v.amount >= 0,
                now - start > 0,
                p == v.amount * (now - start),
        ;
        lemma_floor_div_bounds(p, d);
        let q = p / d;
        if q >= 1 {
            assert(q * d >= d) by (nonlinear_arith)
                requires
                    q >= 1,
                    d > 0,
            ;
        }
        if q == 0 {
            assert((q + 1) * d == d) by (nonlinear_arith)
                requires
                    q == 0,
            ;
        }
    }
}

/// Law: with the same durations and the same amount released, what a vest
/// can release never shrinks as time passes.
pub proof fn law_release_grows_with_time(
    v: VestingData,
    earlier: Timestamp,
    later: Timestamp,
    times: (Timestamp, Timestamp),
    a1: u128,
    a2: u128,
)
    requires
        earlier <= later,
        releasable(v, earlier, times) == Ok::<u128, MathError>(a1),
        releasable(v, later, times) == Ok::<u128, MathError>(a2),
        !release_panics(v, earlier, times),
        !release_panics(v, later, times),
    ensures
        a1 <= a2,
{
    let start = start_time(v, times)->Ok_0;
    let end = end_time(v, times)->Ok_0;
    if start < earlier < end {
        lemma_vested_le_amount(v, earlier, start, end);
        if later < end {
            let a = v.amount as int;
            let s = end - start;
            assert(a * (earlier - start) <= a * (later - start)) by (nonlinear_arith)
                requires
                    a >= 0,
                    earlier - start <= later - start,
            ;
            lemma_div_is_ordered(a * (earlier - start), a * (later - start), s);
        }
    }
}


/// The vest is settled at `now`: it is not over, it has nothing left to
/// release at `now`, and computing that does not panic.
pub open spec fn settled(v: VestingData, now: Timestamp, replies: Map<AccountId, (Timestamp, Timestamp)>) -> bool {
    &&& stays(v, now, replies)
    &&& releasable(v, now, durations(v.schedule, replies)) == Ok::<u128, MathError>(0)
    &&& !release_panics(v, now, durations(v.schedule, replies))
}

/// The id is settled at `now`: empty, or holding a settled vest.
pub open spec fn settled_slot(
    o: Option<VestingData>,
    now: Timestamp,
    replies: Map<AccountId, (Timestamp, Timestamp)>,
) -> bool {
    match o {
        None => true,
        Some(v) => settled(v, now, replies),
    }
}

/// A vest that stays is settled once its release is recorded.
proof fn lemma_collected_settled(v: VestingData, now: Timestamp, replies: Map<AccountId, (Timestamp, Timestamp)>)
    requires
        stays(v, now, replies),
        releasable(v, now, durations(v.schedule, replies)) is Ok,
        !release_panics(v, now, durations(v.schedule, replies)),
    ensures
        settled(collected(v, now, replies), now, replies),
{
    let times = durations(v.schedule, replies);
    let start = start_time(v, times)->Ok_0;
    let end = end_time(v, times)->Ok_0;
    if start < now < end {
        lemma_vested_le_amount(v, now, start, end);
    }
}

/// A release that succeeds from id `i` on leaves every id settled, when the
/// ids before `i` already are.
proof fn lemma_run_settles(
    s: Seq<Option<VestingData>>,
    i: int,
    total: u128,
    now: Timestamp,
    replies: Map<AccountId, (Timestamp, Timestamp)>,
)
    requires
        0 <= i <= s.len(),
        forall|j: int| 0 <= j < i ==> #[trigger] settled_slot(s[j], now, replies),
        release_safe(s, i, total, now, replies),
        release_run(s, i, total, now, replies).1 is Ok,
    ensures
        release_run(s, i, total, now, replies).0.len() == s.len(),
        forall|j: int|
            0 <= j < s.len() ==> #[trigger] settled_slot(
                release_run(s, i, total, now, replies).0[j],
                now,
                replies,
            ),
    decreases s.len() - i,
{
    if i < s.len() {
        match s[i] {
            None => {
                assert forall|j: int| 0 <= j < i + 1 implies #[trigger] settled_slot(s[j], now, replies) by {}
                lemma_run_settles(s, i + 1, total, now, replies);
            },
            Some(v) => {
                let times = durations(v.schedule, replies);
                let a = releasable(v, now, times)->Ok_0;
                let t = s.update(i, settle(v, now, replies));
                if stays(v, now, replies) {
                    lemma_collected_settled(v, now, replies);
                }
                assert forall|j: int| 0 <= j < i + 1 implies #[trigger] settled_slot(t[j], now, replies) by {
                    if j < i {
                        assert(settled_slot(s[j], now, replies));
                    }
                }
                lemma_run_settles(t, i + 1, (total + a) as u128, now, replies);
            },
        }
    } else {
        assert forall|j: int| 0 <= j < s.len() implies #[trigger] settled_slot(s[j], now, replies) by {}
    }
}

/// A release goes past settled ids, releases nothing and leaves them as
/// they are.
proof fn lemma_run_on_settled(
    s: Seq<Option<VestingData>>,
    i: int,
    total: u128,
    now: Timestamp,
    replies: Map<AccountId, (Timestamp, Timestamp)>,
)
    requires
        0 <= i <= s.len(),
        forall|j: int| 0 <= j < s.len() ==> #[trigger] settled_slot(s[j], now, replies),
    ensures
        release_safe(s, i, total, now, replies),
        release_run(s, i, total, now, replies) == (s, Ok::<u128, MathError>(total)),
    decreases s.len() - i,
{
    if i < s.len() {
        assert(settled_slot(s[i], now, replies));
        match s[i] {
            None => {},
            Some(v) => {
                assert(s.update(i, settle(v, now, replies)) =~= s);
            },
        }
        lemma_run_on_settled(s, i + 1, total, now, replies);
    }
}

/// Law: after a release that succeeded, every id of the receiver in the
/// asset is settled: a second release at the same time, with the same
/// durations, may be made, releases nothing and leaves every vest as it is.
pub proof fn law_release_leaves_settled(
    pre: GeneralVestData,
    mid: GeneralVestData,
    to: AccountId,
    asset: Option<AccountId>,
    now: Timestamp,
    replies: Map<AccountId, (Timestamp, Timestamp)>,
    total: Balance,
)
    requires
        release_safe(pre.vests(to, asset), 0, 0, now, replies),
        release_post(pre, mid, to, asset, now, replies, Ok(total)),
    ensures
        forall|j: int|
            0 <= j < mid.vests(to, asset).len() ==> #[trigger] settled_slot(mid.vests(to, asset)[j], now, replies),
        release_safe(mid.vests(to, asset), 0, 0, now, replies),
        release_run(mid.vests(to, asset), 0, 0, now, replies) == (
            mid.vests(to, asset),
            Ok::<u128, MathError>(0),
        ),
{
    lemma_run_settles(pre.vests(to, asset), 0, 0, now, replies);
    lemma_run_on_settled(mid.vests(to, asset), 0, 0, now, replies);
}

/// Law: a second release at the same time, with the same durations, after
/// one that succeeded, succeeds, releases nothing and leaves every vest, its
/// id and the next id as they were.
pub proof fn law_release_again_is_idle(
    pre: GeneralVestData,
    mid: GeneralVestData,
    post: GeneralVestData,
    to: AccountId,
    asset: Option<AccountId>,
    now: Timestamp,
    replies: Map<AccountId, (Timestamp, Timestamp)>,
    total: Balance,
    r: Result<Balance, VestingError>,
)
    requires
        release_safe(pre.vests(to, asset), 0, 0, now, replies),
        release_post(pre, mid, to, asset, now, replies, Ok(total)),
        release_post(mid, post, to, asset, now, replies, r),
    ensures
        r == Ok::<Balance, VestingError>(0),
        post.vests(to, asset) == mid.vests(to, asset),
        post.next_ids() == mid.next_ids(),
{
    law_release_leaves_settled(pre, mid, to, asset, now, replies, total);
}

/// Law: an id keeps its vest. Releasing the vest `id` changes no other id
/// and no next id; what then stays under `id` is the same vest (its creation
/// time, schedule and amount) with at least as much released.
pub proof fn law_release_by_id_keeps_ids(
    pre: GeneralVestData,
    post: GeneralVestData,
    to: AccountId,
    asset: Option<AccountId>,
    id: u32,
    now: Timestamp,
    replies: Map<AccountId, (Timestamp, Timestamp)>,
    r: Result<(bool, Balance), VestingError>,
)
    requires
        release_by_id_post(pre, post, to, asset, id, now, replies, r),
        id < pre.next_of(to, asset) ==> (pre.vests(to, asset)[id as int] matches Some(v)
            ==> !release_panics(v, now, durations(v.schedule, replies))),
    ensures
        post.next_ids() == pre.next_ids(),
        post.vests(to, asset).len() == pre.vests(to, asset).len(),
        forall|j: int|
            0 <= j < pre.vests(to, asset).len() && j != id ==> #[trigger] post.vests(to, asset)[j]
                == pre.vests(to, asset)[j],
        id < pre.next_of(to, asset) ==> (post.vests(to, asset)[id as int] matches Some(w) ==> (pre.vests(
            to,
            asset,
        )[id as int] matches Some(v) && w.creation_time == v.creation_time && w.schedule == v.schedule
            && w.amount == v.amount && w.released >= v.released)),
{
    if id < pre.next_of(to, asset) {
        if let Some(v) = pre.vests(to, asset)[id as int] {
            let times = durations(v.schedule, replies);
            let start = start_time(v, times)->Ok_0;
            let end = end_time(v, times)->Ok_0;
            if end_time(v, times) is Ok && start < now < end {
                lemma_vested_le_amount(v, now, start, end);
            }
        }
    }
}

/// Law: every stored vest has an id below the next id of its receiver and
/// asset, which counts the vests created.
pub proof fn law_stored_ids_below_next(d: GeneralVestData)
    requires
        d.wf(),
    ensures
        forall|k: (AccountId, Option<AccountId>, u32)| #[trigger]
            d.datas().contains_key(k) ==> k.2 < d.next_of(k.0, k.1),
{
}

impl VestingData {
    /// Whether computing what the vest releases at `now` stays within the
    /// arithmetic that does not panic.
    pub fn release_is_defined(&self, now: Timestamp, replies: &DurationReplies) -> (r: bool)
        requires
            replies.wf(),
        ensures
            r == !release_panics(*self, now, durations(self.schedule, replies@)),
    {
        let (waiting_duration, vesting_duration) = self.schedule.get_waiting_and_duration_times(
            replies,
        );
        let start_time = match self.creation_time.checked_add(waiting_duration) {
            Some(t) => t,
            None => return true,
        };
        let end_time = match start_time.checked_add(vesting_duration) {
            Some(t) => t,
            None => return true,
        };
        if now >= end_time {
            return self.released <= self.amount;
        }
        if !(start_time < now) {
            return true;
        }
        let elapsed = (now - start_time) as u128;
        let span = (end_time - start_time) as u128;
        let product = match self.amount.checked_mul(elapsed) {
            Some(p) => p,
            None => return true,
        };
        let quotient = product / span;
        !(quotient >= 1 && quotient - 1 < self.released)
    }
}

impl GeneralVestData {
    /// Whether releasing every vest of `to` in `asset` at `now` stays within
    /// arithmetic that does not panic, up to where the release stops.
    pub fn releases_are_defined(
        &self,
        to: AccountId,
        asset: Option<AccountId>,
        now: Timestamp,
        replies: &DurationReplies,
    ) -> (r: bool)
        requires
            self.wf(),
            replies.wf(),
        ensures
            r == release_safe(self.vests(to, asset), 0, 0, now, replies@),
    {
        let n = self._next_id_vest_of(to, asset, &Vec::new());
        let ghost s = self.vests(to, asset);
        let ghost mut g = s;
        let mut i: u32 = 0;
        let mut total: u128 = 0;
        while i < n
            invariant
                self.wf(),
                replies.wf(),
                n == self.next_of(to, asset),
                s == self.vests(to, asset),
                i <= n,
                g.len() == s.len(),
                forall|j: int| i <= j < s.len() ==> g[j] == s[j],
                release_safe(g, i as int, total, now, replies@) == release_safe(s, 0, 0, now, replies@),
            decreases n - i,
        {
            let slot = self.get_schedule_by_id(to, asset, i, &Vec::new());
            let ghost g0 = g;
            let ghost t0 = total;
            match slot {
                None => {
                    assert(release_safe(g0, i as int, t0, now, replies@) == release_safe(
                        g0,
                        i + 1,
                        t0,
                        now,
                        replies@,
                    ));
                },
                Some(v) => {
                    if !v.release_is_defined(now, replies) {
                        return false;
                    }
                    let a = match v.amount_releaseable_rdown(now, replies) {
                        Ok(a) => a,
                        Err(_) => return true,
                    };
                    total = match total.checked_add(a) {
                        Some(t) => t,
                        None => return true,
                    };
                    proof {
                        g = g0.update(i as int, settle(v, now, replies@));
                        assert(release_safe(g0, i as int, t0, now, replies@) == release_safe(
                            g,
                            i + 1,
                            total,
                            now,
                            replies@,
                        ));
                    }
                },
            }
            i = i + 1;
        }
        proof {
            assert(release_safe(g, n as int, total, now, replies@));
        }
        true
    }
}

} // verus!
