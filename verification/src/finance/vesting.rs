use vstd::prelude::*;

use crate::math::lemma_floor_div_bounds;
use crate::storage_map::StorageMap;
use crate::token::psp22::psp22_error::PSP22Error;
use crate::types::{AccountId, Balance, Timestamp};

verus! {

/// The four bytes that select a message of another contract.
pub type SelectorBytes = [u8; 4];

/// Errors of vesting operations.
#[derive(Debug, PartialEq, Eq)]
pub enum VestingError {
    PSP22Error(PSP22Error),
    InvalidScheduleKey,
    NativeTransferFailed,
    InvalidAmountPaid,
    CouldNotResolveTimeConstraint,
}

/// A point in time: given, or asked of another contract through the message
/// with the given selector.
#[derive(Debug, Clone, Copy)]
pub enum VestingTimeConstraint {
    Default(Timestamp),
    External(AccountId, SelectorBytes),
}

/// Emitted when vested tokens are released.
#[derive(Debug, Clone, Copy)]
pub struct TokenReleased {
    pub caller: AccountId,
    pub to: AccountId,
    pub asset: Option<AccountId>,
    pub amount: Balance,
}

/// Emitted when a vest is created.
#[derive(Debug, Clone, Copy)]
pub struct VestingScheduled {
    pub creator: AccountId,
    pub asset: Option<AccountId>,
    pub receiver: AccountId,
    pub amount: Balance,
    pub vesting_start: Timestamp,
    pub vesting_end: Timestamp,
}

/// The answers of the contracts asked for a point in time: for each
/// (contract, selector) that answered, the timestamp it gave.
pub type TimeReplies = StorageMap<(AccountId, SelectorBytes), Timestamp>;

/// The point in time a constraint stands for, `None` when the contract asked
/// did not answer.
pub open spec fn resolve(
    c: VestingTimeConstraint,
    replies: Map<(AccountId, SelectorBytes), Timestamp>,
) -> Option<Timestamp> {
    match c {
        VestingTimeConstraint::Default(t) => Some(t),
        VestingTimeConstraint::External(a, sel) => if replies.contains_key((a, sel)) {
            Some(replies[(a, sel)])
        } else {
            None
        },
    }
}

/// A vest between two points in time, with the amount vested and the amount
/// already released.
#[derive(Debug, Clone, Copy)]
pub struct VestingSchedule {
    pub start: VestingTimeConstraint,
    pub end: VestingTimeConstraint,
    pub amount: Balance,
    pub released: Balance,
}

/// The linear part of the vest at `now`: `amount * (now - start) / (end -
/// start)`.
pub open spec fn schedule_vested(v: VestingSchedule, now: Timestamp, start: Timestamp, end: Timestamp) -> int {
    (v.amount * (now - start)) / (end - start)
}

/// What the vest can release at `now` (rounding down), `None` when a point
/// in time cannot be resolved: all that is left once it is over, nothing
/// before it starts or when it starts and ends at once, and in between the
/// linear part minus one, minus what was already released.
pub open spec fn schedule_releasable(
    v: VestingSchedule,
    now: Timestamp,
    replies: Map<(AccountId, SelectorBytes), Timestamp>,
) -> Option<u128> {
    match (resolve(v.start, replies), resolve(v.end, replies)) {
        (Some(start), Some(end)) => if now >= end {
            Some((v.amount - v.released) as u128)
        } else if now < start || start == end {
            Some(0u128)
        } else {
            Some((schedule_vested(v, now, start, end) - 1 - v.released) as u128)
        },
        _ => None,
    }
}

/// The inputs on which the computation of the release overflows or
/// subtracts below zero, where the contract panics.
pub open spec fn schedule_panics(
    v: VestingSchedule,
    now: Timestamp,
    replies: Map<(AccountId, SelectorBytes), Timestamp>,
) -> bool {
    match (resolve(v.start, replies), resolve(v.end, replies)) {
        (Some(start), Some(end)) => if now >= end {
            v.released > v.amount
        } else if now < start || start == end {
            false
        } else {
            ||| v.amount * (now - start) > u128::MAX
            ||| schedule_vested(v, now, start, end) < 1
            ||| schedule_vested(v, now, start, end) - 1 < v.released
        },
        _ => false,
    }
}

/// Law: what a vest releases at `now`. Once over, all that is left;
/// before it starts, or when it starts and ends at once, nothing; strictly
/// between start and end, what was released plus what it releases is the
/// linear part minus one, where the linear part is the largest `q` with
/// `q * (end - start) <= amount * (now - start)`: the amount is multiplied by
/// the time elapsed before the span divides it.
pub proof fn law_schedule_release_is_linear(
    v: VestingSchedule,
    now: Timestamp,
    replies: Map<(AccountId, SelectorBytes), Timestamp>,
    start: Timestamp,
    end: Timestamp,
)
    requires
        resolve(v.start, replies) == Some(start),
        resolve(v.end, replies) == Some(end),
        !schedule_panics(v, now, replies),
    ensures
        now >= end ==> v.released <= v.amount && schedule_releasable(v, now, replies) == Some(
            (v.amount - v.released) as u128,
        ),
        now < end && (now < start || start == end) ==> schedule_releasable(v, now, replies) == Some(
            0u128,
        ),
        start < now < end ==> (schedule_releasable(v, now, replies) matches Some(a) && ({
            let q = v.released + a + 1;
            &&& q * (end - start) <= v.amount * (now - start)
            &&& v.amount * (now - start) < (q + 1) * (end - start)
        })),
{
    if start < now < end {
        let p = v.amount * (now - start);
        assert(p >= 0) by (nonlinear_arith)
            requires
                v.amount >= 0,
                now - start > 0,
                p == v.amount * (now - start),
        ;
        lemma_floor_div_bounds(p, end - start);
    }
}

impl VestingSchedule {
    /// The point in time `constraint` stands for; for an external one, the
    /// answer of the contract asked (`replies`).
    pub fn _extract_timestamp_from_constraint(
        &self,
        constraint: &VestingTimeConstraint,
        replies: &TimeReplies,
    ) -> (r: Result<Timestamp, VestingError>)
        requires
            replies.wf(),
        ensures
            resolve(*constraint, replies@) matches Some(t) ==> r == Ok::<Timestamp, VestingError>(t),
            resolve(*constraint, replies@) is None ==> r == Err::<Timestamp, VestingError>(
                VestingError::CouldNotResolveTimeConstraint,
            ),
    {
        match *constraint {
            VestingTimeConstraint::Default(timestamp) => Ok(timestamp),
            VestingTimeConstraint::External(account_id, selector_bytes) => {
                match replies.get(&(account_id, selector_bytes)) {
                    Some(timestamp) => Ok(timestamp),
                    None => Err(VestingError::CouldNotResolveTimeConstraint),
                }
            },
        }
    }

    /// Whether the vest is over at `now`.
    pub fn is_overdue(&self, now: Timestamp, replies: &TimeReplies) -> (r: Result<bool, VestingError>)
        requires
            replies.wf(),
        ensures
            resolve(self.end, replies@) matches Some(end) ==> r == Ok::<bool, VestingError>(now >= end),
            resolve(self.end, replies@) is None ==> r == Err::<bool, VestingError>(
                VestingError::CouldNotResolveTimeConstraint,
            ),
    {
        let end_time = self._extract_timestamp_from_constraint(&self.end, replies)?;
        Ok(now >= end_time)
    }

    /// What the vest can release at `now`.
    pub fn amount_releaseable_rdown(&self, now: Timestamp, replies: &TimeReplies) -> (r: Result<
        Balance,
        VestingError,
    >)
        requires
            replies.wf(),
            !schedule_panics(*self, now, replies@),
        ensures
            schedule_releasable(*self, now, replies@) matches Some(a) ==> r == Ok::<
                Balance,
                VestingError,
            >(a),
            schedule_releasable(*self, now, replies@) is None ==> r == Err::<Balance, VestingError>(
                VestingError::CouldNotResolveTimeConstraint,
            ),
    {
        let start_time = self._extract_timestamp_from_constraint(&self.start, replies)?;
        let end_time = self._extract_timestamp_from_constraint(&self.end, replies)?;
        let is_overdue = self.is_overdue(now, replies)?;
        if is_overdue {
            return Ok(self.amount - self.released);
        }
        if now < start_time || start_time == end_time {
            return Ok(0);
        }
        let total_to_release = self.amount * ((now - start_time) as u128) / ((end_time - start_time) as u128) - 1;
        let amount_releaseable = total_to_release - self.released;
        Ok(amount_releaseable)
    }

    /// Marks what the vest can release at `now` as released and returns it.
    pub fn collect_releasable_rdown(&mut self, now: Timestamp, replies: &TimeReplies) -> (r: Result<
        Balance,
        VestingError,
    >)
        requires
            replies.wf(),
            !schedule_panics(*old(self), now, replies@),
        ensures
            schedule_releasable(*old(self), now, replies@) matches Some(a) ==> r == Ok::<
                Balance,
                VestingError,
            >(a) && *final(self) == (VestingSchedule {
                released: (old(self).released + a) as u128,
                ..*old(self)
            }),
            schedule_releasable(*old(self), now, replies@) is None ==> r == Err::<
                Balance,
                VestingError,
            >(VestingError::CouldNotResolveTimeConstraint) && *final(self) == *old(self),
    {
        let amount_releaseable = self.amount_releaseable_rdown(now, replies)?;
        self.released = self.released + amount_releaseable;
        Ok(amount_releaseable)
    }
}

} // verus!
