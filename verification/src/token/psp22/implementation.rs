use vstd::prelude::*;

use crate::math::MathError;
use crate::storage_map::{
    lemma_insert_sum, lemma_map_two_values_le_sum, lemma_map_value_le_sum, sum_values,
    StorageMap,
};
use crate::token::psp22::psp22_error::{fails_with_math, PSP22Error};
use crate::token::psp22::psp22_events::{Approval, Transfer};
use crate::types::{AccountId, Balance};

verus! {

/// The amount stored under `k`, zero when nothing is stored.
pub open spec fn amount_in<K>(m: Map<K, u128>, k: K) -> u128 {
    if m.contains_key(k) {
        m[k]
    } else {
        0
    }
}

/// The storage of a PSP22 token: the total supply, the balances and the
/// allowances.
pub struct PSP22Data {
    pub total_supply: Balance,
    pub balances: StorageMap<AccountId, Balance>,
    pub allowances: StorageMap<(AccountId, AccountId), Balance>,
}

impl PSP22Data {
    /// Both maps are well formed.
    pub open spec fn wf(&self) -> bool {
        self.balances.wf() && self.allowances.wf()
    }

    /// The balance of `a`.
    pub open spec fn balance(&self, a: AccountId) -> u128 {
        amount_in(self.balances@, a)
    }

    /// What `spender` may still take from `owner`.
    pub open spec fn allowance_of(&self, owner: AccountId, spender: AccountId) -> u128 {
        amount_in(self.allowances@, (owner, spender))
    }

    /// The sum of all balances.
    pub open spec fn balances_sum(&self) -> int {
        sum_values(self.balances.entries())
    }

    /// The total supply equals the sum of all balances.
    pub open spec fn supply_consistent(&self) -> bool {
        self.total_supply == self.balances_sum()
    }

    /// An empty token: no supply, no balances, no allowances.
    pub fn new() -> (d: Self)
        ensures
            d.wf(),
            d.total_supply == 0,
            d.balances@ == Map::<AccountId, u128>::empty(),
            d.allowances@ == Map::<(AccountId, AccountId), u128>::empty(),
            d.supply_consistent(),
    {
        PSP22Data { total_supply: 0, balances: StorageMap::new(), allowances: StorageMap::new() }
    }

    /// Returns the total supply of tokens.
    pub fn total_supply(&self) -> (r: Balance)
        ensures
            r == self.total_supply,
    {
        self.total_supply
    }

    /// Increases the total supply of tokens by `amount`.
    pub fn increase_total_supply(&mut self, amount: &Balance) -> (r: Result<(), PSP22Error>)
        ensures
            old(self).total_supply + *amount <= u128::MAX ==> r is Ok && final(self).total_supply
                == old(self).total_supply + *amount,
            old(self).total_supply + *amount > u128::MAX ==> fails_with_math(r, MathError::Overflow) && final(self).total_supply == old(self).total_supply,
            final(self).balances == old(self).balances,
            final(self).allowances == old(self).allowances,
    {
        match self.total_supply.checked_add(*amount) {
            Some(v) => {
                self.total_supply = v;
                Ok(())
            },
            None => Err(PSP22Error::from_math_error(MathError::Overflow)),
        }
    }

    /// Decreases the total supply of tokens by `amount`.
    pub fn decrease_total_supply(&mut self, amount: &Balance) -> (r: Result<(), PSP22Error>)
        ensures
            *amount <= old(self).total_supply ==> r is Ok && final(self).total_supply == old(self).total_supply - *amount,
            *amount > old(self).total_supply ==> fails_with_math(r, MathError::Underflow) && final(self).total_supply == old(self).total_supply,
            final(self).balances == old(self).balances,
            final(self).allowances == old(self).allowances,
    {
        match self.total_supply.checked_sub(*amount) {
            Some(v) => {
                self.total_supply = v;
                Ok(())
            },
            None => Err(PSP22Error::from_math_error(MathError::Underflow)),
        }
    }

    /// Returns the balance of `account` (zero if it never held tokens).
    pub fn balance_of(&self, account: &AccountId) -> (r: Balance)
        requires
            self.wf(),
        ensures
            r == self.balance(*account),
    {
        match self.balances.get(account) {
            Some(v) => v,
            None => 0,
        }
    }

    /// Increases the balance of `account` by `amount`.
    pub fn increase_balance_of(&mut self, account: &AccountId, amount: &Balance) -> (r: Result<
        (),
        PSP22Error,
    >)
        requires
            old(self).wf(),
        ensures
            final(self).wf(),
            final(self).total_supply == old(self).total_supply,
            final(self).allowances == old(self).allowances,
            old(self).balance(*account) + *amount <= u128::MAX ==> r is Ok && final(self).balances@
                == old(self).balances@.insert(
                *account,
                (old(self).balance(*account) + *amount) as u128,
            ) && final(self).balances_sum() == old(self).balances_sum() + *amount,
            old(self).balance(*account) + *amount > u128::MAX ==> fails_with_math(r, MathError::Overflow) && final(self).balances == old(self).balances,
    {
        let current = self.balance_of(account);
        match current.checked_add(*amount) {
            Some(v) => {
                let ghost s0 = self.balances.entries();
                self.balances.insert(*account, v);
                proof {
                    lemma_insert_sum(s0, self.balances.entries(), *account, v);
                }
                Ok(())
            },
            None => Err(PSP22Error::from_math_error(MathError::Overflow)),
        }
    }

    /// Decreases the balance of `account` by `amount`.
    pub fn decrease_balance_of(&mut self, account: &AccountId, amount: &Balance) -> (r: Result<
        (),
        PSP22Error,
    >)
        requires
            old(self).wf(),
        ensures
            final(self).wf(),
            final(self).total_supply == old(self).total_supply,
            final(self).allowances == old(self).allowances,
            *amount <= old(self).balance(*account) ==> r is Ok && final(self).balances@ == old(self).balances@.insert(*account, (old(self).balance(*account) - *amount) as u128) && final(self).balances_sum() == old(self).balances_sum() - *amount,
            *amount > old(self).balance(*account) ==> r == Err::<(), PSP22Error>(
                PSP22Error::InsufficientBalance,
            ) && final(self).balances == old(self).balances,
    {
        let current = self.balance_of(account);
        match current.checked_sub(*amount) {
            Some(v) => {
                let ghost s0 = self.balances.entries();
                self.balances.insert(*account, v);
                proof {
                    lemma_insert_sum(s0, self.balances.entries(), *account, v);
                }
                Ok(())
            },
            None => Err(PSP22Error::InsufficientBalance),
        }
    }

    /// Returns what `spender` may still take from `owner`.
    pub fn allowance(&self, owner: &AccountId, spender: &AccountId) -> (r: Balance)
        requires
            self.wf(),
        ensures
            r == self.allowance_of(*owner, *spender),
    {
        match self.allowances.get(&(*owner, *spender)) {
            Some(v) => v,
            None => 0,
        }
    }

    /// Sets what `spender` may take from `owner` to `value`.
    pub fn set_allowance(&mut self, owner: &AccountId, spender: &AccountId, value: &Balance)
        requires
            old(self).wf(),
        ensures
            final(self).wf(),
            final(self).allowances@ == old(self).allowances@.insert((*owner, *spender), *value),
            final(self).total_supply == old(self).total_supply,
            final(self).balances == old(self).balances,
    {
        self.allowances.insert((*owner, *spender), *value);
    }

    /// Increases what `spender` may take from `owner` by `amount`; returns the
    /// new allowance.
    pub fn increase_allowance(
        &mut self,
        owner: &AccountId,
        spender: &AccountId,
        amount: &Balance,
    ) -> (r: Result<Balance, PSP22Error>)
        requires
            old(self).wf(),
        ensures
            final(self).wf(),
            final(self).total_supply == old(self).total_supply,
            final(self).balances == old(self).balances,
            old(self).allowance_of(*owner, *spender) + *amount <= u128::MAX ==> r == Ok::<
                Balance,
                PSP22Error,
            >((old(self).allowance_of(*owner, *spender) + *amount) as u128) && final(self).allowances@ == old(self).allowances@.insert(
                (*owner, *spender),
                (old(self).allowance_of(*owner, *spender) + *amount) as u128,
            ),
            old(self).allowance_of(*owner, *spender) + *amount > u128::MAX ==> fails_with_math(r, MathError::Overflow) && final(self).allowances == old(self).allowances,
    {
        let current = self.allowance(owner, spender);
        match current.checked_add(*amount) {
            Some(v) => {
                self.allowances.insert((*owner, *spender), v);
                Ok(v)
            },
            None => Err(PSP22Error::from_math_error(MathError::Overflow)),
        }
    }

    /// Decreases what `spender` may take from `owner` by `amount`; returns the
    /// new allowance.
    pub fn decrease_allowance(
        &mut self,
        owner: &AccountId,
        spender: &AccountId,
        amount: &Balance,
    ) -> (r: Result<Balance, PSP22Error>)
        requires
            old(self).wf(),
        ensures
            final(self).wf(),
            final(self).total_supply == old(self).total_supply,
            final(self).balances == old(self).balances,
            *amount <= old(self).allowance_of(*owner, *spender) ==> r == Ok::<Balance, PSP22Error>(
                (old(self).allowance_of(*owner, *spender) - *amount) as u128,
            ) && final(self).allowances@ == old(self).allowances@.insert(
                (*owner, *spender),
                (old(self).allowance_of(*owner, *spender) - *amount) as u128,
            ),
            *amount > old(self).allowance_of(*owner, *spender) ==> r == Err::<Balance, PSP22Error>(
                PSP22Error::InsufficientAllowance,
            ) && final(self).allowances == old(self).allowances,
    {
        let current = self.allowance(owner, spender);
        match current.checked_sub(*amount) {
            Some(v) => {
                self.allowances.insert((*owner, *spender), v);
                Ok(v)
            },
            None => Err(PSP22Error::InsufficientAllowance),
        }
    }
}


/// `amount` can leave `from` (or, for `None`, be created without overflowing
/// the supply).
pub open spec fn debit_ok(pre: PSP22Data, from: Option<AccountId>, amount: u128) -> bool {
    match from {
        Some(f) => amount <= pre.balance(f),
        None => pre.total_supply + amount <= u128::MAX,
    }
}

/// The balances once `amount` has left `from`.
pub open spec fn debited_balances(pre: PSP22Data, from: Option<AccountId>, amount: u128) -> Map<
    AccountId,
    u128,
> {
    match from {
        Some(f) => pre.balances@.insert(f, (pre.balance(f) - amount) as u128),
        None => pre.balances@,
    }
}

/// The supply once `amount` has left `from` (grown by it when minting).
pub open spec fn debited_supply(pre: PSP22Data, from: Option<AccountId>, amount: u128) -> int {
    match from {
        Some(_) => pre.total_supply as int,
        None => pre.total_supply + amount,
    }
}

/// `amount` can reach `to` (or, for `None`, be taken off the supply).
pub open spec fn credit_ok(
    balances: Map<AccountId, u128>,
    supply: int,
    to: Option<AccountId>,
    amount: u128,
) -> bool {
    match to {
        Some(t) => amount_in(balances, t) + amount <= u128::MAX,
        None => amount <= supply,
    }
}

/// The balances once `amount` has reached `to`.
pub open spec fn credited_balances(balances: Map<AccountId, u128>, to: Option<AccountId>, amount: u128) -> Map<
    AccountId,
    u128,
> {
    match to {
        Some(t) => balances.insert(t, (amount_in(balances, t) + amount) as u128),
        None => balances,
    }
}

/// The supply once `amount` has reached `to` (shrunk by it when burning).
pub open spec fn credited_supply(supply: int, to: Option<AccountId>, amount: u128) -> int {
    match to {
        Some(_) => supply,
        None => supply - amount,
    }
}

/// What `_update(from, to, amount)` does, from `pre` to `post` with result `r`:
/// it first takes `amount` from `from` (creates it for `None`), then gives it
/// to `to` (destroys it for `None`), and stops at the first step that fails.
pub open spec fn update_post(
    pre: PSP22Data,
    post: PSP22Data,
    from: Option<AccountId>,
    to: Option<AccountId>,
    amount: u128,
    r: Result<Transfer, PSP22Error>,
) -> bool {
    let mid_balances = debited_balances(pre, from, amount);
    let mid_supply = debited_supply(pre, from, amount);
    &&& post.wf()
    &&& post.allowances == pre.allowances
    &&& !debit_ok(pre, from, amount) ==> {
        &&& post.balances == pre.balances
        &&& post.total_supply == pre.total_supply
        &&& (from is Some ==> r == Err::<Transfer, PSP22Error>(PSP22Error::InsufficientBalance))
        &&& (from is None ==> fails_with_math(r, MathError::Overflow))
    }
    &&& debit_ok(pre, from, amount) && !credit_ok(mid_balances, mid_supply, to, amount) ==> {
        &&& post.balances@ == mid_balances
        &&& post.total_supply == mid_supply
        &&& (to is Some ==> fails_with_math(r, MathError::Overflow))
        &&& (to is None ==> fails_with_math(r, MathError::Underflow))
    }
    &&& debit_ok(pre, from, amount) && credit_ok(mid_balances, mid_supply, to, amount) ==> {
        &&& post.balances@ == credited_balances(mid_balances, to, amount)
        &&& post.total_supply == credited_supply(mid_supply, to, amount)
        &&& r == Ok::<Transfer, PSP22Error>(Transfer { from, to, value: amount })
    }
    &&& pre.supply_consistent() ==> {
        &&& post.supply_consistent()
        &&& (r is Err ==> post == pre)
    }
}

impl PSP22Data {
    /// Moves `amount` from `from` to `to`; `None` as `from` mints, `None` as
    /// `to` burns. Returns the `Transfer` event to emit.
    pub fn _update(&mut self, from: Option<AccountId>, to: Option<AccountId>, amount: &Balance) -> (r:
        Result<Transfer, PSP22Error>)
        requires
            old(self).wf(),
        ensures
            update_post(*old(self), *final(self), from, to, *amount, r),
    {
        let ghost pre = *self;
        match from {
            Some(f) => {
                self.decrease_balance_of(&f, amount)?;
            },
            None => {
                self.increase_total_supply(amount)?;
            },
        }
        let ghost mid = *self;
        proof {
            if pre.supply_consistent() {
                match to {
                    Some(t) => {
                        match from {
                            Some(f) => {
                                if t != f && pre.balances@.contains_key(t) && pre.balances@.contains_key(f) {
                                    lemma_map_two_values_le_sum(pre.balances.entries(), f, t);
                                }
                                if pre.balances@.contains_key(t) {
                                    lemma_map_value_le_sum(pre.balances.entries(), t);
                                }
                            },
                            None => {
                                if pre.balances@.contains_key(t) {
                                    lemma_map_value_le_sum(pre.balances.entries(), t);
                                }
                            },
                        }
                    },
                    None => {
                        match from {
                            Some(f) => {
                                if pre.balances@.contains_key(f) {
                                    lemma_map_value_le_sum(pre.balances.entries(), f);
                                }
                            },
                            None => {},
                        }
                    },
                }
            }
        }
        match to {
            Some(t) => {
                self.increase_balance_of(&t, amount)?;
            },
            None => {
                self.decrease_total_supply(amount)?;
            },
        }
        Ok(Transfer { from, to, value: *amount })
    }
}


impl PSP22Data {
    /// Transfers `amount` from `from` to `to`.
    pub fn _transfer(&mut self, from: &AccountId, to: &AccountId, amount: &Balance) -> (r: Result<
        Transfer,
        PSP22Error,
    >)
        requires
            old(self).wf(),
        ensures
            update_post(*old(self), *final(self), Some(*from), Some(*to), *amount, r),
    {
        self._update(Some(*from), Some(*to), amount)
    }

    /// Mints `amount` to `to`.
    pub fn _mint_to(&mut self, to: &AccountId, amount: &Balance) -> (r: Result<Transfer, PSP22Error>)
        requires
            old(self).wf(),
        ensures
            update_post(*old(self), *final(self), None, Some(*to), *amount, r),
    {
        self._update(None, Some(*to), amount)
    }

    /// Burns `amount` from `from`.
    pub fn _burn_from(&mut self, from: &AccountId, amount: &Balance) -> (r: Result<
        Transfer,
        PSP22Error,
    >)
        requires
            old(self).wf(),
        ensures
            update_post(*old(self), *final(self), Some(*from), None, *amount, r),
    {
        self._update(Some(*from), None, amount)
    }

    /// Sets the allowance of `spender` over the tokens of `owner` to `amount`.
    pub fn _approve(&mut self, owner: &AccountId, spender: &AccountId, amount: &Balance) -> (r:
        Result<Approval, PSP22Error>)
        requires
            old(self).wf(),
        ensures
            final(self).wf(),
            final(self).allowances@ == old(self).allowances@.insert((*owner, *spender), *amount),
            final(self).total_supply == old(self).total_supply,
            final(self).balances == old(self).balances,
            r == Ok::<Approval, PSP22Error>(
                Approval { owner: *owner, spender: *spender, value: *amount },
            ),
    {
        self.set_allowance(owner, spender, amount);
        Ok(Approval { owner: *owner, spender: *spender, value: *amount })
    }

    /// Decreases the allowance of `spender` over the tokens of `owner` by
    /// `amount`.
    pub fn _decrease_allowance_from_to(
        &mut self,
        owner: &AccountId,
        spender: &AccountId,
        amount: &Balance,
    ) -> (r: Result<Approval, PSP22Error>)
        requires
            old(self).wf(),
        ensures
            final(self).wf(),
            final(self).total_supply == old(self).total_supply,
            final(self).balances == old(self).balances,
            *amount <= old(self).allowance_of(*owner, *spender) ==> {
                let v = (old(self).allowance_of(*owner, *spender) - *amount) as u128;
                &&& final(self).allowances@ == old(self).allowances@.insert((*owner, *spender), v)
                &&& r == Ok::<Approval, PSP22Error>(
                    Approval { owner: *owner, spender: *spender, value: v },
                )
            },
            *amount > old(self).allowance_of(*owner, *spender) ==> r == Err::<Approval, PSP22Error>(
                PSP22Error::InsufficientAllowance,
            ) && final(self).allowances == old(self).allowances,
    {
        let new_allowance = self.decrease_allowance(owner, spender, amount)?;
        Ok(Approval { owner: *owner, spender: *spender, value: new_allowance })
    }

    /// Increases the allowance of `spender` over the tokens of `owner` by
    /// `amount`.
    pub fn _increase_allowance_from_to(
        &mut self,
        owner: &AccountId,
        spender: &AccountId,
        amount: &Balance,
    ) -> (r: Result<Approval, PSP22Error>)
        requires
            old(self).wf(),
        ensures
            final(self).wf(),
            final(self).total_supply == old(self).total_supply,
            final(self).balances == old(self).balances,
            old(self).allowance_of(*owner, *spender) + *amount <= u128::MAX ==> {
                let v = (old(self).allowance_of(*owner, *spender) + *amount) as u128;
                &&& final(self).allowances@ == old(self).allowances@.insert((*owner, *spender), v)
                &&& r == Ok::<Approval, PSP22Error>(
                    Approval { owner: *owner, spender: *spender, value: v },
                )
            },
            old(self).allowance_of(*owner, *spender) + *amount > u128::MAX ==> fails_with_math(
                r,
                MathError::Overflow,
            ) && final(self).allowances == old(self).allowances,
    {
        let new_allowance = self.increase_allowance(owner, spender, amount)?;
        Ok(Approval { owner: *owner, spender: *spender, value: new_allowance })
    }

    /// The `transfer` message: moves `value` from the caller to `to`.
    pub fn transfer_default_impl(
        &mut self,
        caller: AccountId,
        to: AccountId,
        value: Balance,
        _data: Vec<u8>,
    ) -> (r: Result<Transfer, PSP22Error>)
        requires
            old(self).wf(),
        ensures
            update_post(*old(self), *final(self), Some(caller), Some(to), value, r),
    {
        self._update(Some(caller), Some(to), &value)
    }

    /// The `transfer_from` message: the caller spends `value` of its allowance
    /// over `from` to move tokens from `from` to `to`. Returns the `Approval`
    /// and `Transfer` events, in the order they are emitted.
    pub fn transfer_from_default_impl(
        &mut self,
        caller: AccountId,
        from: AccountId,
        to: AccountId,
        value: Balance,
        _data: Vec<u8>,
    ) -> (r: Result<(Approval, Transfer), PSP22Error>)
        requires
            old(self).wf(),
        ensures
            value > old(self).allowance_of(from, caller) ==> r == Err::<
                (Approval, Transfer),
                PSP22Error,
            >(PSP22Error::InsufficientAllowance) && *final(self) == *old(self),
            value <= old(self).allowance_of(from, caller) ==> {
                let left = (old(self).allowance_of(from, caller) - value) as u128;
                let approved = PSP22Data {
                    total_supply: old(self).total_supply,
                    balances: old(self).balances,
                    allowances: final(self).allowances,
                };
                &&& final(self).allowances@ == old(self).allowances@.insert((from, caller), left)
                &&& approved.wf()
                &&& exists|t: Result<Transfer, PSP22Error>|
                    {
                        &&& update_post(approved, *final(self), Some(from), Some(to), value, t)
                        &&& (t matches Ok(ev) ==> r == Ok::<(Approval, Transfer), PSP22Error>(
                            (Approval { owner: from, spender: caller, value: left }, ev),
                        ))
                        &&& (t matches Err(e) ==> r == Err::<(Approval, Transfer), PSP22Error>(e))
                    }
            },
    {
        let approval = self._decrease_allowance_from_to(&from, &caller, &value)?;
        let ghost approved = *self;
        let transfer = self._update(Some(from), Some(to), &value);
        match transfer {
            Ok(ev) => {
                assert(update_post(approved, *self, Some(from), Some(to), value, transfer));
                Ok((approval, ev))
            },
            Err(e) => {
                assert(update_post(approved, *self, Some(from), Some(to), value, transfer));
                Err(e)
            },
        }
    }

    /// The `approve` message: the caller lets `spender` take up to `value`.
    pub fn approve_default_impl(&mut self, caller: AccountId, spender: AccountId, value: Balance) -> (r:
        Result<Approval, PSP22Error>)
        requires
            old(self).wf(),
        ensures
            final(self).wf(),
            final(self).allowances@ == old(self).allowances@.insert((caller, spender), value),
            final(self).total_supply == old(self).total_supply,
            final(self).balances == old(self).balances,
            r == Ok::<Approval, PSP22Error>(Approval { owner: caller, spender, value }),
    {
        self._approve(&caller, &spender, &value)
    }

    /// The `increase_allowance` message: raises what `spender` may take from
    /// the caller by `delta_value`.
    pub fn increase_allowance_default_impl(
        &mut self,
        caller: AccountId,
        spender: AccountId,
        delta_value: Balance,
    ) -> (r: Result<Approval, PSP22Error>)
        requires
            old(self).wf(),
        ensures
            final(self).wf(),
            final(self).total_supply == old(self).total_supply,
            final(self).balances == old(self).balances,
            old(self).allowance_of(caller, spender) + delta_value <= u128::MAX ==> {
                let v = (old(self).allowance_of(caller, spender) + delta_value) as u128;
                &&& final(self).allowances@ == old(self).allowances@.insert((caller, spender), v)
                &&& r == Ok::<Approval, PSP22Error>(Approval { owner: caller, spender, value: v })
            },
            old(self).allowance_of(caller, spender) + delta_value > u128::MAX ==> fails_with_math(
                r,
                MathError::Overflow,
            ) && final(self).allowances == old(self).allowances,
    {
        self._increase_allowance_from_to(&caller, &spender, &delta_value)
    }

    /// The `decrease_allowance` message: lowers what `spender` may take from
    /// the caller by `delta_value`.
    pub fn decrease_allowance_default_impl(
        &mut self,
        caller: AccountId,
        spender: AccountId,
        delta_value: Balance,
    ) -> (r: Result<Approval, PSP22Error>)
        requires
            old(self).wf(),
        ensures
            final(self).wf(),
            final(self).total_supply == old(self).total_supply,
            final(self).balances == old(self).balances,
            delta_value <= old(self).allowance_of(caller, spender) ==> {
                let v = (old(self).allowance_of(caller, spender) - delta_value) as u128;
                &&& final(self).allowances@ == old(self).allowances@.insert((caller, spender), v)
                &&& r == Ok::<Approval, PSP22Error>(Approval { owner: caller, spender, value: v })
            },
            delta_value > old(self).allowance_of(caller, spender) ==> r == Err::<
                Approval,
                PSP22Error,
            >(PSP22Error::InsufficientAllowance) && final(self).allowances == old(self).allowances,
    {
        self._decrease_allowance_from_to(&caller, &spender, &delta_value)
    }

    /// The `mint` message of the mintable extension: mints `amount` to
    /// `account`.
    pub fn mint_default_impl(&mut self, account: AccountId, amount: Balance) -> (r: Result<
        Transfer,
        PSP22Error,
    >)
        requires
            old(self).wf(),
        ensures
            update_post(*old(self), *final(self), None, Some(account), amount, r),
    {
        self._mint_to(&account, &amount)
    }
}


/// Law: every balance update keeps the total supply equal to the sum of all
/// balances, and one that fails leaves the token as it was.
pub proof fn law_update_keeps_supply(
    pre: PSP22Data,
    post: PSP22Data,
    from: Option<AccountId>,
    to: Option<AccountId>,
    amount: u128,
    r: Result<Transfer, PSP22Error>,
)
    requires
        pre.wf(),
        pre.supply_consistent(),
        update_post(pre, post, from, to, amount, r),
    ensures
        post.supply_consistent(),
        r is Err ==> post == pre,
{
}

/// Law: a transfer between two accounts moves exactly `amount` from one to
/// the other, touches no other balance and keeps the total supply.
pub proof fn law_transfer_moves_amount(
    pre: PSP22Data,
    post: PSP22Data,
    from: AccountId,
    to: AccountId,
    amount: u128,
    r: Result<Transfer, PSP22Error>,
)
    requires
        pre.wf(),
        update_post(pre, post, Some(from), Some(to), amount, r),
        r is Ok,
        from != to,
    ensures
        post.total_supply == pre.total_supply,
        post.balance(from) == pre.balance(from) - amount,
        post.balance(to) == pre.balance(to) + amount,
        forall|a: AccountId| a != from && a != to ==> #[trigger] post.balance(a) == pre.balance(a),
{
}

/// Law: a transfer fails with `InsufficientBalance` exactly when the sender
/// holds less than the amount.
pub proof fn law_transfer_needs_balance(
    pre: PSP22Data,
    post: PSP22Data,
    from: AccountId,
    to: AccountId,
    amount: u128,
    r: Result<Transfer, PSP22Error>,
)
    requires
        pre.wf(),
        pre.supply_consistent(),
        update_post(pre, post, Some(from), Some(to), amount, r),
    ensures
        (r == Err::<Transfer, PSP22Error>(PSP22Error::InsufficientBalance)) <==> amount > pre.balance(
            from,
        ),
        r is Ok <==> amount <= pre.balance(from),
{
}

/// Law: minting adds `amount` to the receiver and to the total supply;
/// burning takes it from the holder and from the total supply.
pub proof fn law_mint_and_burn_move_supply(
    pre: PSP22Data,
    minted: PSP22Data,
    burned: PSP22Data,
    account: AccountId,
    amount: u128,
    r1: Result<Transfer, PSP22Error>,
    r2: Result<Transfer, PSP22Error>,
)
    requires
        pre.wf(),
        update_post(pre, minted, None, Some(account), amount, r1),
        update_post(minted, burned, Some(account), None, amount, r2),
        r1 is Ok,
    ensures
        minted.total_supply == pre.total_supply + amount,
        minted.balance(account) == pre.balance(account) + amount,
        r2 is Ok,
        burned.total_supply == pre.total_supply,
        burned.balance(account) == pre.balance(account),
{
}

/// Law: raising an allowance by `delta` and lowering it by `delta` again
/// gives back the allowance it had.
pub proof fn law_allowance_increase_then_decrease(
    pre: PSP22Data,
    mid: PSP22Data,
    post: PSP22Data,
    owner: AccountId,
    spender: AccountId,
    delta: u128,
)
    requires
        pre.allowance_of(owner, spender) + delta <= u128::MAX,
        mid.allowances@ == pre.allowances@.insert(
            (owner, spender),
            (pre.allowance_of(owner, spender) + delta) as u128,
        ),
        post.allowances@ == mid.allowances@.insert(
            (owner, spender),
            (mid.allowance_of(owner, spender) - delta) as u128,
        ),
    ensures
        post.allowance_of(owner, spender) == pre.allowance_of(owner, spender),
{
}

/// Law: after an approval of `value`, the allowance reads `value`, and no
/// other allowance changes.
pub proof fn law_approve_then_allowance(
    pre: PSP22Data,
    post: PSP22Data,
    owner: AccountId,
    spender: AccountId,
    value: u128,
)
    requires
        post.allowances@ == pre.allowances@.insert((owner, spender), value),
    ensures
        post.allowance_of(owner, spender) == value,
        forall|o: AccountId, s: AccountId|
            (o, s) != (owner, spender) ==> #[trigger] post.allowance_of(o, s) == pre.allowance_of(o, s),
{
}

} // verus!
