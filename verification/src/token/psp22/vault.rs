use vstd::prelude::*;

use vstd::arithmetic::div_mod::{lemma_div_is_ordered, lemma_div_multiples_vanish, lemma_fundamental_div_mod};
use vstd::arithmetic::mul::lemma_mul_is_commutative;

use crate::math::{lemma_floor_div_bounds, u256_checked_div, u256_checked_mul, u256_rem, u256_to_u128, MathError};
use crate::token::psp22::implementation::{update_post, PSP22Data};
use crate::token::psp22::psp22_error::{is_math_error, PSP22Error};
use crate::token::psp22::psp22_events::{Approval, Transfer};
use crate::types::{AccountId, Balance};

verus! {

/// Direction in which a division is rounded.
#[derive(Debug, PartialEq, Eq, Structural, Clone, Copy)]
pub enum Rounding {
    Up,
    Down,
}

/// `x * y / denominator` rounded in the direction `round`, computed on 256
/// bits so that the product never overflows.
pub open spec fn mul_div_spec(x: u128, y: u128, denominator: u128, round: Rounding) -> Result<u128, MathError> {
    if denominator == 0 {
        Err(MathError::DivByZero)
    } else if x == 0 || y == 0 {
        Ok(0u128)
    } else {
        let q = (x * y) / (denominator as int);
        let up = round == Rounding::Up && (x * y) % (denominator as int) != 0;
        if q > u128::MAX {
            Err(MathError::Overflow)
        } else if up {
            if q + 1 > u128::MAX { Err(MathError::Overflow) } else { Ok((q + 1) as u128) }
        } else {
            Ok(q as u128)
        }
    }
}

/// Multiplies `x` by `y` and divides by `denominator`, rounding as asked.
pub fn mul_div(x: u128, y: u128, denominator: u128, round: Rounding) -> (r: Result<u128, MathError>)
    ensures
        r == mul_div_spec(x, y, denominator, round),
{
    if denominator == 0 {
        return Err(MathError::DivByZero);
    }
    if x == 0 || y == 0 {
        return Ok(0);
    }
    let (hi, lo) = match u256_checked_mul(x, y) {
        Some(p) => p,
        None => {
            proof {
                assert(false);
            }
            return Err(MathError::Overflow);
        },
    };
    let (qh, ql) = match u256_checked_div(hi, lo, denominator) {
        Some(q) => q,
        None => {
            proof {
                assert(false);
            }
            return Err(MathError::DivByZero);
        },
    };
    let res = match u256_to_u128(qh, ql) {
        Some(v) => v,
        None => {
            return Err(MathError::Overflow);
        },
    };
    let (rh, rl) = u256_rem(hi, lo, denominator);
    if round == Rounding::Up && (rh != 0 || rl != 0) {
        match res.checked_add(1) {
            Some(v) => Ok(v),
            None => Err(MathError::Overflow),
        }
    } else {
        Ok(res)
    }
}


/// `10^n`.
pub open spec fn pow10(n: nat) -> nat
    decreases n,
{
    if n == 0 {
        1
    } else {
        10 * pow10((n - 1) as nat)
    }
}

/// `10^n` grows with `n`.
pub proof fn lemma_pow10_monotone(a: nat, b: nat)
    requires
        a <= b,
    ensures
        1 <= pow10(a) <= pow10(b),
    decreases b,
{
    if b > a {
        lemma_pow10_monotone(a, (b - 1) as nat);
    } else if a > 0 {
        lemma_pow10_monotone((a - 1) as nat, (a - 1) as nat);
    }
}

/// `10^38`, the largest power of ten below `u128::MAX`.
pub proof fn lemma_pow10_38()
    ensures
        pow10(38) == 100_000_000_000_000_000_000_000_000_000_000_000_000,
{
    reveal_with_fuel(pow10, 39);
}

/// `10^exp` as a `u128`.
pub fn pow10_u128(exp: u8) -> (r: u128)
    requires
        exp <= 38,
    ensures
        r == pow10(exp as nat),
{
    let mut r: u128 = 1;
    let mut i: u8 = 0;
    while i < exp
        invariant
            i <= exp <= 38,
            r == pow10(i as nat),
        decreases exp - i,
    {
        proof {
            lemma_pow10_monotone((i + 1) as nat, 38);
            lemma_pow10_38();
        }
        r = r * 10;
        i = i + 1;
    }
    r
}

/// Emitted when assets are deposited into the vault.
#[derive(Debug, Clone, Copy)]
pub struct Deposit {
    pub sender: AccountId,
    pub owner: AccountId,
    pub assets: Balance,
    pub shares: Balance,
}

/// Emitted when assets are withdrawn from the vault.
#[derive(Debug, Clone, Copy)]
pub struct Withdraw {
    pub sender: AccountId,
    pub receiver: AccountId,
    pub owner: AccountId,
    pub assets: Balance,
    pub shares: Balance,
}

/// Shares worth `assets`, given `total_shares` shares and `total_assets`
/// assets in the vault and a decimals offset `offset`: `assets * (total_shares
/// + 10^offset) / (total_assets + 1)`, rounded as asked.
pub open spec fn convert_to_shares_spec(
    total_shares: u128,
    total_assets: u128,
    offset: u8,
    assets: u128,
    round: Rounding,
) -> Result<u128, MathError> {
    if total_shares + pow10(offset as nat) > u128::MAX {
        Err(MathError::Overflow)
    } else if total_assets + 1 > u128::MAX {
        Err(MathError::Overflow)
    } else {
        mul_div_spec(
            assets,
            (total_shares + pow10(offset as nat)) as u128,
            (total_assets + 1) as u128,
            round,
        )
    }
}

/// Assets worth `shares`: `shares * (total_assets + 1) / (total_shares +
/// 10^offset)`, rounded as asked.
pub open spec fn convert_to_assets_spec(
    total_shares: u128,
    total_assets: u128,
    offset: u8,
    shares: u128,
    round: Rounding,
) -> Result<u128, MathError> {
    if total_assets + 1 > u128::MAX {
        Err(MathError::Overflow)
    } else if total_shares + pow10(offset as nat) > u128::MAX {
        Err(MathError::Overflow)
    } else {
        mul_div_spec(
            shares,
            (total_assets + 1) as u128,
            (total_shares + pow10(offset as nat)) as u128,
            round,
        )
    }
}

/// The most assets the holder of `shares` may withdraw: their worth rounded
/// down, or `u128::MAX` (no limit) where that conversion overflows.
pub open spec fn max_withdraw_spec(total_shares: u128, total_assets: u128, offset: u8, shares: u128) -> u128 {
    match convert_to_assets_spec(total_shares, total_assets, offset, shares, Rounding::Down) {
        Ok(x) => x,
        Err(_) => u128::MAX,
    }
}

/// The refusal of an amount above the vault's limit.
pub open spec fn is_max_error<T>(r: Result<T, PSP22Error>) -> bool {
    r matches Err(e) && e matches PSP22Error::Custom(s) && s@ == "Vault: Max"@
}

/// `r` is what the `?` operator turns `m` into: the same value, or the PSP22
/// error of the same arithmetic error.
pub open spec fn carries<T>(r: Result<T, PSP22Error>, m: Result<T, MathError>) -> bool {
    match m {
        Ok(v) => r == Ok::<T, PSP22Error>(v),
        Err(e) => r matches Err(pe) && is_math_error(pe, e),
    }
}

/// The storage of a PSP22 vault: the underlying asset, its decimals and the
/// decimals offset of the shares.
pub struct PSP22VaultData {
    pub asset: AccountId,
    pub underlying_decimals: u8,
    pub decimals_offset: u8,
}

impl PSP22VaultData {
    /// The offset keeps `10^offset` within `u128`.
    pub open spec fn wf(&self) -> bool {
        self.decimals_offset <= 38
    }

    /// A vault over `asset` whose shares have the decimals of the asset.
    pub fn new(asset: AccountId, underlying_decimals: u8) -> (v: Self)
        ensures
            v.wf(),
            v.asset == asset,
            v.underlying_decimals == underlying_decimals,
            v.decimals_offset == 0,
    {
        PSP22VaultData { asset, underlying_decimals, decimals_offset: 0 }
    }

    /// The underlying asset.
    pub fn asset(&self) -> (r: AccountId)
        ensures
            r == self.asset,
    {
        self.asset
    }

    /// The decimals of the underlying asset.
    pub fn underlying_decimals(&self) -> (r: u8)
        ensures
            r == self.underlying_decimals,
    {
        self.underlying_decimals
    }

    /// The offset between the decimals of the shares and of the asset.
    pub fn _decimals_offset(&self) -> (r: u8)
        ensures
            r == self.decimals_offset,
    {
        self.decimals_offset
    }

    /// The decimals of the shares: those of the asset plus the offset. The
    /// contract panics with "overflow" past 255, which `requires` leaves out.
    pub fn token_decimals(&self) -> (r: u8)
        requires
            self.underlying_decimals + self.decimals_offset <= u8::MAX,
        ensures
            r == self.underlying_decimals + self.decimals_offset,
    {
        self.underlying_decimals + self.decimals_offset
    }

    /// Reads the reply of the asset's `PSP22Metadata::token_decimals`: `(true,
    /// d)` when the call answered `d`, `(false, 0)` when it failed.
    pub fn _try_get_asset_decimals(reply: Option<u8>) -> (r: (bool, u8))
        ensures
            r == (match reply {
                Some(d) => (true, d),
                None => (false, 0u8),
            }),
    {
        match reply {
            Some(d) => (true, d),
            None => (false, 0),
        }
    }

    /// Shares worth `assets`, with `total_shares` shares issued and
    /// `total_assets` assets held.
    pub fn _convert_to_shares(
        &self,
        total_shares: Balance,
        total_assets: Balance,
        assets: &Balance,
        round: Rounding,
    ) -> (r: Result<Balance, MathError>)
        requires
            self.wf(),
        ensures
            r == convert_to_shares_spec(total_shares, total_assets, self.decimals_offset, *assets, round),
    {
        let offset = pow10_u128(self.decimals_offset);
        let shares_side = match total_shares.checked_add(offset) {
            Some(v) => v,
            None => return Err(MathError::Overflow),
        };
        let assets_side = match total_assets.checked_add(1) {
            Some(v) => v,
            None => return Err(MathError::Overflow),
        };
        mul_div(*assets, shares_side, assets_side, round)
    }

    /// Assets worth `shares`, with `total_shares` shares issued and
    /// `total_assets` assets held.
    pub fn _convert_to_assets(
        &self,
        total_shares: Balance,
        total_assets: Balance,
        shares: &Balance,
        round: Rounding,
    ) -> (r: Result<Balance, MathError>)
        requires
            self.wf(),
        ensures
            r == convert_to_assets_spec(total_shares, total_assets, self.decimals_offset, *shares, round),
    {
        let offset = pow10_u128(self.decimals_offset);
        let assets_side = match total_assets.checked_add(1) {
            Some(v) => v,
            None => return Err(MathError::Overflow),
        };
        let shares_side = match total_shares.checked_add(offset) {
            Some(v) => v,
            None => return Err(MathError::Overflow),
        };
        mul_div(*shares, assets_side, shares_side, round)
    }
}


/// The `?` operator on an arithmetic result inside a PSP22 operation.
fn lift_math(m: Result<Balance, MathError>) -> (r: Result<Balance, PSP22Error>)
    ensures
        carries(r, m),
{
    match m {
        Ok(v) => Ok(v),
        Err(e) => Err(PSP22Error::from_math_error(e)),
    }
}

/// The error for an amount above the vault's limit.
fn max_error() -> (e: PSP22Error)
    ensures
        is_max_error(Err::<(), PSP22Error>(e)),
{
    PSP22Error::Custom("Vault: Max".to_owned())
}

impl PSP22VaultData {
    /// The most assets `to` may deposit: no limit.
    pub fn _max_deposit(&self, _to: &AccountId) -> (r: Balance)
        ensures
            r == u128::MAX,
    {
        u128::MAX
    }

    /// The most shares `to` may mint: no limit.
    pub fn _max_mint(&self, _to: &AccountId) -> (r: Balance)
        ensures
            r == u128::MAX,
    {
        u128::MAX
    }

    /// The most assets `owner` may withdraw: its shares, converted rounding
    /// down. This never fails: where the conversion overflows, there is no
    /// limit to report and the result is `Balance::MAX`, as for a deposit.
    pub fn _max_withdraw(&self, token: &PSP22Data, total_assets: Balance, owner: &AccountId) -> (r:
        Balance)
        requires
            self.wf(),
            token.wf(),
        ensures
            r == max_withdraw_spec(token.total_supply, total_assets, self.decimals_offset, token.balance(*owner)),
            ({
                let num = token.balance(*owner) * (total_assets + 1);
                let den = token.total_supply + pow10(self.decimals_offset as nat);
                &&& (total_assets + 1 <= u128::MAX && den <= u128::MAX && num < (u128::MAX + 1) * den)
                    ==> r * den <= num && num < (r + 1) * den
                &&& !(total_assets + 1 <= u128::MAX && den <= u128::MAX && num < (u128::MAX + 1) * den)
                    ==> r == u128::MAX
            }),
    {
        proof {
            law_max_withdraw_is_worth_of_own_shares(
                token.total_supply,
                total_assets,
                self.decimals_offset,
                token.balance(*owner),
            );
        }
        let owner_balance = token.balance_of(owner);
        match self._convert_to_assets(token.total_supply, total_assets, &owner_balance, Rounding::Down) {
            Ok(v) => v,
            Err(_) => u128::MAX,
        }
    }

    /// The most shares `owner` may redeem: all it holds.
    pub fn _max_redeem(&self, token: &PSP22Data, owner: &AccountId) -> (r: Balance)
        requires
            token.wf(),
        ensures
            r == token.balance(*owner),
    {
        token.balance_of(owner)
    }

    /// Shares a deposit of `assets` mints: converted rounding down.
    pub fn _preview_deposit(&self, total_shares: Balance, total_assets: Balance, assets: &Balance) -> (r:
        Result<Balance, MathError>)
        requires
            self.wf(),
        ensures
            r == convert_to_shares_spec(total_shares, total_assets, self.decimals_offset, *assets, Rounding::Down),
    {
        self._convert_to_shares(total_shares, total_assets, assets, Rounding::Down)
    }

    /// Assets a mint of `shares` costs: converted rounding up.
    pub fn _preview_mint(&self, total_shares: Balance, total_assets: Balance, shares: &Balance) -> (r:
        Result<Balance, MathError>)
        requires
            self.wf(),
        ensures
            r == convert_to_assets_spec(total_shares, total_assets, self.decimals_offset, *shares, Rounding::Up),
    {
        self._convert_to_assets(total_shares, total_assets, shares, Rounding::Up)
    }

    /// Shares a withdrawal of `assets` burns: converted rounding up.
    pub fn _preview_withdraw(&self, total_shares: Balance, total_assets: Balance, assets: &Balance) -> (r:
        Result<Balance, MathError>)
        requires
            self.wf(),
        ensures
            r == convert_to_shares_spec(total_shares, total_assets, self.decimals_offset, *assets, Rounding::Up),
    {
        self._convert_to_shares(total_shares, total_assets, assets, Rounding::Up)
    }

    /// Assets a redemption of `shares` pays: converted rounding down.
    pub fn _preview_redeem(&self, total_shares: Balance, total_assets: Balance, shares: &Balance) -> (r:
        Result<Balance, MathError>)
        requires
            self.wf(),
        ensures
            r == convert_to_assets_spec(total_shares, total_assets, self.decimals_offset, *shares, Rounding::Down),
    {
        self._convert_to_assets(total_shares, total_assets, shares, Rounding::Down)
    }

    /// The checks and the price of the `deposit` message: the shares that a
    /// deposit of `assets` for `receiver` mints.
    pub fn plan_deposit(
        &self,
        token: &PSP22Data,
        total_assets: Balance,
        assets: Balance,
        receiver: &AccountId,
    ) -> (r: Result<Balance, PSP22Error>)
        requires
            self.wf(),
        ensures
            carries(
                r,
                convert_to_shares_spec(token.total_supply, total_assets, self.decimals_offset, assets, Rounding::Down),
            ),
    {
        if assets > self._max_deposit(receiver) {
            return Err(max_error());
        }
        lift_math(self._preview_deposit(token.total_supply, total_assets, &assets))
    }

    /// The checks and the price of the `mint` message: the assets that
    /// minting `shares` for `receiver` costs.
    pub fn plan_mint(
        &self,
        token: &PSP22Data,
        total_assets: Balance,
        shares: Balance,
        receiver: &AccountId,
    ) -> (r: Result<Balance, PSP22Error>)
        requires
            self.wf(),
        ensures
            carries(
                r,
                convert_to_assets_spec(token.total_supply, total_assets, self.decimals_offset, shares, Rounding::Up),
            ),
    {
        if shares > self._max_mint(receiver) {
            return Err(max_error());
        }
        lift_math(self._preview_mint(token.total_supply, total_assets, &shares))
    }

    /// The checks and the price of the `withdraw` message: the shares of
    /// `owner` that withdrawing `assets` burns, refused above the limit of
    /// `owner`.
    pub fn plan_withdraw(
        &self,
        token: &PSP22Data,
        total_assets: Balance,
        assets: Balance,
        owner: &AccountId,
    ) -> (r: Result<Balance, PSP22Error>)
        requires
            self.wf(),
            token.wf(),
        ensures
            ({
                let limit = max_withdraw_spec(
                    token.total_supply,
                    total_assets,
                    self.decimals_offset,
                    token.balance(*owner),
                );
                &&& assets > limit ==> is_max_error(r)
                &&& assets <= limit ==> carries(
                    r,
                    convert_to_shares_spec(token.total_supply, total_assets, self.decimals_offset, assets, Rounding::Up),
                )
            }),
    {
        if assets > self._max_withdraw(token, total_assets, owner) {
            return Err(max_error());
        }
        lift_math(self._preview_withdraw(token.total_supply, total_assets, &assets))
    }

    /// The checks and the price of the `redeem` message: the assets that
    /// redeeming `shares` of `owner` pays.
    pub fn plan_redeem(
        &self,
        token: &PSP22Data,
        total_assets: Balance,
        shares: Balance,
        owner: &AccountId,
    ) -> (r: Result<Balance, PSP22Error>)
        requires
            self.wf(),
            token.wf(),
        ensures
            shares > token.balance(*owner) ==> is_max_error(r),
            shares <= token.balance(*owner) ==> carries(
                r,
                convert_to_assets_spec(token.total_supply, total_assets, self.decimals_offset, shares, Rounding::Down),
            ),
    {
        if shares > self._max_redeem(token, owner) {
            return Err(max_error());
        }
        lift_math(self._preview_redeem(token.total_supply, total_assets, &shares))
    }

    /// Completes a deposit once the vault has tried to pull `assets` from
    /// `caller` (`pulled` is the reply of the asset's `transfer_from`): mints
    /// `shares` to `receiver` and returns the `Transfer` and `Deposit` events.
    pub fn _deposit(
        &self,
        token: &mut PSP22Data,
        caller: &AccountId,
        receiver: &AccountId,
        assets: &Balance,
        shares: &Balance,
        pulled: Result<(), PSP22Error>,
    ) -> (r: Result<(Transfer, Deposit), PSP22Error>)
        requires
            old(token).wf(),
        ensures
            pulled matches Err(e) ==> r == Err::<(Transfer, Deposit), PSP22Error>(e) && *final(token)
                == *old(token),
            pulled is Ok ==> exists|t: Result<Transfer, PSP22Error>|
                {
                    &&& update_post(*old(token), *final(token), None, Some(*receiver), *shares, t)
                    &&& (t matches Ok(ev) ==> r == Ok::<(Transfer, Deposit), PSP22Error>(
                        (
                            ev,
                            Deposit {
                                sender: *caller,
                                owner: *receiver,
                                assets: *assets,
                                shares: *shares,
                            },
                        ),
                    ))
                    &&& (t matches Err(e) ==> r == Err::<(Transfer, Deposit), PSP22Error>(e))
                },
    {
        pulled?;
        let minted = token._mint_to(receiver, shares);
        match minted {
            Ok(ev) => {
                assert(update_post(*old(token), *token, None, Some(*receiver), *shares, minted));
                Ok((ev, Deposit { sender: *caller, owner: *receiver, assets: *assets, shares: *shares }))
            },
            Err(e) => {
                assert(update_post(*old(token), *token, None, Some(*receiver), *shares, minted));
                Err(e)
            },
        }
    }

    /// The part of a withdrawal before the assets leave the vault: when
    /// `caller` is not `owner` it spends `shares` of its allowance over
    /// `owner`, then burns `shares` of `owner`. Returns the `Approval` (if any)
    /// and `Transfer` events.
    pub fn _withdraw(
        &self,
        token: &mut PSP22Data,
        caller: &AccountId,
        owner: &AccountId,
        shares: &Balance,
    ) -> (r: Result<(Option<Approval>, Transfer), PSP22Error>)
        requires
            old(token).wf(),
        ensures
            *caller != *owner && *shares > old(token).allowance_of(*owner, *caller) ==> r == Err::<
                (Option<Approval>, Transfer),
                PSP22Error,
            >(PSP22Error::InsufficientAllowance) && *final(token) == *old(token),
            *caller != *owner && *shares <= old(token).allowance_of(*owner, *caller) ==> {
                let left = (old(token).allowance_of(*owner, *caller) - *shares) as u128;
                let approved = PSP22Data {
                    total_supply: old(token).total_supply,
                    balances: old(token).balances,
                    allowances: final(token).allowances,
                };
                &&& final(token).allowances@ == old(token).allowances@.insert((*owner, *caller), left)
                &&& approved.wf()
                &&& exists|t: Result<Transfer, PSP22Error>|
                    {
                        &&& update_post(approved, *final(token), Some(*owner), None, *shares, t)
                        &&& (t matches Ok(ev) ==> r == Ok::<(Option<Approval>, Transfer), PSP22Error>(
                            (Some(Approval { owner: *owner, spender: *caller, value: left }), ev),
                        ))
                        &&& (t matches Err(e) ==> r == Err::<(Option<Approval>, Transfer), PSP22Error>(e))
                    }
            },
            *caller == *owner ==> exists|t: Result<Transfer, PSP22Error>|
                {
                    &&& update_post(*old(token), *final(token), Some(*owner), None, *shares, t)
                    &&& (t matches Ok(ev) ==> r == Ok::<(Option<Approval>, Transfer), PSP22Error>(
                        (None, ev),
                    ))
                    &&& (t matches Err(e) ==> r == Err::<(Option<Approval>, Transfer), PSP22Error>(e))
                },
    {
        let approval = if !caller.same(owner) {
            Some(token._decrease_allowance_from_to(owner, caller, shares)?)
        } else {
            None
        };
        let ghost approved = *token;
        let burned = token._burn_from(owner, shares);
        match burned {
            Ok(ev) => {
                assert(update_post(approved, *token, Some(*owner), None, *shares, burned));
                Ok((approval, ev))
            },
            Err(e) => {
                assert(update_post(approved, *token, Some(*owner), None, *shares, burned));
                Err(e)
            },
        }
    }

    /// Completes a withdrawal once the vault has tried to send `assets` to
    /// `receiver` (`sent` is the reply of the asset's `transfer`): the
    /// `Withdraw` event to emit, or the asset's error.
    pub fn withdraw_event(
        caller: &AccountId,
        receiver: &AccountId,
        owner: &AccountId,
        assets: &Balance,
        shares: &Balance,
        sent: Result<(), PSP22Error>,
    ) -> (r: Result<Withdraw, PSP22Error>)
        ensures
            sent matches Err(e) ==> r == Err::<Withdraw, PSP22Error>(e),
            sent is Ok ==> r == Ok::<Withdraw, PSP22Error>(
                Withdraw {
                    sender: *caller,
                    receiver: *receiver,
                    owner: *owner,
                    assets: *assets,
                    shares: *shares,
                },
            ),
    {
        sent?;
        Ok(Withdraw {
            sender: *caller,
            receiver: *receiver,
            owner: *owner,
            assets: *assets,
            shares: *shares,
        })
    }
}


/// `floor(floor(x * y / z) * z / y) <= x`.
proof fn lemma_floor_round_trip(x: int, y: int, z: int)
    requires
        x >= 0,
        y > 0,
        z > 0,
    ensures
        ((x * y) / z) * z / y <= x,
{
    let p = x * y;
    let q = p / z;
    lemma_fundamental_div_mod(p, z);
    lemma_mul_is_commutative(z, q);
    assert(q * z <= p);
    lemma_div_is_ordered(q * z, p, y);
    lemma_mul_is_commutative(x, y);
    lemma_div_multiples_vanish(x, y);
}

/// `c * z >= x * y` implies `floor(c * z / y) >= x`.
proof fn lemma_ceil_round_trip(x: int, y: int, z: int, c: int)
    requires
        x >= 0,
        y > 0,
        z > 0,
        c * z >= x * y,
    ensures
        (c * z) / y >= x,
{
    lemma_div_is_ordered(x * y, c * z, y);
    lemma_mul_is_commutative(x, y);
    lemma_div_multiples_vanish(x, y);
}

/// Rounding `x * y / z` up gives a value `c` with `c * z >= x * y`.
proof fn lemma_mul_div_up_covers(x: u128, y: u128, z: u128, c: u128)
    requires
        z > 0,
        mul_div_spec(x, y, z, Rounding::Up) == Ok::<u128, MathError>(c),
    ensures
        c * z >= x * y,
{
    if x == 0 || y == 0 {
        assert(x * y == 0) by (nonlinear_arith)
            requires
                x == 0 || y == 0,
        ;
        assert(c * z >= 0) by (nonlinear_arith)
            requires
                c >= 0,
                z > 0,
        ;
    } else {
        let p = x * y;
        let q = p / (z as int);
        lemma_fundamental_div_mod(p, z as int);
        lemma_mul_is_commutative(z as int, q);
        lemma_mul_is_commutative(z as int, q + 1);
        if p % (z as int) != 0 {
            assert((q + 1) * z == q * z + z) by (nonlinear_arith);
        }
    }
}

/// Law: `mul_div` divides the exact product. Rounding down it gives the
/// largest `r` with `r * d <= x * y`; rounding up, the smallest `r` with
/// `x * y <= r * d`. It fails with `DivByZero` exactly when `d` is zero and
/// with `Overflow` exactly when that `r` does not fit in 128 bits.
pub proof fn law_mul_div_rounds(x: u128, y: u128, d: u128, round: Rounding)
    ensures
        d == 0 ==> mul_div_spec(x, y, d, round) == Err::<u128, MathError>(MathError::DivByZero),
        d > 0 && round == Rounding::Down ==> match mul_div_spec(x, y, d, round) {
            Ok(r) => r * d <= x * y && x * y < (r + 1) * d,
            Err(e) => e == MathError::Overflow && x * y >= (u128::MAX + 1) * d,
        },
        d > 0 && round == Rounding::Up ==> match mul_div_spec(x, y, d, round) {
            Ok(r) => x * y <= r * d && (r - 1) * d < x * y,
            Err(e) => e == MathError::Overflow && x * y > u128::MAX * d,
        },
{
    if d > 0 {
        let p = x * y;
        let dd = d as int;
        assert(p >= 0) by (nonlinear_arith)
            requires
                x >= 0,
                y >= 0,
                p == x * y,
        ;
        if x == 0 || y == 0 {
            assert(p == 0) by (nonlinear_arith)
                requires
                    x == 0 || y == 0,
                    p == x * y,
            ;
            assert(0 * dd == 0 && (0 + 1) * dd == dd && (0 - 1) * dd == -dd) by (nonlinear_arith);
        } else {
            let q = p / dd;
            lemma_floor_div_bounds(p, dd);
            assert(p > 0) by (nonlinear_arith)
                requires
                    x > 0,
                    y > 0,
                    p == x * y,
            ;
            let m = u128::MAX as int;
            if q > m {
                assert(q * dd >= (m + 1) * dd) by (nonlinear_arith)
                    requires
                        q >= m + 1,
                        dd > 0,
                ;
            }
            if round == Rounding::Up {
                lemma_fundamental_div_mod(p, dd);
                assert(dd * q == q * dd) by (nonlinear_arith);
                if p % dd != 0 {
                    assert((q + 1) * dd == q * dd + dd) by (nonlinear_arith);
                    if q + 1 > m {
                        assert(q * dd >= m * dd) by (nonlinear_arith)
                            requires
                                q >= m,
                                dd > 0,
                        ;
                    }
                } else {
                    assert((q - 1) * dd == q * dd - dd) by (nonlinear_arith);
                    if q > m {
                        assert(q * dd > m * dd) by (nonlinear_arith)
                            requires
                                q > m,
                                dd > 0,
                        ;
                    }
                }
            }
        }
    }
}

/// Law: the assets that `shares` are worth, rounded as asked: with `num =
/// shares * (total_assets + 1)` and `den = total_shares + 10^offset`,
/// rounding down gives the largest `r` with `r * den <= num`, rounding up
/// the smallest `r` with `num <= r * den`; it fails with `Overflow` exactly
/// when one of the two sums or that `r` does not fit in 128 bits.
pub proof fn law_convert_to_assets_is_worth(
    total_shares: u128,
    total_assets: u128,
    offset: u8,
    shares: u128,
    round: Rounding,
)
    ensures
        ({
            let num = shares * (total_assets + 1);
            let den = total_shares + pow10(offset as nat);
            let c = convert_to_assets_spec(total_shares, total_assets, offset, shares, round);
            &&& (total_assets + 1 > u128::MAX || den > u128::MAX) ==> c == Err::<u128, MathError>(
                MathError::Overflow,
            )
            &&& (total_assets + 1 <= u128::MAX && den <= u128::MAX && round == Rounding::Down)
                ==> match c {
                Ok(r) => r * den <= num && num < (r + 1) * den,
                Err(e) => e == MathError::Overflow && num >= (u128::MAX + 1) * den,
            }
            &&& (total_assets + 1 <= u128::MAX && den <= u128::MAX && round == Rounding::Up) ==> match c {
                Ok(r) => num <= r * den && (r - 1) * den < num,
                Err(e) => e == MathError::Overflow && num > u128::MAX * den,
            }
        }),
{
    lemma_pow10_monotone(0, offset as nat);
    let den = total_shares + pow10(offset as nat);
    if total_assets + 1 <= u128::MAX && den <= u128::MAX {
        law_mul_div_rounds(shares, (total_assets + 1) as u128, den as u128, round);
    }
}

/// Law: the shares that `assets` are worth, rounded as asked: with `num =
/// assets * (total_shares + 10^offset)` and `den = total_assets + 1`,
/// rounding down gives the largest `r` with `r * den <= num`, rounding up
/// the smallest `r` with `num <= r * den`; it fails with `Overflow` exactly
/// when one of the two sums or that `r` does not fit in 128 bits.
pub proof fn law_convert_to_shares_is_worth(
    total_shares: u128,
    total_assets: u128,
    offset: u8,
    assets: u128,
    round: Rounding,
)
    ensures
        ({
            let num = assets * (total_shares + pow10(offset as nat));
            let den = total_assets + 1;
            let c = convert_to_shares_spec(total_shares, total_assets, offset, assets, round);
            &&& (total_shares + pow10(offset as nat) > u128::MAX || den > u128::MAX) ==> c == Err::<
                u128,
                MathError,
            >(MathError::Overflow)
            &&& (total_shares + pow10(offset as nat) <= u128::MAX && den <= u128::MAX && round
                == Rounding::Down) ==> match c {
                Ok(r) => r * den <= num && num < (r + 1) * den,
                Err(e) => e == MathError::Overflow && num >= (u128::MAX + 1) * den,
            }
            &&& (total_shares + pow10(offset as nat) <= u128::MAX && den <= u128::MAX && round
                == Rounding::Up) ==> match c {
                Ok(r) => num <= r * den && (r - 1) * den < num,
                Err(e) => e == MathError::Overflow && num > u128::MAX * den,
            }
        }),
{
    lemma_pow10_monotone(0, offset as nat);
    let sd = total_shares + pow10(offset as nat);
    if sd <= u128::MAX && total_assets + 1 <= u128::MAX {
        law_mul_div_rounds(assets, sd as u128, (total_assets + 1) as u128, round);
    }
}

/// Law: the most the holder of `shares` may withdraw is what those shares
/// alone are worth, rounded down: the largest `r` with `r * (total_shares +
/// 10^offset) <= shares * (total_assets + 1)`. Where that value or the sums
/// do not fit in 128 bits, there is no limit: `u128::MAX`.
pub proof fn law_max_withdraw_is_worth_of_own_shares(
    total_shares: u128,
    total_assets: u128,
    offset: u8,
    shares: u128,
)
    ensures
        ({
            let num = shares * (total_assets + 1);
            let den = total_shares + pow10(offset as nat);
            let r = max_withdraw_spec(total_shares, total_assets, offset, shares);
            &&& (total_assets + 1 <= u128::MAX && den <= u128::MAX && num < (u128::MAX + 1) * den) ==> r
                * den <= num && num < (r + 1) * den
            &&& !(total_assets + 1 <= u128::MAX && den <= u128::MAX && num < (u128::MAX + 1) * den)
                ==> r == u128::MAX
        }),
{
    law_convert_to_assets_is_worth(total_shares, total_assets, offset, shares, Rounding::Down);
    let den = total_shares + pow10(offset as nat);
    if let Ok(r) = convert_to_assets_spec(total_shares, total_assets, offset, shares, Rounding::Down) {
        if total_assets + 1 <= u128::MAX && den <= u128::MAX {
            assert((r + 1) * den <= (u128::MAX + 1) * den) by (nonlinear_arith)
                requires
                    r <= u128::MAX,
                    den >= 0,
            ;
        }
    }
}

/// Law: depositing assets and redeeming the shares it mints, at one price,
/// never pays back more assets than were deposited.
pub proof fn law_deposit_then_redeem_never_gains(
    total_shares: u128,
    total_assets: u128,
    offset: u8,
    assets: u128,
    shares: u128,
    back: u128,
)
    requires
        convert_to_shares_spec(total_shares, total_assets, offset, assets, Rounding::Down) == Ok::<
            u128,
            MathError,
        >(shares),
        convert_to_assets_spec(total_shares, total_assets, offset, shares, Rounding::Down) == Ok::<
            u128,
            MathError,
        >(back),
    ensures
        back <= assets,
{
    let sd = total_shares + pow10(offset as nat);
    let ad = total_assets + 1;
    lemma_pow10_monotone(0, offset as nat);
    if assets != 0 && shares != 0 {
        lemma_floor_round_trip(assets as int, sd, ad);
    }
}

/// Law: the assets that minting `shares` costs are worth at least those
/// shares at the same price.
pub proof fn law_mint_cost_covers_shares(
    total_shares: u128,
    total_assets: u128,
    offset: u8,
    shares: u128,
    cost: u128,
    worth: u128,
)
    requires
        convert_to_assets_spec(total_shares, total_assets, offset, shares, Rounding::Up) == Ok::<
            u128,
            MathError,
        >(cost),
        convert_to_shares_spec(total_shares, total_assets, offset, cost, Rounding::Down) == Ok::<
            u128,
            MathError,
        >(worth),
    ensures
        worth >= shares,
{
    let sd = (total_shares + pow10(offset as nat)) as u128;
    let ad = (total_assets + 1) as u128;
    lemma_pow10_monotone(0, offset as nat);
    lemma_mul_div_up_covers(shares, ad, sd, cost);
    if cost != 0 {
        lemma_ceil_round_trip(shares as int, ad as int, sd as int, cost as int);
    } else {
        assert(shares * ad <= 0);
        assert(shares == 0) by (nonlinear_arith)
            requires
                shares * ad <= 0,
                ad > 0,
                shares >= 0,
        ;
    }
}

/// Law: the shares that withdrawing `assets` burns are worth at least those
/// assets at the same price.
pub proof fn law_withdraw_burns_enough(
    total_shares: u128,
    total_assets: u128,
    offset: u8,
    assets: u128,
    burned: u128,
    worth: u128,
)
    requires
        convert_to_shares_spec(total_shares, total_assets, offset, assets, Rounding::Up) == Ok::<
            u128,
            MathError,
        >(burned),
        convert_to_assets_spec(total_shares, total_assets, offset, burned, Rounding::Down) == Ok::<
            u128,
            MathError,
        >(worth),
    ensures
        worth >= assets,
{
    let sd = (total_shares + pow10(offset as nat)) as u128;
    let ad = (total_assets + 1) as u128;
    lemma_pow10_monotone(0, offset as nat);
    lemma_mul_div_up_covers(assets, sd, ad, burned);
    if burned != 0 {
        lemma_ceil_round_trip(assets as int, sd as int, ad as int, burned as int);
    } else {
        assert(assets == 0) by (nonlinear_arith)
            requires
                assets * sd <= 0,
                sd > 0,
                assets >= 0,
        ;
    }
}

/// Law: rounding up gives the value rounded down, or one more.
pub proof fn law_round_up_within_one(x: u128, y: u128, d: u128, down: u128, up: u128)
    requires
        mul_div_spec(x, y, d, Rounding::Down) == Ok::<u128, MathError>(down),
        mul_div_spec(x, y, d, Rounding::Up) == Ok::<u128, MathError>(up),
    ensures
        down <= up <= down + 1,
{
}

} // verus!
