use vstd::prelude::*;

use crate::types::{AccountId, Balance};

verus! {

/// Emitted when tokens are transferred, including zero value transfers.
#[derive(Debug, Clone, Copy)]
pub struct Transfer {
    /// The account from which the tokens are transferred. `None` for minting.
    pub from: Option<AccountId>,
    /// The account to which the tokens are transferred. `None` for burning.
    pub to: Option<AccountId>,
    /// The amount of tokens transferred.
    pub value: Balance,
}

/// Emitted when the allowance of a `spender` for an `owner` is set or changed.
#[derive(Debug, Clone, Copy)]
pub struct Approval {
    /// The account of the token owner.
    pub owner: AccountId,
    /// The account of the authorized spender.
    pub spender: AccountId,
    /// The new allowance amount.
    pub value: Balance,
}

} // verus!
