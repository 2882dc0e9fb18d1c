use vstd::prelude::*;

use crate::types::AccountId;

verus! {

/// Errors of pausable operations.
#[derive(Debug, PartialEq, Eq, Structural, Clone, Copy)]
pub enum PausableError {
    /// The contract is already paused.
    Paused,
    /// The contract is not paused.
    NotPaused,
}

/// Emitted when the contract is paused by `account`.
#[derive(Debug, Clone, Copy)]
pub struct Paused {
    pub account: AccountId,
}

/// Emitted when the contract is unpaused by `account`.
#[derive(Debug, Clone, Copy)]
pub struct Unpaused {
    pub account: AccountId,
}

/// What the storage of a pausable contract provides: the paused flag.
pub trait PausableStorage: Sized {
    /// Whether the contract is paused.
    spec fn is_paused(&self) -> bool;

    /// Retrieves the paused state.
    fn paused(&self) -> (r: bool)
        ensures
            r == self.is_paused(),
    ;

    /// Sets the paused state.
    fn set_paused(&mut self, pause: bool)
        ensures
            final(self).is_paused() == pause,
    ;
}

/// The pausable operations of a contract.
pub trait PausableInternal: PausableStorage {
    /// Whether the contract is paused.
    fn _paused(&self) -> (r: bool)
        ensures
            r == self.is_paused(),
    ;

    /// Pauses the contract on behalf of `account`; refused with `Paused` when
    /// it is paused already. Returns the `Paused` event.
    fn _pause(&mut self, account: AccountId) -> (r: Result<Paused, PausableError>)
        ensures
            old(self).is_paused() ==> r == Err::<Paused, PausableError>(PausableError::Paused)
                && *final(self) == *old(self),
            !old(self).is_paused() ==> r == Ok::<Paused, PausableError>(Paused { account })
                && final(self).is_paused(),
    ;

    /// Unpauses the contract on behalf of `account`; refused with
    /// `NotPaused` when it is not paused. Returns the `Unpaused` event.
    fn _unpause(&mut self, account: AccountId) -> (r: Result<Unpaused, PausableError>)
        ensures
            !old(self).is_paused() ==> r == Err::<Unpaused, PausableError>(
                PausableError::NotPaused,
            ) && *final(self) == *old(self),
            old(self).is_paused() ==> r == Ok::<Unpaused, PausableError>(Unpaused { account })
                && !final(self).is_paused(),
    ;

    /// Fails with `NotPaused` unless the contract is paused.
    fn _ensure_paused(&self) -> (r: Result<(), PausableError>)
        ensures
            self.is_paused() ==> r is Ok,
            !self.is_paused() ==> r == Err::<(), PausableError>(PausableError::NotPaused),
    ;

    /// Fails with `Paused` when the contract is paused.
    fn _ensure_not_paused(&self) -> (r: Result<(), PausableError>)
        ensures
            !self.is_paused() ==> r is Ok,
            self.is_paused() ==> r == Err::<(), PausableError>(PausableError::Paused),
    ;
}

/// The message of a pausable contract.
pub trait Pausable {
    /// Whether the contract is paused.
    spec fn paused_state(&self) -> bool;

    /// Returns true if the contract is paused, and false otherwise.
    fn paused(&self) -> (r: bool)
        ensures
            r == self.paused_state(),
    ;
}

/// The default implementation of the pausable operations, over the paused
/// flag of the storage.
pub trait PausableInternalDefaultImpl: PausableStorage {
    fn _paused_default_impl(&self) -> (r: bool)
        ensures
            r == self.is_paused(),
    {
        self.paused()
    }

    fn _pause_default_impl(&mut self, account: AccountId) -> (r: Result<Paused, PausableError>)
        ensures
            old(self).is_paused() ==> r == Err::<Paused, PausableError>(PausableError::Paused)
                && *final(self) == *old(self),
            !old(self).is_paused() ==> r == Ok::<Paused, PausableError>(Paused { account })
                && final(self).is_paused(),
    {
        self._ensure_not_paused_default_impl()?;
        self.set_paused(true);
        Ok(Paused { account })
    }

    fn _unpause_default_impl(&mut self, account: AccountId) -> (r: Result<Unpaused, PausableError>)
        ensures
            !old(self).is_paused() ==> r == Err::<Unpaused, PausableError>(
                PausableError::NotPaused,
            ) && *final(self) == *old(self),
            old(self).is_paused() ==> r == Ok::<Unpaused, PausableError>(Unpaused { account })
                && !final(self).is_paused(),
    {
        self._ensure_paused_default_impl()?;
        self.set_paused(false);
        Ok(Unpaused { account })
    }

    fn _ensure_paused_default_impl(&self) -> (r: Result<(), PausableError>)
        ensures
            self.is_paused() ==> r is Ok,
            !self.is_paused() ==> r == Err::<(), PausableError>(PausableError::NotPaused),
    {
        if !self.paused() {
            return Err(PausableError::NotPaused);
        }
        Ok(())
    }

    fn _ensure_not_paused_default_impl(&self) -> (r: Result<(), PausableError>)
        ensures
            !self.is_paused() ==> r is Ok,
            self.is_paused() ==> r == Err::<(), PausableError>(PausableError::Paused),
    {
        if self.paused() {
            return Err(PausableError::Paused);
        }
        Ok(())
    }
}

/// The default implementation of the pausable message.
pub trait PausableDefaultImpl: PausableInternal {
    fn paused_default_impl(&self) -> (r: bool)
        ensures
            r == self.is_paused(),
    {
        self._paused()
    }
}

/// The storage of the pausable module: the paused flag.
pub struct PausableData {
    pub paused: bool,
}

impl PausableData {
    /// An unpaused contract.
    pub fn new() -> (d: Self)
        ensures
            !d.paused,
    {
        PausableData { paused: false }
    }
}

impl PausableStorage for PausableData {
    open spec fn is_paused(&self) -> bool {
        self.paused
    }

    fn paused(&self) -> (r: bool) {
        self.paused
    }

    fn set_paused(&mut self, pause: bool) {
        self.paused = pause;
    }
}

impl PausableInternalDefaultImpl for PausableData {}

impl PausableInternal for PausableData {
    fn _paused(&self) -> (r: bool) {
        self._paused_default_impl()
    }

    fn _pause(&mut self, account: AccountId) -> (r: Result<Paused, PausableError>) {
        self._pause_default_impl(account)
    }

    fn _unpause(&mut self, account: AccountId) -> (r: Result<Unpaused, PausableError>) {
        self._unpause_default_impl(account)
    }

    fn _ensure_paused(&self) -> (r: Result<(), PausableError>) {
        self._ensure_paused_default_impl()
    }

    fn _ensure_not_paused(&self) -> (r: Result<(), PausableError>) {
        self._ensure_not_paused_default_impl()
    }
}

impl PausableDefaultImpl for PausableData {}

impl Pausable for PausableData {
    open spec fn paused_state(&self) -> bool {
        self.paused
    }

    fn paused(&self) -> (r: bool) {
        self.paused_default_impl()
    }
}

} // verus!
