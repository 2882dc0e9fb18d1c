use pendzl_contracts::security::pausable::{
    Pausable, PausableData, PausableError, PausableInternal,
};
use pendzl_contracts::types::AccountId;

#[test]
fn pause_and_unpause() {
    let who = AccountId([4; 32]);
    let mut p = PausableData::new();
    assert!(!Pausable::paused(&p));
    assert_eq!(p._unpause(who).unwrap_err(), PausableError::NotPaused);
    assert!(p._ensure_not_paused().is_ok());
    let ev = p._pause(who).unwrap();
    assert_eq!(ev.account.0, who.0);
    assert!(p._paused());
    assert_eq!(p._pause(who).unwrap_err(), PausableError::Paused);
    assert_eq!(p._ensure_not_paused().unwrap_err(), PausableError::Paused);
    assert!(p._ensure_paused().is_ok());
    p._unpause(who).unwrap();
    assert!(!Pausable::paused(&p));
}
