pub mod psp22_error;
pub mod psp22_events;
pub mod implementation;
pub mod vault;
pub mod metadata;
