pub mod pausable;
