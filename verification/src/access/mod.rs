pub mod access_control;
pub mod ownable;
