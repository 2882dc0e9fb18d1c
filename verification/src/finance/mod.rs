pub mod general_vest;
pub mod vesting;
