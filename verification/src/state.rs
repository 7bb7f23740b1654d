pub mod employee_vesting;
pub mod vesting_account;
