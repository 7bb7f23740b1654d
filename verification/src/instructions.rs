pub mod claim_token;
pub mod create_employee_vesting;
pub mod create_vesting_account;
