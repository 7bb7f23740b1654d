use token_vesting::{
    create_employee_vesting, create_vesting_account, CreateEmployeeVesting, CreateVestingAccount,
    Pubkey, TokenVestingError, VestingAccount,
};

fn acme_treasury(owner: Pubkey, mint: Pubkey) -> VestingAccount {
    let ctx = CreateVestingAccount {
        fee_payer: owner,
        mint_token: mint,
        treasury_token_account: Pubkey(11),
        vesting_account_bump: 254,
        treasury_bump: 253,
    };
    create_vesting_account(&ctx, String::from("Acme"))
}

#[test]
fn treasury_records_creation_inputs() {
    let va = acme_treasury(Pubkey(1), Pubkey(2));
    assert_eq!(va.owner, Pubkey(1));
    assert_eq!(va.mint_token, Pubkey(2));
    assert_eq!(va.company_name, "Acme");
    assert_eq!(va.treasury_token_account, Pubkey(11));
    assert_eq!(va.bump, 254);
    assert_eq!(va.treasury_bump, 253);
}

#[test]
fn schedule_starts_with_nothing_withdrawn() {
    let owner = Pubkey(1);
    let ctx = CreateEmployeeVesting {
        fee_payer: owner,
        vesting_account: acme_treasury(owner, Pubkey(2)),
        vesting_account_key: Pubkey(10),
        beneficiary: Pubkey(3),
    };
    let ev = create_employee_vesting(&ctx, 1000, 2000, 1_000_000).unwrap();
    assert_eq!(ev.beneficiary, Pubkey(3));
    assert_eq!(ev.start_time, 1000);
    assert_eq!(ev.end_time, 2000);
    assert_eq!(ev.total_amount, 1_000_000);
    assert_eq!(ev.total_withdraw, 0);
    assert_eq!(ev.vesting_account, Pubkey(10));
}

#[test]
fn schedule_rejects_empty_time_window() {
    let owner = Pubkey(1);
    let ctx = CreateEmployeeVesting {
        fee_payer: owner,
        vesting_account: acme_treasury(owner, Pubkey(2)),
        vesting_account_key: Pubkey(10),
        beneficiary: Pubkey(3),
    };
    let r = create_employee_vesting(&ctx, 100, 100, 1_000);
    assert_eq!(r.unwrap_err(), TokenVestingError::InvalidVestingSchedule);
    let r = create_employee_vesting(&ctx, 200, 100, 1_000);
    assert_eq!(r.unwrap_err(), TokenVestingError::InvalidVestingSchedule);
}

#[test]
fn schedule_rejects_non_positive_amount() {
    let owner = Pubkey(1);
    let ctx = CreateEmployeeVesting {
        fee_payer: owner,
        vesting_account: acme_treasury(owner, Pubkey(2)),
        vesting_account_key: Pubkey(10),
        beneficiary: Pubkey(3),
    };
    let r = create_employee_vesting(&ctx, 0, 100, 0);
    assert_eq!(r.unwrap_err(), TokenVestingError::InvalidAmount);
    let r = create_employee_vesting(&ctx, 0, 100, -5);
    assert_eq!(r.unwrap_err(), TokenVestingError::InvalidAmount);
}

#[test]
fn schedule_rejects_caller_who_is_not_the_owner() {
    let owner = Pubkey(1);
    let intruder = Pubkey(99);
    let ctx = CreateEmployeeVesting {
        fee_payer: intruder,
        vesting_account: acme_treasury(owner, Pubkey(2)),
        vesting_account_key: Pubkey(10),
        beneficiary: Pubkey(3),
    };
    let r = create_employee_vesting(&ctx, 1000, 2000, 1_000_000);
    assert_eq!(r.unwrap_err(), TokenVestingError::NotAuthorized);
}

#[test]
fn authorization_is_checked_before_validation() {
    // A non-owner with malformed parameters is still told NotAuthorized first.
    let ctx = CreateEmployeeVesting {
        fee_payer: Pubkey(99),
        vesting_account: acme_treasury(Pubkey(1), Pubkey(2)),
        vesting_account_key: Pubkey(10),
        beneficiary: Pubkey(3),
    };
    let r = create_employee_vesting(&ctx, 100, 100, 0);
    assert_eq!(r.unwrap_err(), TokenVestingError::NotAuthorized);
}
