use token_vesting::{
    claim_token, create_employee_vesting, create_vesting_account, ClaimToken,
    CreateEmployeeVesting, CreateVestingAccount, EmployeeVesting, Pubkey, TokenVestingError,
};

fn owner() -> Pubkey {
    Pubkey(1)
}

fn mint() -> Pubkey {
    Pubkey(2)
}

fn beneficiary() -> Pubkey {
    Pubkey(3)
}

fn treasury_key() -> Pubkey {
    Pubkey(10)
}

/// Runs the two creation operations and assembles the accounts a claim sees.
fn setup(start: i64, end: i64, total: i64) -> ClaimToken {
    let cva = CreateVestingAccount {
        fee_payer: owner(),
        mint_token: mint(),
        treasury_token_account: Pubkey(11),
        vesting_account_bump: 254,
        treasury_bump: 253,
    };
    let va = create_vesting_account(&cva, String::from("Acme"));
    let cev = CreateEmployeeVesting {
        fee_payer: owner(),
        vesting_account: va,
        vesting_account_key: treasury_key(),
        beneficiary: beneficiary(),
    };
    let ev = create_employee_vesting(&cev, start, end, total).unwrap();
    ClaimToken {
        fee_payer: beneficiary(),
        employee_vesting: ev,
        vesting_account: cev.vesting_account,
        vesting_account_key: treasury_key(),
        beneficiary: beneficiary(),
        mint_token: mint(),
    }
}

#[test]
fn acme_scenario_midpoint_then_repeat_then_tail() {
    let mut ctx = setup(1000, 2000, 1_000_000);

    assert_eq!(claim_token(&mut ctx, 1500), Ok(500_000));
    assert_eq!(ctx.employee_vesting.total_withdraw, 500_000);

    // Immediate repeat at the same time: nothing new has vested.
    assert_eq!(
        claim_token(&mut ctx, 1500),
        Err(TokenVestingError::InsufficientVestedAmount)
    );
    assert_eq!(ctx.employee_vesting.total_withdraw, 500_000);

    // Past the end of the window the remainder is released, and no more.
    assert_eq!(claim_token(&mut ctx, 2500), Ok(500_000));
    assert_eq!(ctx.employee_vesting.total_withdraw, 1_000_000);
    assert_eq!(
        claim_token(&mut ctx, 3000),
        Err(TokenVestingError::InsufficientVestedAmount)
    );
}

#[test]
fn single_unit_boundary() {
    // One unit over [0, 100]: halfway the truncating division yields 0,
    // only the very end releases the unit.
    let mut ctx = setup(0, 100, 1);
    assert_eq!(
        claim_token(&mut ctx, 50),
        Err(TokenVestingError::InsufficientVestedAmount)
    );
    assert_eq!(
        claim_token(&mut ctx, 99),
        Err(TokenVestingError::InsufficientVestedAmount)
    );
    assert_eq!(claim_token(&mut ctx, 100), Ok(1));
    assert_eq!(ctx.employee_vesting.total_withdraw, 1);
}

#[test]
fn nothing_vested_exactly_at_start() {
    let mut ctx = setup(1000, 2000, 1_000_000);
    assert_eq!(
        claim_token(&mut ctx, 1000),
        Err(TokenVestingError::InsufficientVestedAmount)
    );
    assert_eq!(ctx.employee_vesting.total_withdraw, 0);
}

#[test]
fn claim_before_start_is_refused() {
    let mut ctx = setup(1000, 2000, 1_000_000);
    assert_eq!(
        claim_token(&mut ctx, 999),
        Err(TokenVestingError::VestingNotStarted)
    );
    assert_eq!(ctx.employee_vesting.total_withdraw, 0);
}

#[test]
fn anyone_may_settle_on_the_beneficiarys_behalf() {
    // The fee payer need not be the beneficiary; the payout is still
    // credited against the beneficiary's schedule.
    let mut ctx = setup(1000, 2000, 1_000_000);
    ctx.fee_payer = Pubkey(55);
    assert_eq!(claim_token(&mut ctx, 1500), Ok(500_000));
    assert_eq!(ctx.employee_vesting.beneficiary, beneficiary());
}

#[test]
fn claim_for_wrong_beneficiary_is_refused() {
    let mut ctx = setup(1000, 2000, 1_000_000);
    ctx.beneficiary = Pubkey(99);
    assert_eq!(
        claim_token(&mut ctx, 1500),
        Err(TokenVestingError::BeneficiaryMismatch)
    );
    assert_eq!(ctx.employee_vesting.total_withdraw, 0);
}

#[test]
fn claim_against_wrong_treasury_is_refused() {
    let mut ctx = setup(1000, 2000, 1_000_000);
    ctx.vesting_account_key = Pubkey(77);
    assert_eq!(
        claim_token(&mut ctx, 1500),
        Err(TokenVestingError::NotAuthorized)
    );
}

#[test]
fn claim_with_wrong_mint_is_refused() {
    let mut ctx = setup(1000, 2000, 1_000_000);
    ctx.mint_token = Pubkey(88);
    assert_eq!(
        claim_token(&mut ctx, 1500),
        Err(TokenVestingError::NotAuthorized)
    );
}

#[test]
fn payouts_follow_the_linear_formula_step_by_step() {
    // 7 units over [0, 10]: after a claim at time t the withdrawn total is
    // floor(t * 7 / 10), so each successive claim pays the difference.
    let mut ctx = setup(0, 10, 7);
    let mut paid: i64 = 0;
    for t in 0..=12i64 {
        match claim_token(&mut ctx, t) {
            Ok(amount) => {
                assert!(amount > 0);
                paid += amount;
            }
            Err(e) => assert_eq!(e, TokenVestingError::InsufficientVestedAmount),
        }
        let capped = if t < 10 { t } else { 10 };
        assert_eq!(ctx.employee_vesting.total_withdraw, capped * 7 / 10);
        assert_eq!(ctx.employee_vesting.total_withdraw, paid);
    }
    assert_eq!(paid, 7);
}

#[test]
fn lifetime_claims_sum_to_total() {
    let mut ctx = setup(1000, 2000, 999_983);
    let mut paid: i64 = 0;
    for now in [1001, 1250, 1250, 1333, 1999, 2000, 2600] {
        if let Ok(amount) = claim_token(&mut ctx, now) {
            paid += amount;
        }
    }
    assert_eq!(paid, 999_983);
    assert_eq!(ctx.employee_vesting.total_withdraw, 999_983);
}

#[test]
fn degenerate_window_vests_everything_at_once() {
    // Creation refuses start >= end, but settlement stays defensive about a
    // record that nevertheless carries an empty window.
    let mut ctx = setup(1000, 2000, 500);
    ctx.employee_vesting = EmployeeVesting {
        end_time: 1000,
        ..ctx.employee_vesting
    };
    assert_eq!(
        claim_token(&mut ctx, 999),
        Err(TokenVestingError::VestingNotStarted)
    );
    assert_eq!(claim_token(&mut ctx, 1000), Ok(500));
    assert_eq!(
        claim_token(&mut ctx, 5000),
        Err(TokenVestingError::InsufficientVestedAmount)
    );
}

#[test]
fn extreme_magnitudes_do_not_overflow() {
    let mut ctx = setup(0, i64::MAX, i64::MAX);
    assert_eq!(claim_token(&mut ctx, 1), Ok(1));
    assert_eq!(claim_token(&mut ctx, i64::MAX), Ok(i64::MAX - 1));
    assert_eq!(ctx.employee_vesting.total_withdraw, i64::MAX);
}

#[test]
fn negative_timestamps_accrue_linearly() {
    let mut ctx = setup(-1000, -500, 500);
    assert_eq!(claim_token(&mut ctx, -750), Ok(250));
    assert_eq!(claim_token(&mut ctx, 0), Ok(250));
    assert_eq!(ctx.employee_vesting.total_withdraw, 500);
}
