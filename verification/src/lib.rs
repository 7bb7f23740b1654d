//! Linear token vesting.
//!
//! A company treasury ledger ([`VestingAccount`]) holds custody of one token
//! mint's balance. The ledger's owner registers per-beneficiary schedules
//! ([`EmployeeVesting`]) that release a fixed total linearly between a start
//! and an end time. Anyone may then settle a claim on a beneficiary's behalf:
//! the settlement computes the amount accrued so far, subtracts what was
//! already withdrawn, and authorizes a custody transfer of the difference.
//!
//! The settlement logic is pure bookkeeping over plain values. The host
//! runtime that persists records, derives addresses, holds balances and
//! supplies the clock is a collaborator outside this crate: it hands the
//! entry points the current time and the account values it loaded, and
//! carries out the transfer the claim settlement authorizes.

use vstd::prelude::*;

pub mod error;
pub mod instructions;
pub mod laws;
pub mod pubkey;
pub mod state;

pub use error::TokenVestingError;
pub use instructions::claim_token::ClaimToken;
pub use instructions::create_employee_vesting::CreateEmployeeVesting;
pub use instructions::create_vesting_account::CreateVestingAccount;
pub use pubkey::Pubkey;
pub use state::employee_vesting::EmployeeVesting;
pub use state::vesting_account::VestingAccount;

verus! {

/// Creates a new vesting account for a company: a treasury ledger owned by
/// the paying signer, holding custody of one token mint's balance. The host
/// runtime derives the ledger's and the custody balance's addresses from
/// `company_name` and refuses a duplicate name before this runs.
pub fn create_vesting_account(
    ctx: &CreateVestingAccount,
    company_name: String,
) -> (va: VestingAccount)
    ensures
        va.owner == ctx.fee_payer,
        va.mint_token == ctx.mint_token,
        va.company_name@ == company_name@,
        va.treasury_token_account == ctx.treasury_token_account,
        va.treasury_bump == ctx.treasury_bump,
        va.bump == ctx.vesting_account_bump,
{
    instructions::create_vesting_account::handler(ctx, company_name)
}

/// Creates a new employee vesting schedule under a treasury ledger.
/// Only the ledger's owner may create one; the window must be non-empty
/// and the amount positive. The new schedule starts with nothing withdrawn.
pub fn create_employee_vesting(
    ctx: &CreateEmployeeVesting,
    start_time: i64,
    end_time: i64,
    total_amount: i64,
) -> (r: Result<EmployeeVesting, TokenVestingError>)
    ensures
        r is Ok <==> ctx.vesting_account.owner == ctx.fee_payer && start_time < end_time
            && total_amount > 0,
        r matches Ok(ev) ==> ev == (EmployeeVesting {
            beneficiary: ctx.beneficiary,
            start_time,
            end_time,
            total_amount,
            total_withdraw: 0,
            vesting_account: ctx.vesting_account_key,
        }),
        r matches Ok(ev) ==> ev.wf(),
        r matches Err(e) ==> {
            &&& (e == TokenVestingError::NotAuthorized <==> ctx.vesting_account.owner
                != ctx.fee_payer)
            &&& (e == TokenVestingError::InvalidVestingSchedule <==> ctx.vesting_account.owner
                == ctx.fee_payer && start_time >= end_time)
            &&& (e == TokenVestingError::InvalidAmount <==> ctx.vesting_account.owner
                == ctx.fee_payer && start_time < end_time && total_amount <= 0)
        },
{
    instructions::create_employee_vesting::handler(ctx, start_time, end_time, total_amount)
}

/// Claims whatever has newly vested for a beneficiary at time `now`.
/// On success the schedule's withdrawn total rises to the vested amount and
/// the caller owes the beneficiary a custody transfer of the returned
/// amount out of the treasury balance; on failure nothing changes.
pub fn claim_token(ctx: &mut ClaimToken, now: i64) -> (r: Result<i64, TokenVestingError>)
    requires
        old(ctx).employee_vesting.wf(),
    ensures
        final(ctx).fee_payer == old(ctx).fee_payer,
        final(ctx).vesting_account == old(ctx).vesting_account,
        final(ctx).vesting_account_key == old(ctx).vesting_account_key,
        final(ctx).beneficiary == old(ctx).beneficiary,
        final(ctx).mint_token == old(ctx).mint_token,
        final(ctx).employee_vesting == (EmployeeVesting {
            total_withdraw: final(ctx).employee_vesting.total_withdraw,
            ..old(ctx).employee_vesting
        }),
        final(ctx).employee_vesting.wf(),
        final(ctx).employee_vesting.total_withdraw >= old(ctx).employee_vesting.total_withdraw,
        old(ctx).accounts_match() ==> final(ctx).employee_vesting == old(
            ctx,
        ).employee_vesting.after_claim(now as int),
        old(ctx).accounts_match() ==> (match r {
            Ok(amount) => amount as int,
            Err(_) => 0,
        }) == old(ctx).employee_vesting.claim_payout(now as int),
        r is Ok <==> old(ctx).accounts_match() && now >= old(ctx).employee_vesting.start_time
            && old(ctx).employee_vesting.claimable(now as int) > 0,
        r matches Ok(amount) ==> {
            &&& amount == old(ctx).employee_vesting.claimable(now as int)
            &&& amount > 0
            &&& final(ctx).employee_vesting.total_withdraw == old(
                ctx,
            ).employee_vesting.vested(now as int)
        },
        r matches Err(e) ==> {
            &&& *final(ctx) == *old(ctx)
            &&& (e == TokenVestingError::BeneficiaryMismatch <==> old(ctx).beneficiary != old(
                ctx,
            ).employee_vesting.beneficiary)
            &&& (e == TokenVestingError::NotAuthorized <==> old(ctx).beneficiary == old(
                ctx,
            ).employee_vesting.beneficiary && (old(ctx).vesting_account_key != old(
                ctx,
            ).employee_vesting.vesting_account || old(ctx).mint_token != old(
                ctx,
            ).vesting_account.mint_token))
            &&& (e == TokenVestingError::VestingNotStarted <==> old(ctx).accounts_match() && now
                < old(ctx).employee_vesting.start_time)
            &&& (e == TokenVestingError::InsufficientVestedAmount <==> old(ctx).accounts_match()
                && now >= old(ctx).employee_vesting.start_time && old(
                ctx,
            ).employee_vesting.claimable(now as int) <= 0)
        },
{
    instructions::claim_token::handler(ctx, now)
}

} // verus!
