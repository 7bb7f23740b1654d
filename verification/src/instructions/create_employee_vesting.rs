use vstd::prelude::*;

use crate::error::TokenVestingError;
use crate::pubkey::Pubkey;
use crate::state::employee_vesting::EmployeeVesting;
use crate::state::vesting_account::VestingAccount;

verus! {

/// What the host runtime hands to schedule creation: the signer, the
/// treasury ledger the schedule will draw from (with the address it was
/// loaded from), and the beneficiary. The schedule's own address is derived
/// from (ledger address, beneficiary), so the runtime refuses a second
/// schedule for the same pair before this code runs.
pub struct CreateEmployeeVesting {
    /// Signer requesting the schedule; must be the ledger's owner.
    pub fee_payer: Pubkey,
    /// The treasury ledger the new schedule draws from.
    pub vesting_account: VestingAccount,
    /// Address the ledger record was loaded from; stored in the schedule
    /// as its back-reference.
    pub vesting_account_key: Pubkey,
    /// Identity entitled to the released funds.
    pub beneficiary: Pubkey,
}

/// Registers a beneficiary's vesting schedule against a treasury ledger.
///
/// Succeeds exactly when the caller owns the ledger, the window is
/// non-empty (`start_time < end_time`) and the amount is positive; the
/// new schedule then starts with nothing withdrawn. Each failure reports
/// the first violated check: authorization, then the time window, then
/// the amount.
pub fn handler(
    ctx: &CreateEmployeeVesting,
    start_time: i64,
    end_time: i64,
    total_amount: i64,
) -> (r: Result<EmployeeVesting, TokenVestingError>)
    ensures
        r is Ok <==> ctx.vesting_account.owner == ctx.fee_payer && start_time < end_time
            && total_amount > 0,
        r matches Ok(ev) ==> ev == (EmployeeVesting {
            beneficiary: ctx.beneficiary,
            start_time,
            end_time,
            total_amount,
            total_withdraw: 0,
            vesting_account: ctx.vesting_account_key,
        }),
        r matches Ok(ev) ==> ev.wf(),
        r matches Err(e) ==> {
            &&& (e == TokenVestingError::NotAuthorized <==> ctx.vesting_account.owner
                != ctx.fee_payer)
            &&& (e == TokenVestingError::InvalidVestingSchedule <==> ctx.vesting_account.owner
                == ctx.fee_payer && start_time >= end_time)
            &&& (e == TokenVestingError::InvalidAmount <==> ctx.vesting_account.owner
                == ctx.fee_payer && start_time < end_time && total_amount <= 0)
        },
{
    if ctx.vesting_account.owner != ctx.fee_payer {
        return Err(TokenVestingError::NotAuthorized);
    }

    if start_time >= end_time {
        return Err(TokenVestingError::InvalidVestingSchedule);
    }

    if total_amount <= 0 {
        return Err(TokenVestingError::InvalidAmount);
    }

    Ok(EmployeeVesting {
        beneficiary: ctx.beneficiary,
        start_time,
        end_time,
        total_amount,
        total_withdraw: 0,
        vesting_account: ctx.vesting_account_key,
    })
}

} // verus!
