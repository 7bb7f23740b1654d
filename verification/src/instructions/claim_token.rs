use vstd::prelude::*;

use vstd::arithmetic::mul::lemma_mul_inequality;

use crate::error::TokenVestingError;
use crate::pubkey::Pubkey;
use crate::state::employee_vesting::{lemma_vested_bounds, EmployeeVesting};
use crate::state::vesting_account::VestingAccount;

verus! {

/// What the host runtime hands to claim settlement: the schedule being
/// drawn down (written back on success), the treasury ledger it draws from
/// (with the address it was loaded from), the signing beneficiary, and the
/// token mint of the custody balances involved.
pub struct ClaimToken {
    /// Signer paying for the settlement; anyone may settle on the
    /// beneficiary's behalf, funds only ever reach the beneficiary.
    pub fee_payer: Pubkey,
    /// The vesting schedule being claimed against.
    pub employee_vesting: EmployeeVesting,
    /// The treasury ledger the schedule draws from.
    pub vesting_account: VestingAccount,
    /// Address the ledger record was loaded from; must equal the
    /// schedule's back-reference.
    pub vesting_account_key: Pubkey,
    /// The beneficiary the claim is settled for.
    pub beneficiary: Pubkey,
    /// Mint of the custody balances; must be the kind the ledger holds.
    pub mint_token: Pubkey,
}

impl ClaimToken {
    /// The account linkage every claim must establish before any amount is
    /// computed: the claim names the schedule's beneficiary, the supplied
    /// ledger is the one the schedule draws from, and the mint is the kind
    /// that ledger holds.
    pub open spec fn accounts_match(self) -> bool {
        &&& self.beneficiary == self.employee_vesting.beneficiary
        &&& self.vesting_account_key == self.employee_vesting.vesting_account
        &&& self.mint_token == self.vesting_account.mint_token
    }
}

/// Settles a claim at time `now`.
///
/// On success the returned amount is exactly what has linearly vested by
/// `now` minus what was already withdrawn, the schedule's withdrawn total
/// rises to the vested amount, and the caller owes the beneficiary a
/// custody transfer of the returned amount out of the treasury balance.
/// The claim succeeds exactly when the accounts are linked, vesting has
/// started, and something new has vested; otherwise nothing changes and
/// the first violated check names the error.
pub fn handler(ctx: &mut ClaimToken, now: i64) -> (r: Result<i64, TokenVestingError>)
    requires
        old(ctx).employee_vesting.wf(),
    ensures
        final(ctx).fee_payer == old(ctx).fee_payer,
        final(ctx).vesting_account == old(ctx).vesting_account,
        final(ctx).vesting_account_key == old(ctx).vesting_account_key,
        final(ctx).beneficiary == old(ctx).beneficiary,
        final(ctx).mint_token == old(ctx).mint_token,
        final(ctx).employee_vesting == (EmployeeVesting {
            total_withdraw: final(ctx).employee_vesting.total_withdraw,
            ..old(ctx).employee_vesting
        }),
        final(ctx).employee_vesting.wf(),
        final(ctx).employee_vesting.total_withdraw >= old(ctx).employee_vesting.total_withdraw,
        old(ctx).accounts_match() ==> final(ctx).employee_vesting == old(
            ctx,
        ).employee_vesting.after_claim(now as int),
        old(ctx).accounts_match() ==> (match r {
            Ok(amount) => amount as int,
            Err(_) => 0,
        }) == old(ctx).employee_vesting.claim_payout(now as int),
        r is Ok <==> old(ctx).accounts_match()
            && now >= old(ctx).employee_vesting.start_time
            && old(ctx).employee_vesting.claimable(now as int) > 0,
        r matches Ok(amount) ==> {
            &&& amount == old(ctx).employee_vesting.claimable(now as int)
            &&& amount > 0
            &&& final(ctx).employee_vesting.total_withdraw == old(
                ctx,
            ).employee_vesting.vested(now as int)
        },
        r matches Err(e) ==> {
            &&& *final(ctx) == *old(ctx)
            &&& (e == TokenVestingError::BeneficiaryMismatch <==> old(ctx).beneficiary != old(
                ctx,
            ).employee_vesting.beneficiary)
            &&& (e == TokenVestingError::NotAuthorized <==> old(ctx).beneficiary == old(
                ctx,
            ).employee_vesting.beneficiary && (old(ctx).vesting_account_key != old(
                ctx,
            ).employee_vesting.vesting_account || old(ctx).mint_token != old(
                ctx,
            ).vesting_account.mint_token))
            &&& (e == TokenVestingError::VestingNotStarted <==> old(ctx).accounts_match() && now
                < old(ctx).employee_vesting.start_time)
            &&& (e == TokenVestingError::InsufficientVestedAmount <==> old(ctx).accounts_match()
                && now >= old(ctx).employee_vesting.start_time && old(
                ctx,
            ).employee_vesting.claimable(now as int) <= 0)
        },
{
    if ctx.beneficiary != ctx.employee_vesting.beneficiary {
        return Err(TokenVestingError::BeneficiaryMismatch);
    }

    if ctx.vesting_account_key != ctx.employee_vesting.vesting_account {
        return Err(TokenVestingError::NotAuthorized);
    }

    if ctx.mint_token != ctx.vesting_account.mint_token {
        return Err(TokenVestingError::NotAuthorized);
    }

    // Check if vesting has started
    if now < ctx.employee_vesting.start_time {
        return Err(TokenVestingError::VestingNotStarted);
    }

    let start_time = ctx.employee_vesting.start_time;
    let end_time = ctx.employee_vesting.end_time;
    let total_amount = ctx.employee_vesting.total_amount;

    // Widened to 128 bits so that neither the window length nor the
    // product below can overflow
    let total_vesting_time: i128 = end_time as i128 - start_time as i128;
    let time_since_start: i128 = now as i128 - start_time as i128;

    // Cap the elapsed time to the total vesting time
    let elapsed_time: i128 = if time_since_start < total_vesting_time {
        time_since_start
    } else {
        total_vesting_time
    };

    let vested_amount: i64 = if total_vesting_time <= 0 {
        // Degenerate window: everything vests as soon as vesting starts
        total_amount
    } else {
        proof {
            lemma_mul_inequality(
                elapsed_time as int,
                total_vesting_time as int,
                total_amount as int,
            );
            assert((total_vesting_time as int) * (total_amount as int)
                < 0x7fffffffffffffffffffffffffffffff) by (nonlinear_arith)
                requires
                    0 < total_vesting_time as int <= 0xffffffffffffffff,
                    0 < total_amount as int <= 0x7fffffffffffffff,
            ;
            lemma_vested_bounds(ctx.employee_vesting, now as int);
        }
        ((elapsed_time * (total_amount as i128)) / total_vesting_time) as i64
    };

    // What is vested but not yet withdrawn
    let available_to_claim = vested_amount - ctx.employee_vesting.total_withdraw;

    if available_to_claim <= 0 {
        return Err(TokenVestingError::InsufficientVestedAmount);
    }

    // Record the payout; the caller performs the custody transfer of
    // `available_to_claim` from the treasury to the beneficiary
    ctx.employee_vesting.total_withdraw = ctx.employee_vesting.total_withdraw
        + available_to_claim;

    Ok(available_to_claim)
}

} // verus!
