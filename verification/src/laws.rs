//! Laws of claim settlement that span more than one call: no schedule can be
//! overdrawn by repeated claims, an immediate repeat claim pays nothing, and
//! over a schedule's whole lifetime the payouts sum to exactly the scheduled
//! total. They are stated over the claim transition [`EmployeeVesting::after_claim`]
//! and payout [`EmployeeVesting::claim_payout`], which the contract of
//! [`crate::claim_token`] ties to the executable settlement.

use vstd::prelude::*;

use crate::state::employee_vesting::{lemma_fully_vested, lemma_vested_bounds,
    lemma_vested_monotonic, EmployeeVesting};

verus! {

/// Schedule state after a whole series of claim attempts, earliest first.
pub open spec fn after_claims(ev: EmployeeVesting, times: Seq<int>) -> EmployeeVesting
    decreases times.len(),
{
    if times.len() == 0 {
        ev
    } else {
        after_claims(ev.after_claim(times[0]), times.drop_first())
    }
}

/// Total paid out over that series of claim attempts.
pub open spec fn total_paid(ev: EmployeeVesting, times: Seq<int>) -> int
    decreases times.len(),
{
    if times.len() == 0 {
        0
    } else {
        ev.claim_payout(times[0]) + total_paid(ev.after_claim(times[0]), times.drop_first())
    }
}

/// One claim attempt keeps the schedule well-formed, never lowers the
/// withdrawn total, changes nothing but the withdrawn total, and pays out
/// exactly the rise of the withdrawn total.
pub proof fn lemma_after_claim(ev: EmployeeVesting, now: int)
    requires
        ev.wf(),
    ensures
        ev.after_claim(now).wf(),
        ev.after_claim(now) == (EmployeeVesting {
            total_withdraw: ev.after_claim(now).total_withdraw,
            ..ev
        }),
        ev.after_claim(now).total_withdraw >= ev.total_withdraw,
        ev.claim_payout(now) == ev.after_claim(now).total_withdraw - ev.total_withdraw,
        ev.after_claim(now).total_withdraw >= ev.vested(now),
{
    lemma_vested_bounds(ev, now);
}

/// A schedule never pays more between two claims than what vested in
/// between: once the withdrawn total has caught up with `vested(now1)` —
/// which a successful claim at `now1` guarantees — a claim at any later
/// `now2` can transfer at most `vested(now2) - vested(now1)`.
pub proof fn lemma_no_overdraw_between_claims(ev: EmployeeVesting, now1: int, now2: int)
    requires
        ev.wf(),
        now1 <= now2,
        ev.total_withdraw >= ev.vested(now1),
    ensures
        ev.claim_payout(now2) <= ev.vested(now2) - ev.vested(now1),
{
    lemma_vested_monotonic(ev, now1, now2);
}

/// Claiming is idempotent in time: right after a successful claim at `now`
/// the withdrawn total equals the vested amount, so a second claim at the
/// same `now` finds nothing claimable — it pays nothing and leaves the
/// schedule unchanged. (By the claim contract, the second call then fails
/// with `InsufficientVestedAmount`.)
pub proof fn lemma_second_claim_pays_nothing(ev: EmployeeVesting, now: int)
    requires
        ev.wf(),
        ev.total_withdraw == ev.vested(now),
    ensures
        ev.claimable(now) <= 0,
        ev.claim_payout(now) == 0,
        ev.after_claim(now) == ev,
{
}

/// Over any series of claim attempts the payouts telescope: their sum is
/// exactly the rise of the withdrawn total, and the schedule stays
/// well-formed throughout.
pub proof fn lemma_total_paid_telescopes(ev: EmployeeVesting, times: Seq<int>)
    requires
        ev.wf(),
    ensures
        after_claims(ev, times).wf(),
        total_paid(ev, times) == after_claims(ev, times).total_withdraw - ev.total_withdraw,
    decreases times.len(),
{
    if times.len() > 0 {
        lemma_after_claim(ev, times[0]);
        lemma_total_paid_telescopes(ev.after_claim(times[0]), times.drop_first());
    }
}

/// Once the last attempt of a series happens at or after both the start and
/// the end of the window, the series leaves the withdrawn total at exactly
/// `total_amount` — whether that final claim succeeds or finds everything
/// already withdrawn.
pub proof fn lemma_final_claim_settles(ev: EmployeeVesting, times: Seq<int>)
    requires
        ev.wf(),
        times.len() > 0,
        times.last() >= ev.start_time,
        times.last() >= ev.end_time,
    ensures
        after_claims(ev, times).total_withdraw == ev.total_amount,
    decreases times.len(),
{
    lemma_after_claim(ev, times[0]);
    if times.len() == 1 {
        lemma_fully_vested(ev, times[0]);
        assert(times.drop_first().len() == 0);
        assert(after_claims(ev.after_claim(times[0]), times.drop_first()) == ev.after_claim(
            times[0],
        ));
    } else {
        assert(times.drop_first().last() == times.last());
        lemma_final_claim_settles(ev.after_claim(times[0]), times.drop_first());
    }
}

/// Round trip: starting from a fresh schedule (nothing withdrawn), the sum
/// of all successful claim payouts over the schedule's lifetime is exactly
/// `total_amount`, provided the last claim attempt comes once the window
/// has fully elapsed.
pub proof fn lemma_claims_round_trip(ev: EmployeeVesting, times: Seq<int>)
    requires
        ev.wf(),
        ev.total_withdraw == 0,
        times.len() > 0,
        times.last() >= ev.start_time,
        times.last() >= ev.end_time,
    ensures
        total_paid(ev, times) == ev.total_amount,
{
    lemma_total_paid_telescopes(ev, times);
    lemma_final_claim_settles(ev, times);
}

} // verus!
