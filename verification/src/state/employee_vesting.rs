use vstd::prelude::*;

use vstd::arithmetic::div_mod::{lemma_div_is_ordered, lemma_div_multiples_vanish,
    lemma_div_of0, lemma_div_pos_is_pos};
use vstd::arithmetic::mul::lemma_mul_inequality;

use crate::pubkey::Pubkey;

verus! {

/// A per-beneficiary vesting schedule, scoped under one treasury ledger.
///
/// The schedule releases `total_amount` units linearly between `start_time`
/// and `end_time` and records in `total_withdraw` what has already been paid
/// out. It is created once by the ledger's owner and mutated only by claim
/// settlement, which increases `total_withdraw`.
#[derive(Clone, Copy, Debug, PartialEq, Eq, Structural)]
pub struct EmployeeVesting {
    /// Identity entitled to the released funds.
    pub beneficiary: Pubkey,
    /// When accrual begins (seconds).
    pub start_time: i64,
    /// When accrual ends (seconds).
    pub end_time: i64,
    /// Total units released over the whole schedule; positive at creation.
    pub total_amount: i64,
    /// Cumulative units already paid out; starts at 0, never decreases.
    pub total_withdraw: i64,
    /// Address of the treasury ledger this schedule draws from.
    pub vesting_account: Pubkey,
}

impl EmployeeVesting {
    /// Well-formedness: creation establishes it and claim settlement
    /// preserves it. The withdrawn total never escapes `[0, total_amount]`.
    pub open spec fn wf(self) -> bool {
        &&& 0 < self.total_amount
        &&& 0 <= self.total_withdraw <= self.total_amount
    }

    /// Length of the release window.
    pub open spec fn total_vesting_time(self) -> int {
        self.end_time - self.start_time
    }

    /// Accrual time counted at `now`: the time since `start_time`, capped
    /// at the length of the release window.
    pub open spec fn elapsed(self, now: int) -> int {
        if now - self.start_time <= self.total_vesting_time() {
            now - self.start_time
        } else {
            self.total_vesting_time()
        }
    }

    /// Units vested by `now` under linear accrual: nothing before
    /// `start_time`; everything at once for a degenerate window
    /// (`end_time <= start_time`); otherwise the truncating division
    /// `elapsed * total_amount / total_vesting_time`.
    pub open spec fn vested(self, now: int) -> int {
        if now < self.start_time {
            0
        } else if self.total_vesting_time() <= 0 {
            self.total_amount as int
        } else {
            self.elapsed(now) * self.total_amount / self.total_vesting_time()
        }
    }

    /// What a claim at `now` would pay out: vested so far, minus what was
    /// already withdrawn. A claim succeeds exactly when this is positive.
    pub open spec fn claimable(self, now: int) -> int {
        self.vested(now) - self.total_withdraw
    }

    /// The schedule after a claim attempt at `now` by the rightful
    /// beneficiary against the right ledger: a successful claim raises the
    /// withdrawn total to the vested amount; a failed one changes nothing.
    pub open spec fn after_claim(self, now: int) -> EmployeeVesting {
        if now >= self.start_time && self.claimable(now) > 0 {
            EmployeeVesting { total_withdraw: self.vested(now) as i64, ..self }
        } else {
            self
        }
    }

    /// What that claim attempt pays out (0 when it fails).
    pub open spec fn claim_payout(self, now: int) -> int {
        if now >= self.start_time && self.claimable(now) > 0 {
            self.claimable(now)
        } else {
            0
        }
    }

    /// The phase a schedule is in at `now` — derived from the clock, never
    /// stored.
    pub open spec fn state_at(self, now: int) -> VestingState {
        if now < self.start_time {
            VestingState::Pending
        } else if now < self.end_time {
            VestingState::Accruing
        } else {
            VestingState::FullyVested
        }
    }
}

/// The phases a schedule passes through: waiting for the window to open,
/// accruing inside it, fully vested past it.
pub enum VestingState {
    Pending,
    Accruing,
    FullyVested,
}

/// A schedule's phase never regresses as time moves forward: pending can
/// only give way to accruing or fully vested, and fully vested is final.
pub proof fn lemma_state_never_regresses(ev: EmployeeVesting, now1: int, now2: int)
    requires
        now1 <= now2,
    ensures
        ev.state_at(now1) is Accruing ==> !(ev.state_at(now2) is Pending),
        ev.state_at(now1) is FullyVested ==> ev.state_at(now2) is FullyVested,
{
}

/// The vested amount never leaves `[0, total_amount]`.
pub proof fn lemma_vested_bounds(ev: EmployeeVesting, now: int)
    requires
        ev.wf(),
    ensures
        0 <= ev.vested(now) <= ev.total_amount,
{
    if now >= ev.start_time && ev.total_vesting_time() > 0 {
        let e = ev.elapsed(now);
        let t = ev.total_amount as int;
        let d = ev.total_vesting_time();
        lemma_mul_inequality(0, e, t);
        lemma_div_pos_is_pos(e * t, d);
        lemma_mul_inequality(e, d, t);
        lemma_div_is_ordered(e * t, d * t, d);
        lemma_div_multiples_vanish(t, d);
        assert(d * t == t * d) by (nonlinear_arith);
    }
}

/// Vesting is monotone: as time moves forward, the vested amount never
/// shrinks.
pub proof fn lemma_vested_monotonic(ev: EmployeeVesting, now1: int, now2: int)
    requires
        ev.wf(),
        now1 <= now2,
    ensures
        ev.vested(now1) <= ev.vested(now2),
{
    lemma_vested_bounds(ev, now1);
    lemma_vested_bounds(ev, now2);
    if now1 >= ev.start_time && ev.total_vesting_time() > 0 {
        let t = ev.total_amount as int;
        let d = ev.total_vesting_time();
        lemma_mul_inequality(ev.elapsed(now1), ev.elapsed(now2), t);
        lemma_div_is_ordered(ev.elapsed(now1) * t, ev.elapsed(now2) * t, d);
    }
}

/// At the start of the window nothing is vested, except in the degenerate
/// case `end_time <= start_time`, where everything vests at once.
pub proof fn lemma_vested_at_start(ev: EmployeeVesting)
    requires
        ev.wf(),
    ensures
        ev.vested(ev.start_time as int) == if ev.total_vesting_time() <= 0 {
            ev.total_amount as int
        } else {
            0
        },
{
    if ev.total_vesting_time() > 0 {
        let t = ev.total_amount as int;
        assert(ev.elapsed(ev.start_time as int) == 0);
        assert(0 * t == 0) by (nonlinear_arith);
        lemma_div_of0(ev.total_vesting_time());
    }
}

/// Once `now` has reached both the start and the end of the window, the
/// whole `total_amount` is vested.
pub proof fn lemma_fully_vested(ev: EmployeeVesting, now: int)
    requires
        ev.wf(),
        now >= ev.start_time,
        now >= ev.end_time,
    ensures
        ev.vested(now) == ev.total_amount,
{
    let t = ev.total_amount as int;
    let d = ev.total_vesting_time();
    if d > 0 {
        assert(ev.elapsed(now) == d);
        lemma_div_multiples_vanish(t, d);
        assert(d * t == t * d) by (nonlinear_arith);
    }
}

} // verus!
