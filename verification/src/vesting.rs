//! The linear vesting formula and the grant-local claim arithmetic: how many
//! tokens a schedule has unlocked by a given instant, and how many of those
//! are still unclaimed.

use vstd::prelude::*;
use vstd::arithmetic::div_mod::{lemma_div_is_ordered, lemma_div_multiples_vanish, lemma_div_pos_is_pos};
use vstd::arithmetic::mul::{lemma_mul_inequality, lemma_mul_nonnegative};
use crate::accounts::{EmployeeAccount, ErrorCode};

verus! {

/// Seconds elapsed since the start of the vesting window, clamped to zero
/// for instants before the window opens: an early claim yields no vested
/// tokens, never a negative or wrapped delta.
pub open spec fn elapsed_since_start(start_time: i64, now: i64) -> int {
    if now >= start_time {
        now - start_time
    } else {
        0
    }
}

/// The linear vesting formula: the whole allocation once the window has
/// closed, otherwise the allocation scaled by the elapsed fraction of the
/// window, rounded down. Only meaningful for a non-empty window.
pub open spec fn vested_math(total_amount: u64, start_time: i64, end_time: i64, now: i64) -> int
    recommends
        end_time != start_time,
{
    if now >= end_time {
        total_amount as int
    } else {
        (total_amount * elapsed_since_start(start_time, now)) / (end_time - start_time)
    }
}

/// Whether the vested-amount multiplication falls outside the 64-bit width
/// it is computed in. Such a claim is rejected rather than wrapped or
/// truncated silently.
pub open spec fn vested_overflows(total_amount: u64, start_time: i64, end_time: i64, now: i64) -> bool {
    &&& now < end_time
    &&& total_amount * elapsed_since_start(start_time, now) > u64::MAX
}

/// What a vested-amount query returns for a given grant and instant: the
/// empty-window rejection, the overflow rejection, or the formula's value.
pub open spec fn vested_amount_decision(grant: EmployeeAccount, now: i64) -> Result<u64, ErrorCode> {
    if grant.end_time == grant.start_time {
        Err(ErrorCode::InvalidVestingPeriod)
    } else if vested_overflows(grant.total_amount, grant.start_time, grant.end_time, now) {
        Err(ErrorCode::CalculationOverflow)
    } else {
        Ok(vested_math(grant.total_amount, grant.start_time, grant.end_time, now) as u64)
    }
}

/// Cumulative entitlement unlocked by `now`, per the linear formula.
///
/// Rejects with `InvalidVestingPeriod` exactly when the window is empty, and
/// with `CalculationOverflow` exactly when the scaled product does not fit in
/// 64 bits; otherwise returns the formula's value.
pub fn vested_amount(grant: &EmployeeAccount, now: i64) -> (r: Result<u64, ErrorCode>)
    ensures
        r == vested_amount_decision(*grant, now),
{
    if grant.end_time == grant.start_time {
        return Err(ErrorCode::InvalidVestingPeriod);
    }
    if now >= grant.end_time {
        return Ok(grant.total_amount);
    }
    if now <= grant.start_time {
        proof {
            assert(elapsed_since_start(grant.start_time, now) == 0);
            assert(grant.total_amount * 0 == 0);
            vstd::arithmetic::div_mod::lemma_div_of0(grant.end_time - grant.start_time);
        }
        return Ok(0u64);
    }
    // Here start_time < now < end_time, so the window and the elapsed part
    // are both positive; the differences exceed i64 but fit i128 and u64.
    let elapsed_wide: i128 = (now as i128) - (grant.start_time as i128);
    let window_wide: i128 = (grant.end_time as i128) - (grant.start_time as i128);
    assert(0 < elapsed_wide < window_wide <= u64::MAX);
    let elapsed: u64 = elapsed_wide as u64;
    let window: u64 = window_wide as u64;
    match grant.total_amount.checked_mul(elapsed) {
        Some(product) => Ok(product / window),
        None => Err(ErrorCode::CalculationOverflow),
    }
}

/// Vested amount not yet withdrawn, clamped to zero should the recorded
/// withdrawals ever exceed the entitlement: the pathological excess is
/// treated as "nothing owed", never as underflow.
pub open spec fn claimable_math(vested: u64, total_withdrawn: u64) -> int {
    if vested >= total_withdrawn {
        vested - total_withdrawn
    } else {
        0
    }
}

/// What a claimable-amount query returns for a given grant and instant: the
/// cliff rejection first, then the vested-amount rejections, then the
/// nothing-to-claim rejection, else the positive claimable amount.
pub open spec fn claimable_amount_decision(grant: EmployeeAccount, now: i64) -> Result<u64, ErrorCode> {
    if now < grant.cliff_time {
        Err(ErrorCode::ClaimNotAvailableYet)
    } else {
        match vested_amount_decision(grant, now) {
            Err(e) => Err(e),
            Ok(vested) => {
                if claimable_math(vested, grant.total_withdrawn) == 0 {
                    Err(ErrorCode::NothingToClaim)
                } else {
                    Ok(claimable_math(vested, grant.total_withdrawn) as u64)
                }
            },
        }
    }
}

/// Tokens the beneficiary may withdraw right now: the vested amount minus
/// what was already withdrawn, after the cliff gate.
///
/// Rejects with `ClaimNotAvailableYet` exactly when `now` is before the
/// cliff, then as `vested_amount` does, then with `NothingToClaim` exactly
/// when nothing new has vested; a returned amount is always positive.
pub fn claimable_amount(grant: &EmployeeAccount, now: i64) -> (r: Result<u64, ErrorCode>)
    ensures
        r == claimable_amount_decision(*grant, now),
{
    if now < grant.cliff_time {
        return Err(ErrorCode::ClaimNotAvailableYet);
    }
    let vested: u64 = match vested_amount(grant, now) {
        Ok(v) => v,
        Err(e) => {
            return Err(e);
        },
    };
    let claimable: u64 = vested.saturating_sub(grant.total_withdrawn);
    if claimable == 0 {
        Err(ErrorCode::NothingToClaim)
    } else {
        Ok(claimable)
    }
}

/// The vested amount never leaves `[0, total_amount]`: a beneficiary can
/// never be owed more than the grant's allocation, at any instant.
pub proof fn lemma_vested_bounds(total_amount: u64, start_time: i64, end_time: i64, now: i64)
    requires
        end_time != start_time,
    ensures
        0 <= vested_math(total_amount, start_time, end_time, now) <= total_amount,
{
    if now >= end_time {
        // Fully vested: exactly the allocation.
    } else {
        let e = elapsed_since_start(start_time, now);
        let w = end_time - start_time;
        if now <= start_time {
            assert(e == 0);
            assert(total_amount * e == 0);
            vstd::arithmetic::div_mod::lemma_div_of0(w);
        } else {
            // start_time < now < end_time, so 0 < e < w.
            assert(0 < e < w);
            lemma_mul_nonnegative(total_amount as int, e);
            lemma_div_pos_is_pos(total_amount * e, w);
            lemma_mul_inequality(e, w, total_amount as int);
            assert(e * total_amount <= w * total_amount);
            lemma_div_is_ordered(total_amount * e, total_amount * w, w);
            lemma_div_multiples_vanish(total_amount as int, w);
            assert((w * total_amount) / w == total_amount);
        }
    }
}

/// The vested amount never decreases as time advances: waiting can only
/// unlock more of the allocation, never less.
pub proof fn lemma_vested_monotonic(total_amount: u64, start_time: i64, end_time: i64, now1: i64, now2: i64)
    requires
        end_time != start_time,
        now1 <= now2,
    ensures
        vested_math(total_amount, start_time, end_time, now1)
            <= vested_math(total_amount, start_time, end_time, now2),
{
    if now2 >= end_time {
        lemma_vested_bounds(total_amount, start_time, end_time, now1);
    } else {
        let e1 = elapsed_since_start(start_time, now1);
        let e2 = elapsed_since_start(start_time, now2);
        let w = end_time - start_time;
        assert(0 <= e1 <= e2);
        if now2 <= start_time {
            assert(e1 == e2);
        } else {
            // now2 is inside the window, so the window is positive.
            assert(0 < w);
            lemma_mul_inequality(e1, e2, total_amount as int);
            assert(e1 * total_amount <= e2 * total_amount);
            lemma_div_is_ordered(total_amount * e1, total_amount * e2, w);
        }
    }
}

/// The grant invariant is stable under the passage of time: a withdrawal
/// total covered by the vested amount at one instant stays covered at every
/// later instant, so a correctly committed claim can never leave the grant
/// overdrawn.
pub proof fn lemma_withdrawn_stays_covered(grant: EmployeeAccount, now1: i64, now2: i64)
    requires
        grant.end_time != grant.start_time,
        grant.total_withdrawn <= vested_math(grant.total_amount, grant.start_time, grant.end_time, now1),
        now1 <= now2,
    ensures
        grant.total_withdrawn <= vested_math(grant.total_amount, grant.start_time, grant.end_time, now2),
{
    lemma_vested_monotonic(grant.total_amount, grant.start_time, grant.end_time, now1, now2);
}

/// At the instant the window opens nothing has vested yet. This needs the
/// window to run forward (`start_time < end_time`): were the window
/// reversed, `start_time` would lie past its end and the whole allocation
/// would count as vested.
pub proof fn lemma_vested_at_start(total_amount: u64, start_time: i64, end_time: i64)
    requires
        start_time < end_time,
    ensures
        vested_math(total_amount, start_time, end_time, start_time) == 0,
{
    let w = end_time - start_time;
    assert(elapsed_since_start(start_time, start_time) == 0);
    assert(total_amount * 0 == 0);
    vstd::arithmetic::div_mod::lemma_div_of0(w);
}

/// From the end of the window on, the vested amount is the whole allocation
/// and stays there.
pub proof fn lemma_vested_after_end(total_amount: u64, start_time: i64, end_time: i64, t: i64)
    requires
        t >= end_time,
    ensures
        vested_math(total_amount, start_time, end_time, t) == total_amount,
{
}

} // verus!
