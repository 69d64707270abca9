//! The vesting calculator: pure accrual arithmetic.
//!
//! Funds vest linearly: after `elapsed` seconds at `rate` asset units per
//! second, `elapsed * rate` units have vested, capped at the deposited total.

use vstd::prelude::*;

use crate::errors::ErrorCode;

verus! {

/// The amount vested after `elapsed` seconds at `rate` units per second,
/// capped at `total_deposited`.
pub open spec fn earned_spec(elapsed: int, rate: int, total_deposited: int) -> int {
    if elapsed * rate <= total_deposited {
        elapsed * rate
    } else {
        total_deposited
    }
}

/// Computes the vested amount for a stream with accrual rate `rate` and
/// deposited cap `total_deposited` after `elapsed` seconds.
///
/// Fails with `InvalidTimestamp` on a negative elapsed time and with
/// `MathOverflow` when the uncapped accrual does not fit in 64 bits;
/// otherwise returns exactly the capped linear accrual.
pub fn earned(elapsed: i64, rate: u64, total_deposited: u64) -> (r: Result<u64, ErrorCode>)
    ensures
        elapsed < 0 ==> r == Err::<u64, ErrorCode>(ErrorCode::InvalidTimestamp),
        elapsed >= 0 && elapsed * rate > u64::MAX ==> r == Err::<u64, ErrorCode>(
            ErrorCode::MathOverflow,
        ),
        elapsed >= 0 && elapsed * rate <= u64::MAX ==> r == Ok::<u64, ErrorCode>(
            earned_spec(elapsed as int, rate as int, total_deposited as int) as u64,
        ),
{
    if elapsed < 0 {
        return Err(ErrorCode::InvalidTimestamp);
    }
    let secs: u64 = elapsed as u64;
    match secs.checked_mul(rate) {
        None => Err(ErrorCode::MathOverflow),
        Some(raw) => {
            if raw <= total_deposited {
                Ok(raw)
            } else {
                Ok(total_deposited)
            }
        },
    }
}

/// Computes how much of a vested amount is still withdrawable.
///
/// Fails with `InsufficientBalance` when more has already been withdrawn
/// than has vested; the result is never negative.
pub fn available(earned_amount: u64, withdrawn_amount: u64) -> (r: Result<u64, ErrorCode>)
    ensures
        withdrawn_amount > earned_amount ==> r == Err::<u64, ErrorCode>(
            ErrorCode::InsufficientBalance,
        ),
        withdrawn_amount <= earned_amount ==> r == Ok::<u64, ErrorCode>(
            (earned_amount - withdrawn_amount) as u64,
        ),
{
    match earned_amount.checked_sub(withdrawn_amount) {
        None => Err(ErrorCode::InsufficientBalance),
        Some(avail) => Ok(avail),
    }
}

/// Monotonicity of vesting: with the rate and the deposited cap fixed, the
/// vested amount never decreases as elapsed time grows.
pub proof fn lemma_earned_monotonic(t1: int, t2: int, rate: int, total_deposited: int)
    requires
        0 <= t1 <= t2,
        0 <= rate,
    ensures
        earned_spec(t1, rate, total_deposited) <= earned_spec(t2, rate, total_deposited),
{
    assert(t1 * rate <= t2 * rate) by (nonlinear_arith)
        requires
            0 <= t1 <= t2,
            0 <= rate,
    ;
}

/// The vesting cap: for any non-negative elapsed time and rate, the vested
/// amount stays between zero and the deposited total.
pub proof fn lemma_earned_cap(elapsed: int, rate: int, total_deposited: int)
    requires
        0 <= elapsed,
        0 <= rate,
        0 <= total_deposited,
    ensures
        0 <= earned_spec(elapsed, rate, total_deposited) <= total_deposited,
{
    assert(0 <= elapsed * rate) by (nonlinear_arith)
        requires
            0 <= elapsed,
            0 <= rate,
    ;
}

} // verus!
