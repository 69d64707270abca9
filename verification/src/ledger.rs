//! The stream ledger: the state machine over `PaymentStream`.
//!
//! Each transition is a pure function from the current record, the caller's
//! identity, an injected clock reading, and (where it matters) the current
//! escrow balance, to the next record and the amount of value that must move.
//! The host performs the transfer first and commits the returned record only
//! if the transfer succeeded; on an `Err` nothing moves and the record is
//! unchanged, so a transition is all-or-nothing.
//!
//! Every transition's behaviour is pinned by a spec-level outcome function,
//! total over all inputs, which states exactly which error each input is
//! answered with and what the next record is on success.

use vstd::prelude::*;

use crate::errors::ErrorCode;
use crate::state::AccountId;
use crate::state::PaymentStream;
use crate::vesting;
use crate::vesting::earned_spec;

verus! {

/// Fractional places the escrowed asset must use.
pub const SUPPORTED_ASSET_DECIMALS: u8 = 6;

/// Seconds of employee inactivity after which the employer may reclaim
/// the escrow: 30 days.
pub const INACTIVITY_TIMEOUT_SECS: i64 = 30 * 24 * 60 * 60;

/// Outcome of `create_stream`: the record to persist and the deposit to move
/// from the employer into escrow, or the error.
pub open spec fn create_outcome(
    employer: AccountId,
    employee: AccountId,
    mint: AccountId,
    vault: AccountId,
    asset_decimals: u8,
    rate: u64,
    deposit: u64,
    now: i64,
    bump: u8,
) -> Result<(PaymentStream, u64), ErrorCode> {
    if asset_decimals != SUPPORTED_ASSET_DECIMALS {
        Err(ErrorCode::UnsupportedAsset)
    } else {
        Ok(
            (
                PaymentStream {
                    employer,
                    employee,
                    mint,
                    vault,
                    rate,
                    total_deposited: deposit,
                    withdrawn_amount: 0,
                    created_at: now,
                    employee_last_activity_at: now,
                    is_active: true,
                    bump,
                },
                deposit,
            ),
        )
    }
}

/// Outcome of `withdraw`: the next record and the amount the escrow pays the
/// employee, or the error.
pub open spec fn withdraw_outcome(
    s: PaymentStream,
    caller: AccountId,
    amount: u64,
    now: i64,
) -> Result<(PaymentStream, u64), ErrorCode> {
    if !s.is_active {
        Err(ErrorCode::StreamInactive)
    } else if caller != s.employee {
        Err(ErrorCode::UnauthorizedEmployee)
    } else if now - s.created_at < 0 || now - s.created_at > i64::MAX {
        Err(ErrorCode::InvalidTimestamp)
    } else if (now - s.created_at) * s.rate > u64::MAX {
        Err(ErrorCode::MathOverflow)
    } else {
        let vested = earned_spec(now - s.created_at, s.rate as int, s.total_deposited as int);
        if s.withdrawn_amount > vested {
            Err(ErrorCode::InsufficientBalance)
        } else if amount > vested - s.withdrawn_amount {
            Err(ErrorCode::InsufficientBalance)
        } else {
            Ok(
                (
                    PaymentStream {
                        withdrawn_amount: (s.withdrawn_amount + amount) as u64,
                        employee_last_activity_at: now,
                        ..s
                    },
                    amount,
                ),
            )
        }
    }
}

/// Outcome of `refresh_activity`: the next record, or the error. No value moves.
pub open spec fn refresh_outcome(s: PaymentStream, caller: AccountId, now: i64) -> Result<
    PaymentStream,
    ErrorCode,
> {
    if !s.is_active {
        Err(ErrorCode::StreamInactive)
    } else if caller != s.employee {
        Err(ErrorCode::UnauthorizedEmployee)
    } else {
        Ok(PaymentStream { employee_last_activity_at: now, ..s })
    }
}

/// Outcome of `top_up_stream`: the next record and the amount the employer
/// moves into escrow, or the error.
pub open spec fn top_up_outcome(s: PaymentStream, caller: AccountId, extra: u64) -> Result<
    (PaymentStream, u64),
    ErrorCode,
> {
    if !s.is_active {
        Err(ErrorCode::StreamInactive)
    } else if caller != s.employer {
        Err(ErrorCode::UnauthorizedEmployer)
    } else if s.total_deposited + extra > u64::MAX {
        Err(ErrorCode::MathOverflow)
    } else {
        Ok((PaymentStream { total_deposited: (s.total_deposited + extra) as u64, ..s }, extra))
    }
}

/// Outcome of `employer_emergency_withdraw`: the next record and the amount
/// the escrow pays back to the employer (the whole escrow balance, surplus
/// included), or the error.
pub open spec fn emergency_outcome(
    s: PaymentStream,
    caller: AccountId,
    escrow_balance: u64,
    now: i64,
) -> Result<(PaymentStream, u64), ErrorCode> {
    if caller != s.employer {
        Err(ErrorCode::UnauthorizedEmployer)
    } else if now - s.employee_last_activity_at < 0 {
        Err(ErrorCode::InvalidTimestamp)
    } else if now - s.employee_last_activity_at < INACTIVITY_TIMEOUT_SECS {
        Err(ErrorCode::EmployeeStillActive)
    } else if s.withdrawn_amount > s.total_deposited {
        Err(ErrorCode::InsufficientBalance)
    } else if escrow_balance < s.total_deposited - s.withdrawn_amount {
        Err(ErrorCode::VaultBalanceInvariantViolated)
    } else {
        Ok(
            (
                PaymentStream {
                    withdrawn_amount: s.total_deposited,
                    is_active: false,
                    ..s
                },
                escrow_balance,
            ),
        )
    }
}

/// Outcome of `close_stream`: `Ok` exactly when the record and its escrow may
/// be destroyed. No value moves: the escrow must already be empty.
pub open spec fn close_outcome(s: PaymentStream, caller: AccountId, escrow_balance: u64) -> Result<
    (),
    ErrorCode,
> {
    if caller != s.employer {
        Err(ErrorCode::UnauthorizedEmployer)
    } else if s.is_active {
        Err(ErrorCode::StreamStillActive)
    } else if escrow_balance != 0 {
        Err(ErrorCode::VaultNotEmpty)
    } else {
        Ok(())
    }
}

/// Creates a stream record.
///
/// The asset must use exactly `SUPPORTED_ASSET_DECIMALS` fractional places
/// (else `UnsupportedAsset`). On success the returned record starts active
/// with nothing withdrawn and both timestamps at `now`, and the returned
/// amount — the initial deposit — must move into escrow atomically with the
/// record's creation.
pub fn create_stream(
    employer: AccountId,
    employee: AccountId,
    mint: AccountId,
    vault: AccountId,
    asset_decimals: u8,
    rate: u64,
    deposit: u64,
    now: i64,
    bump: u8,
) -> (r: Result<(PaymentStream, u64), ErrorCode>)
    ensures
        r == create_outcome(employer, employee, mint, vault, asset_decimals, rate, deposit, now, bump),
        r matches Ok(su) ==> su.0.wf() && su.0.is_active && su.1 == deposit,
{
    if asset_decimals != SUPPORTED_ASSET_DECIMALS {
        return Err(ErrorCode::UnsupportedAsset);
    }
    let stream = PaymentStream {
        employer,
        employee,
        mint,
        vault,
        rate,
        total_deposited: deposit,
        withdrawn_amount: 0,
        created_at: now,
        employee_last_activity_at: now,
        is_active: true,
        bump,
    };
    Ok((stream, deposit))
}

/// Pays vested funds out to the employee.
///
/// Requires an active stream and the employee as caller. The vested amount is
/// computed by the vesting calculator from the single clock reading `now`;
/// `amount` must not exceed the vested-but-unwithdrawn portion. On success
/// the returned amount — `amount` itself — is what the escrow pays the
/// employee, and the call counts as employee activity. On any error the
/// record is unchanged.
pub fn withdraw(stream: &mut PaymentStream, caller: AccountId, amount: u64, now: i64) -> (r:
    Result<u64, ErrorCode>)
    ensures
        ({
            let o = withdraw_outcome(*old(stream), caller, amount, now);
            match o {
                Ok(su) => r == Ok::<u64, ErrorCode>(su.1) && *final(stream) == su.0,
                Err(e) => r == Err::<u64, ErrorCode>(e) && *final(stream) == *old(stream),
            }
        }),
        old(stream).wf() ==> final(stream).wf(),
        final(stream).is_active == old(stream).is_active,
        !old(stream).is_active ==> *final(stream) == *old(stream),
{
    if !stream.is_active {
        return Err(ErrorCode::StreamInactive);
    }
    if caller != stream.employee {
        return Err(ErrorCode::UnauthorizedEmployee);
    }
    let elapsed = match now.checked_sub(stream.created_at) {
        None => {
            return Err(ErrorCode::InvalidTimestamp);
        },
        Some(e) => e,
    };
    let vested = match vesting::earned(elapsed, stream.rate, stream.total_deposited) {
        Err(e) => {
            return Err(e);
        },
        Ok(v) => v,
    };
    let avail = match vesting::available(vested, stream.withdrawn_amount) {
        Err(e) => {
            return Err(e);
        },
        Ok(a) => a,
    };
    if amount > avail {
        return Err(ErrorCode::InsufficientBalance);
    }
    stream.withdrawn_amount = stream.withdrawn_amount + amount;
    stream.employee_last_activity_at = now;
    Ok(amount)
}

/// Records employee activity at `now`, and nothing else.
///
/// Requires an active stream and the employee as caller; no value moves.
/// On any error the record is unchanged.
pub fn refresh_activity(stream: &mut PaymentStream, caller: AccountId, now: i64) -> (r: Result<
    (),
    ErrorCode,
>)
    ensures
        ({
            let o = refresh_outcome(*old(stream), caller, now);
            match o {
                Ok(s2) => r == Ok::<(), ErrorCode>(()) && *final(stream) == s2,
                Err(e) => r == Err::<(), ErrorCode>(e) && *final(stream) == *old(stream),
            }
        }),
        old(stream).wf() ==> final(stream).wf(),
        final(stream).is_active == old(stream).is_active,
        !old(stream).is_active ==> *final(stream) == *old(stream),
{
    if !stream.is_active {
        return Err(ErrorCode::StreamInactive);
    }
    if caller != stream.employee {
        return Err(ErrorCode::UnauthorizedEmployee);
    }
    stream.employee_last_activity_at = now;
    Ok(())
}

/// Adds funds to an active stream's escrow.
///
/// Requires an active stream and the employer as caller; fails with
/// `MathOverflow` (before anything moves) when the deposit counter would
/// overflow. On success the returned amount — `extra` itself — is what the
/// employer moves into escrow. On any error the record is unchanged.
pub fn top_up_stream(stream: &mut PaymentStream, caller: AccountId, extra: u64) -> (r: Result<
    u64,
    ErrorCode,
>)
    ensures
        ({
            let o = top_up_outcome(*old(stream), caller, extra);
            match o {
                Ok(su) => r == Ok::<u64, ErrorCode>(su.1) && *final(stream) == su.0,
                Err(e) => r == Err::<u64, ErrorCode>(e) && *final(stream) == *old(stream),
            }
        }),
        old(stream).wf() ==> final(stream).wf(),
        final(stream).is_active == old(stream).is_active,
        !old(stream).is_active ==> *final(stream) == *old(stream),
{
    if !stream.is_active {
        return Err(ErrorCode::StreamInactive);
    }
    if caller != stream.employer {
        return Err(ErrorCode::UnauthorizedEmployer);
    }
    let new_total = match stream.total_deposited.checked_add(extra) {
        None => {
            return Err(ErrorCode::MathOverflow);
        },
        Some(t) => t,
    };
    stream.total_deposited = new_total;
    Ok(extra)
}

/// Reclaims the escrow for the employer after prolonged employee inactivity.
///
/// Requires the employer as caller and at least `INACTIVITY_TIMEOUT_SECS`
/// seconds since the employee's recorded activity (a clock reading behind
/// that record is `InvalidTimestamp`). The stored accounting is revalidated
/// and the escrow balance must cover the outstanding obligation — a deficit
/// is the fatal `VaultBalanceInvariantViolated`. On success the returned
/// amount — the whole escrow balance, surplus included — is what the escrow
/// pays the employer; the record then shows everything withdrawn and the
/// stream deactivated. On any error the record is unchanged.
pub fn employer_emergency_withdraw(
    stream: &mut PaymentStream,
    caller: AccountId,
    escrow_balance: u64,
    now: i64,
) -> (r: Result<u64, ErrorCode>)
    ensures
        ({
            let o = emergency_outcome(*old(stream), caller, escrow_balance, now);
            match o {
                Ok(su) => r == Ok::<u64, ErrorCode>(su.1) && *final(stream) == su.0,
                Err(e) => r == Err::<u64, ErrorCode>(e) && *final(stream) == *old(stream),
            }
        }),
        r matches Ok(paid) ==> final(stream).wf() && !final(stream).is_active && paid
            == escrow_balance,
        old(stream).wf() ==> final(stream).wf(),
        final(stream).is_active ==> old(stream).is_active,
{
    if caller != stream.employer {
        return Err(ErrorCode::UnauthorizedEmployer);
    }
    let inactive: i128 = (now as i128) - (stream.employee_last_activity_at as i128);
    if inactive < 0 {
        return Err(ErrorCode::InvalidTimestamp);
    }
    if inactive < INACTIVITY_TIMEOUT_SECS as i128 {
        return Err(ErrorCode::EmployeeStillActive);
    }
    let expected = match stream.total_deposited.checked_sub(stream.withdrawn_amount) {
        None => {
            return Err(ErrorCode::InsufficientBalance);
        },
        Some(x) => x,
    };
    if escrow_balance < expected {
        return Err(ErrorCode::VaultBalanceInvariantViolated);
    }
    stream.withdrawn_amount = stream.total_deposited;
    stream.is_active = false;
    Ok(escrow_balance)
}

/// Decides whether a stream may be closed and its record and escrow destroyed.
///
/// Requires the employer as caller, a deactivated stream — an active stream
/// is refused whatever the escrow holds — and an escrow already drained to
/// zero. Destroying the accounts is the host's job once this returns `Ok`.
pub fn close_stream(stream: &PaymentStream, caller: AccountId, escrow_balance: u64) -> (r: Result<
    (),
    ErrorCode,
>)
    ensures
        r == close_outcome(*stream, caller, escrow_balance),
{
    if caller != stream.employer {
        return Err(ErrorCode::UnauthorizedEmployer);
    }
    if stream.is_active {
        return Err(ErrorCode::StreamStillActive);
    }
    if escrow_balance != 0 {
        return Err(ErrorCode::VaultNotEmpty);
    }
    Ok(())
}

/// Validates an externally supplied holding account against the stream's
/// recorded owner and asset: both must match exactly, else the account is
/// refused with `InvalidExternalAccount`.
pub fn check_external_account(
    account_owner: AccountId,
    account_mint: AccountId,
    expected_owner: AccountId,
    stream_mint: AccountId,
) -> (r: Result<(), ErrorCode>)
    ensures
        account_owner == expected_owner && account_mint == stream_mint ==> r == Ok::<
            (),
            ErrorCode,
        >(()),
        !(account_owner == expected_owner && account_mint == stream_mint) ==> r == Err::<
            (),
            ErrorCode,
        >(ErrorCode::InvalidExternalAccount),
{
    if account_owner == expected_owner && account_mint == stream_mint {
        Ok(())
    } else {
        Err(ErrorCode::InvalidExternalAccount)
    }
}

} // verus!
