use cascade::errors::ErrorCode;
use cascade::ledger::check_external_account;
use cascade::ledger::close_stream;
use cascade::ledger::create_stream;
use cascade::ledger::employer_emergency_withdraw;
use cascade::ledger::refresh_activity;
use cascade::ledger::top_up_stream;
use cascade::ledger::withdraw;
use cascade::ledger::INACTIVITY_TIMEOUT_SECS;
use cascade::ledger::SUPPORTED_ASSET_DECIMALS;
use cascade::state::AccountId;
use cascade::state::PaymentStream;

fn employer() -> AccountId {
    AccountId(0xE1, 0, 0, 1)
}

fn employee() -> AccountId {
    AccountId(0xE2, 0, 0, 2)
}

fn mint() -> AccountId {
    AccountId(0xA5, 0, 0, 3)
}

fn vault() -> AccountId {
    AccountId(0x7A, 0, 0, 4)
}

fn new_stream(rate: u64, deposit: u64, now: i64) -> PaymentStream {
    let (stream, moved) = create_stream(
        employer(),
        employee(),
        mint(),
        vault(),
        SUPPORTED_ASSET_DECIMALS,
        rate,
        deposit,
        now,
        7,
    )
    .unwrap();
    assert_eq!(moved, deposit);
    stream
}

#[test]
fn create_rejects_unsupported_asset() {
    let r = create_stream(employer(), employee(), mint(), vault(), 5, 10, 1000, 0, 7);
    assert_eq!(r, Err(ErrorCode::UnsupportedAsset));
    let r = create_stream(employer(), employee(), mint(), vault(), 9, 10, 1000, 0, 7);
    assert_eq!(r, Err(ErrorCode::UnsupportedAsset));
}

#[test]
fn create_initializes_record() {
    let s = new_stream(10, 1000, 42);
    assert_eq!(s.employer, employer());
    assert_eq!(s.employee, employee());
    assert_eq!(s.mint, mint());
    assert_eq!(s.vault, vault());
    assert_eq!(s.rate, 10);
    assert_eq!(s.total_deposited, 1000);
    assert_eq!(s.withdrawn_amount, 0);
    assert_eq!(s.created_at, 42);
    assert_eq!(s.employee_last_activity_at, 42);
    assert!(s.is_active);
    assert_eq!(s.bump, 7);
}

#[test]
fn withdraw_pays_vested_then_refuses_more() {
    let mut s = new_stream(10, 1000, 0);
    assert_eq!(withdraw(&mut s, employee(), 500, 50), Ok(500));
    assert_eq!(s.withdrawn_amount, 500);
    assert_eq!(s.employee_last_activity_at, 50);
    assert!(s.is_active);
    let before = s;
    assert_eq!(
        withdraw(&mut s, employee(), 1, 50),
        Err(ErrorCode::InsufficientBalance)
    );
    assert_eq!(s, before);
}

#[test]
fn withdraw_requires_employee() {
    let mut s = new_stream(10, 1000, 0);
    let before = s;
    assert_eq!(
        withdraw(&mut s, employer(), 10, 50),
        Err(ErrorCode::UnauthorizedEmployee)
    );
    assert_eq!(s, before);
}

#[test]
fn withdraw_requires_active_stream() {
    let mut s = new_stream(10, 1000, 0);
    s.is_active = false;
    let before = s;
    assert_eq!(
        withdraw(&mut s, employee(), 10, 50),
        Err(ErrorCode::StreamInactive)
    );
    assert_eq!(s, before);
}

#[test]
fn withdraw_rejects_clock_before_creation() {
    let mut s = new_stream(10, 1000, 100);
    let before = s;
    assert_eq!(
        withdraw(&mut s, employee(), 1, 99),
        Err(ErrorCode::InvalidTimestamp)
    );
    assert_eq!(s, before);
}

#[test]
fn withdraw_detects_accrual_overflow() {
    let mut s = new_stream(u64::MAX, 1000, 0);
    let before = s;
    assert_eq!(
        withdraw(&mut s, employee(), 1, 2),
        Err(ErrorCode::MathOverflow)
    );
    assert_eq!(s, before);
}

#[test]
fn withdraw_rejects_overdrawn_record() {
    let mut s = new_stream(10, 1000, 0);
    // A record claiming more withdrawn than has vested by `now` is refused.
    s.withdrawn_amount = 800;
    let before = s;
    assert_eq!(
        withdraw(&mut s, employee(), 1, 50),
        Err(ErrorCode::InsufficientBalance)
    );
    assert_eq!(s, before);
}

#[test]
fn refresh_updates_activity_only() {
    let mut s = new_stream(10, 1000, 0);
    let before = s;
    assert_eq!(refresh_activity(&mut s, employee(), 77), Ok(()));
    assert_eq!(s.employee_last_activity_at, 77);
    assert_eq!(
        s,
        PaymentStream {
            employee_last_activity_at: 77,
            ..before
        }
    );
}

#[test]
fn refresh_requires_employee_and_active() {
    let mut s = new_stream(10, 1000, 0);
    assert_eq!(
        refresh_activity(&mut s, employer(), 77),
        Err(ErrorCode::UnauthorizedEmployee)
    );
    assert_eq!(s.employee_last_activity_at, 0);
    s.is_active = false;
    assert_eq!(
        refresh_activity(&mut s, employee(), 77),
        Err(ErrorCode::StreamInactive)
    );
    assert_eq!(s.employee_last_activity_at, 0);
}

#[test]
fn top_up_adds_to_deposit() {
    let mut s = new_stream(10, 1000, 0);
    assert_eq!(top_up_stream(&mut s, employer(), 500), Ok(500));
    assert_eq!(s.total_deposited, 1500);
    assert_eq!(s.withdrawn_amount, 0);
}

#[test]
fn top_up_overflow_leaves_state_unchanged() {
    let mut s = new_stream(10, 1000, 0);
    s.total_deposited = u64::MAX - 10;
    let before = s;
    assert_eq!(
        top_up_stream(&mut s, employer(), 20),
        Err(ErrorCode::MathOverflow)
    );
    assert_eq!(s, before);
}

#[test]
fn top_up_requires_employer_and_active() {
    let mut s = new_stream(10, 1000, 0);
    assert_eq!(
        top_up_stream(&mut s, employee(), 500),
        Err(ErrorCode::UnauthorizedEmployer)
    );
    assert_eq!(s.total_deposited, 1000);
    s.is_active = false;
    assert_eq!(
        top_up_stream(&mut s, employer(), 500),
        Err(ErrorCode::StreamInactive)
    );
    assert_eq!(s.total_deposited, 1000);
}

#[test]
fn emergency_respects_inactivity_threshold() {
    let mut s = new_stream(10, 1000, 0);
    s.withdrawn_amount = 100;
    let before = s;
    assert_eq!(
        employer_emergency_withdraw(&mut s, employer(), 900, 2_591_999),
        Err(ErrorCode::EmployeeStillActive)
    );
    assert_eq!(s, before);
    assert_eq!(
        employer_emergency_withdraw(&mut s, employer(), 900, 2_592_000),
        Ok(900)
    );
    assert_eq!(s.withdrawn_amount, s.total_deposited);
    assert!(!s.is_active);
}

#[test]
fn emergency_threshold_is_thirty_days() {
    assert_eq!(INACTIVITY_TIMEOUT_SECS, 2_592_000);
}

#[test]
fn emergency_requires_employer() {
    let mut s = new_stream(10, 1000, 0);
    let before = s;
    assert_eq!(
        employer_emergency_withdraw(&mut s, employee(), 1000, 2_592_000),
        Err(ErrorCode::UnauthorizedEmployer)
    );
    assert_eq!(s, before);
}

#[test]
fn emergency_rejects_clock_behind_activity() {
    let mut s = new_stream(10, 1000, 0);
    s.employee_last_activity_at = 100;
    let before = s;
    assert_eq!(
        employer_emergency_withdraw(&mut s, employer(), 1000, 99),
        Err(ErrorCode::InvalidTimestamp)
    );
    assert_eq!(s, before);
}

#[test]
fn emergency_rejects_inconsistent_record() {
    let mut s = new_stream(10, 1000, 0);
    // A record claiming more withdrawn than deposited is a broken invariant.
    s.withdrawn_amount = 1001;
    let before = s;
    assert_eq!(
        employer_emergency_withdraw(&mut s, employer(), 1000, 2_592_000),
        Err(ErrorCode::InsufficientBalance)
    );
    assert_eq!(s, before);
}

#[test]
fn emergency_deficit_is_fatal() {
    let mut s = new_stream(10, 1000, 0);
    s.withdrawn_amount = 100;
    let before = s;
    // The escrow owes 900 but holds only 899.
    assert_eq!(
        employer_emergency_withdraw(&mut s, employer(), 899, 2_592_000),
        Err(ErrorCode::VaultBalanceInvariantViolated)
    );
    assert_eq!(s, before);
}

#[test]
fn emergency_sweeps_donated_surplus() {
    let mut s = new_stream(10, 1000, 0);
    s.withdrawn_amount = 100;
    // The escrow owes 900 but holds 950: the surplus leaves with the sweep.
    assert_eq!(
        employer_emergency_withdraw(&mut s, employer(), 950, 2_592_000),
        Ok(950)
    );
    assert_eq!(s.withdrawn_amount, 1000);
    assert!(!s.is_active);
}

#[test]
fn close_refuses_active_stream_regardless_of_balance() {
    let s = new_stream(10, 1000, 0);
    assert_eq!(
        close_stream(&s, employer(), 0),
        Err(ErrorCode::StreamStillActive)
    );
    assert_eq!(
        close_stream(&s, employer(), 500),
        Err(ErrorCode::StreamStillActive)
    );
}

#[test]
fn close_requires_employer() {
    let mut s = new_stream(10, 1000, 0);
    s.is_active = false;
    assert_eq!(
        close_stream(&s, employee(), 0),
        Err(ErrorCode::UnauthorizedEmployer)
    );
}

#[test]
fn close_requires_empty_vault() {
    let mut s = new_stream(10, 1000, 0);
    s.is_active = false;
    assert_eq!(close_stream(&s, employer(), 1), Err(ErrorCode::VaultNotEmpty));
    assert_eq!(close_stream(&s, employer(), 0), Ok(()));
}

#[test]
fn external_account_must_match_owner_and_mint() {
    assert_eq!(
        check_external_account(employer(), mint(), employer(), mint()),
        Ok(())
    );
    assert_eq!(
        check_external_account(employee(), mint(), employer(), mint()),
        Err(ErrorCode::InvalidExternalAccount)
    );
    assert_eq!(
        check_external_account(employer(), vault(), employer(), mint()),
        Err(ErrorCode::InvalidExternalAccount)
    );
}

#[test]
fn error_messages_are_stable() {
    assert_eq!(
        ErrorCode::StreamInactive.message(),
        "This stream is no longer active"
    );
    assert_eq!(
        ErrorCode::UnauthorizedEmployee.message(),
        "Only the employee can perform this action"
    );
    assert_eq!(
        ErrorCode::UnauthorizedEmployer.message(),
        "Only the employer can perform this action"
    );
    assert_eq!(
        ErrorCode::InsufficientBalance.message(),
        "Insufficient balance available for withdrawal"
    );
    assert_eq!(
        ErrorCode::EmployeeStillActive.message(),
        "Employee is still active, cannot perform emergency withdrawal"
    );
    assert_eq!(
        ErrorCode::MathOverflow.message(),
        "Mathematical operation overflow"
    );
    assert_eq!(
        ErrorCode::StreamStillActive.message(),
        "Stream is still active and cannot be closed"
    );
    assert_eq!(
        ErrorCode::VaultNotEmpty.message(),
        "Vault must be empty before closing stream"
    );
    assert_eq!(
        ErrorCode::InvalidTimestamp.message(),
        "Invalid timestamp detected"
    );
    assert_eq!(
        ErrorCode::EmployerLockActive.message(),
        "Employer lock period has not expired yet"
    );
}

#[test]
fn full_run_reconciles_outflows() {
    // Follow one stream through its life against a simulated escrow and
    // check the flow accounting the run laws promise.
    let now0: i64 = 0;
    let (mut s, inflow) = create_stream(
        employer(),
        employee(),
        mint(),
        vault(),
        SUPPORTED_ASSET_DECIMALS,
        10,
        1000,
        now0,
        7,
    )
    .unwrap();
    let mut escrow: u64 = inflow;
    let mut paid_to_employee: u64 = 0;
    let mut reclaimed: u64 = 0;

    let added = top_up_stream(&mut s, employer(), 500).unwrap();
    escrow += added;

    let paid = withdraw(&mut s, employee(), 300, 40).unwrap();
    escrow -= paid;
    paid_to_employee += paid;
    assert_eq!(paid_to_employee, s.withdrawn_amount);

    // Escrow always covers what the record says it owes.
    assert!(escrow >= s.total_deposited - s.withdrawn_amount);

    let swept = employer_emergency_withdraw(
        &mut s,
        employer(),
        escrow,
        40 + INACTIVITY_TIMEOUT_SECS,
    )
    .unwrap();
    escrow -= swept;
    reclaimed += swept;

    // Every unit that left the escrow is accounted for, and the total
    // outflow never exceeds what was deposited.
    assert_eq!(paid_to_employee + reclaimed, 1500);
    assert_eq!(escrow, 0);
    assert!(paid_to_employee + reclaimed <= s.total_deposited);

    assert_eq!(close_stream(&s, employer(), escrow), Ok(()));
}
