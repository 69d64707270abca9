//! Whole-run accounting: what any sequence of transitions can do.
//!
//! The ledger's functions each pin down one transition. This module states
//! what holds across *runs*: a ghost state couples the stream record with its
//! escrow balance and the cumulative flows in and out, a step function applies
//! one transition outcome to that coupled state, and the proof functions
//! establish the properties every reachable state enjoys — the accounting
//! invariant, the one-way deactivation of the stream, and the bound on total
//! escrow outflow.
//!
//! A transition whose outcome is an error moves no value and leaves the state
//! untouched, and an incoming transfer that would overflow the escrow's 64-bit
//! balance is refused by the value layer itself, aborting that transition
//! whole — the same failure atomicity the host must provide.

use vstd::prelude::*;

use crate::ledger::create_outcome;
use crate::ledger::emergency_outcome;
use crate::ledger::refresh_outcome;
use crate::ledger::top_up_outcome;
use crate::ledger::withdraw_outcome;
use crate::state::AccountId;
use crate::state::PaymentStream;

verus! {

/// One requested transition in a run, or a donation: value arriving in the
/// escrow from outside the ledger's own transitions.
pub enum Event {
    /// The employee (or an impostor) asks to withdraw `amount` at time `now`.
    Withdraw { caller: AccountId, amount: u64, now: i64 },
    /// The employee (or an impostor) refreshes activity at time `now`.
    RefreshActivity { caller: AccountId, now: i64 },
    /// The employer (or an impostor) adds `extra` to the escrow.
    TopUp { caller: AccountId, extra: u64 },
    /// The employer (or an impostor) invokes the emergency path at time `now`.
    EmergencyWithdraw { caller: AccountId, now: i64 },
    /// An outside party donates `amount` straight into the escrow.
    Donate { amount: u64 },
}

/// Ghost state of a whole run: the stream record, the escrow balance it is
/// coupled with, and the cumulative flows of the run so far.
pub struct RunState {
    /// The persisted stream record.
    pub stream: PaymentStream,
    /// The escrow's current balance.
    pub escrow: int,
    /// Everything the escrow has ever paid out to the employee.
    pub paid_to_employee: int,
    /// Everything the escrow has ever paid back to the employer.
    pub reclaimed: int,
    /// Everything outside parties have ever donated into the escrow.
    pub donated: int,
}

/// The run state right after a successful `create_stream`: the record as
/// created, its initial deposit sitting in escrow, and no flows yet.
pub open spec fn init_state(stream: PaymentStream, deposit: u64) -> RunState {
    RunState {
        stream,
        escrow: deposit as int,
        paid_to_employee: 0,
        reclaimed: 0,
        donated: 0,
    }
}

/// Applies one event to the coupled state.
///
/// A transition with an error outcome leaves the state untouched. An incoming
/// transfer that would push the escrow's 64-bit balance past its maximum is
/// refused by the value layer, aborting the whole transition. The emergency
/// path reads the actual escrow balance, exactly as the handler does.
pub open spec fn step(s: RunState, e: Event) -> RunState {
    match e {
        Event::Withdraw { caller, amount, now } => match withdraw_outcome(
            s.stream,
            caller,
            amount,
            now,
        ) {
            Ok(su) => RunState {
                stream: su.0,
                escrow: s.escrow - su.1,
                paid_to_employee: s.paid_to_employee + su.1,
                ..s
            },
            Err(_) => s,
        },
        Event::RefreshActivity { caller, now } => match refresh_outcome(s.stream, caller, now) {
            Ok(s2) => RunState { stream: s2, ..s },
            Err(_) => s,
        },
        Event::TopUp { caller, extra } => match top_up_outcome(s.stream, caller, extra) {
            Ok(su) => if s.escrow + su.1 <= u64::MAX {
                RunState { stream: su.0, escrow: s.escrow + su.1, ..s }
            } else {
                s
            },
            Err(_) => s,
        },
        Event::EmergencyWithdraw { caller, now } => match emergency_outcome(
            s.stream,
            caller,
            s.escrow as u64,
            now,
        ) {
            Ok(su) => RunState {
                stream: su.0,
                escrow: s.escrow - su.1,
                reclaimed: s.reclaimed + su.1,
                ..s
            },
            Err(_) => s,
        },
        Event::Donate { amount } => if s.escrow + amount <= u64::MAX {
            RunState { escrow: s.escrow + amount, donated: s.donated + amount, ..s }
        } else {
            s
        },
    }
}

/// Applies a sequence of events in order.
pub open spec fn run(s0: RunState, events: Seq<Event>) -> RunState
    decreases events.len(),
{
    if events.len() == 0 {
        s0
    } else {
        step(run(s0, events.drop_last()), events.last())
    }
}

/// The run invariant: the record's accounting is well-formed, the escrow is a
/// real 64-bit balance that covers the outstanding obligation, the flows
/// reconcile exactly with the escrow, and — while the stream is active — the
/// record's withdrawn counter accounts precisely for everything paid out.
pub open spec fn inv(s: RunState) -> bool {
    &&& s.stream.wf()
    &&& 0 <= s.escrow <= u64::MAX
    &&& s.stream.obligation() <= s.escrow
    &&& s.escrow == s.stream.total_deposited + s.donated - s.paid_to_employee - s.reclaimed
    &&& 0 <= s.paid_to_employee
    &&& 0 <= s.reclaimed
    &&& 0 <= s.donated
    &&& (s.stream.is_active ==> s.paid_to_employee == s.stream.withdrawn_amount && s.reclaimed
        == 0)
}

/// A successful creation establishes the run invariant: the fresh record is
/// well-formed and its deposit, sitting in escrow, covers the obligation.
pub proof fn lemma_create_establishes_inv(
    employer: AccountId,
    employee: AccountId,
    mint: AccountId,
    vault: AccountId,
    asset_decimals: u8,
    rate: u64,
    deposit: u64,
    now: i64,
    bump: u8,
)
    ensures
        create_outcome(employer, employee, mint, vault, asset_decimals, rate, deposit, now, bump)
            matches Ok(su) ==> inv(init_state(su.0, su.1)),
{
}

/// Every single transition preserves the run invariant.
pub proof fn lemma_step_preserves_inv(s: RunState, e: Event)
    requires
        inv(s),
    ensures
        inv(step(s, e)),
{
}

/// Every reachable state satisfies the run invariant. In particular, for
/// every reachable state `withdrawn_amount <= total_deposited`, and the
/// escrow balance covers `total_deposited - withdrawn_amount`.
pub proof fn lemma_run_inv(s0: RunState, events: Seq<Event>)
    requires
        inv(s0),
    ensures
        inv(run(s0, events)),
        run(s0, events).stream.wf(),
        run(s0, events).stream.obligation() <= run(s0, events).escrow,
    decreases events.len(),
{
    if events.len() > 0 {
        lemma_run_inv(s0, events.drop_last());
        lemma_step_preserves_inv(run(s0, events.drop_last()), events.last());
    }
}

/// One-way deactivation: once a stream is inactive no event reactivates it,
/// and the transitions that require an active stream leave the whole state
/// untouched.
pub proof fn lemma_inactive_stays_inactive(s: RunState, e: Event)
    requires
        !s.stream.is_active,
    ensures
        !step(s, e).stream.is_active,
        (e matches Event::Withdraw { .. } || e matches Event::RefreshActivity { .. } || e
            matches Event::TopUp { .. }) ==> step(s, e) == s,
{
}

/// Outflow accounting for any run from an invariant state: everything that
/// ever left the escrow is exactly what was paid to the employee plus what
/// the employer reclaimed; that total reconciles against deposits, donations
/// and the remaining balance, and so never exceeds what was deposited plus
/// what was donated. While the stream is still active, the record's
/// withdrawn counter is exactly the amount paid to the employee and nothing
/// has been reclaimed.
pub proof fn lemma_outflow_accounting(s0: RunState, events: Seq<Event>)
    requires
        inv(s0),
    ensures
        ({
            let sf = run(s0, events);
            &&& sf.paid_to_employee + sf.reclaimed == sf.stream.total_deposited + sf.donated
                - sf.escrow
            &&& sf.paid_to_employee + sf.reclaimed <= sf.stream.total_deposited + sf.donated
            &&& (sf.stream.is_active ==> sf.paid_to_employee == sf.stream.withdrawn_amount
                && sf.reclaimed == 0)
        }),
{
    lemma_run_inv(s0, events);
}

} // verus!
