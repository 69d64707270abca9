//! A pay-as-you-earn payment-streaming ledger.
//!
//! An employer escrows funds for one employee; the funds vest continuously at
//! a fixed per-second rate, capped at the deposited total. The employee
//! withdraws any vested-but-unwithdrawn portion on demand; the employer may
//! top up the escrow, reclaim funds through an emergency path after a fixed
//! period of employee inactivity, and finally close the drained stream.
//!
//! The crate verifies the vesting arithmetic and the stream state machine:
//! every transition is a pure function from the current record, the caller's
//! identity, and an injected clock reading to the next record and the amount
//! of value that must move. Performing the actual value transfers and reading
//! the clock are left to the (unverified) host around this library.

pub mod errors;
pub mod ledger;
pub mod machine;
pub mod state;
pub mod vesting;
