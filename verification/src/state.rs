//! The persisted record of one payment stream.

use vstd::prelude::*;

verus! {

/// An opaque 256-bit identity (a party, an asset, or a custodial balance),
/// held as four 64-bit words so that equality is plain word equality.
///
/// The host maps its native key material onto these words losslessly; the
/// ledger itself never looks inside an identity, it only compares them.
#[derive(Clone, Copy, Debug, PartialEq, Eq, Structural)]
pub struct AccountId(pub u64, pub u64, pub u64, pub u64);

/// The record of one stream between an employer and an employee.
///
/// The record and its escrow form a single logical unit: the escrow balance
/// must always cover `total_deposited - withdrawn_amount`, and only the
/// ledger's own transitions may move the escrow's funds.
#[derive(Clone, Copy, Debug, PartialEq, Eq, Structural)]
pub struct PaymentStream {
    /// The party that funds the stream and may reclaim it.
    pub employer: AccountId,
    /// The party that earns from the stream.
    pub employee: AccountId,
    /// The asset held in escrow, fixed at creation.
    pub mint: AccountId,
    /// The custodial balance holding the stream's funds.
    pub vault: AccountId,
    /// Accrual rate in asset units per second of elapsed time.
    pub rate: u64,
    /// Cumulative amount the employer has put into escrow.
    pub total_deposited: u64,
    /// Cumulative amount accounted as withdrawn against the deposit.
    pub withdrawn_amount: u64,
    /// Clock reading at creation, in seconds.
    pub created_at: i64,
    /// Clock reading of the employee's latest authorized action, in seconds.
    pub employee_last_activity_at: i64,
    /// False once the stream has been deactivated; never true again afterwards.
    pub is_active: bool,
    /// Disambiguating byte for the stream's derived address; opaque to the
    /// ledger, owned by the host's address-derivation machinery.
    pub bump: u8,
}

impl PaymentStream {
    /// Accounting well-formedness: the record never claims more withdrawn
    /// than was ever deposited. Established at creation and preserved by
    /// every transition.
    pub open spec fn wf(self) -> bool {
        self.withdrawn_amount <= self.total_deposited
    }

    /// The amount the escrow still owes against this record.
    pub open spec fn obligation(self) -> int {
        self.total_deposited - self.withdrawn_amount
    }
}

} // verus!
