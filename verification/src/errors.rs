//! The reasons for which an instruction is rejected.

use vstd::prelude::*;

verus! {

/// Why an instruction was rejected. A rejected instruction changes nothing.
#[derive(Clone, Copy, Debug, PartialEq, Eq, Structural)]
pub enum CustomError {
    /// The signer does not own the account it acts as.
    UnauthorizedAccess,
    /// The borrower has no demo NFT left to pledge.
    NoCollateral,
    /// No open order stands at the given index.
    NoOrderFound,
    /// No open debt stands at the given index.
    NoDebtFound,
    /// The paying account holds fewer demo tokens than the amount due.
    InsufficientFunds,
    /// The debt can no longer be paid: its deadline has been reached.
    DeadlineExpired,
    /// The collateral cannot be seized yet: the deadline lies ahead.
    DeadlineNotYetExpired,
    /// The lender account is not the one the debt is owed to.
    LenderMismatch,
    /// The position list already holds as many slots as it ever may.
    CapacityExceeded,
    /// A balance or a deadline would exceed what its integer type can hold.
    Overflow,
    /// A debit would take more than the balance holds.
    Underflow,
    /// The runtime did not provide the current time.
    ClockUnavailable,
}

} // verus!
