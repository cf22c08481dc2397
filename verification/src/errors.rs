//! The ways in which an operation can be refused.

use vstd::prelude::*;

verus! {

/// Why an operation was refused. A refused operation changes no record.
#[derive(Clone, Copy, Debug, PartialEq, Eq, Structural)]
pub enum ErrorCode {
    /// The caller is not the authority of the economy.
    Unauthorized,
    /// More was asked back than the position holds.
    InsufficientFunds,
    /// The stake is still locked.
    LockPeriodNotExpired,
    /// Nothing has accrued since the last claim.
    NoRewardsToClaim,
    /// The supply would rise above its cap.
    MaxSupplyExceeded,
    /// The halving interval has not yet elapsed.
    HalvingNotDue,
    /// A quantity does not fit the integer that has to hold it.
    ArithmeticOverflow,
}

} // verus!
