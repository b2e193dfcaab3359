use vstd::prelude::*;

verus! {

/// The ways an operation can be rejected. Every failure aborts the whole
/// operation: the registry is left exactly as it was.
#[derive(Clone, Copy, Debug, PartialEq, Eq, Structural)]
pub enum AnalyticsError {
    /// The caller of a mutating operation is not the stored authority.
    Unauthorized,
    /// `initialize` targeted a deployment whose configuration record
    /// already occupies the config address.
    AlreadyInitialized,
    /// `record_revenue` targeted a `(wallet, timestamp)` pair that is
    /// already recorded.
    AlreadyExists,
    /// The wallet list would exceed its fixed preallocated capacity.
    CapacityExceeded,
    /// `remove_wallet` targeted a wallet that is not tracked.
    NotFound,
    /// `record_revenue` was given a period type outside the four known
    /// granularities.
    InvalidPeriodType,
}

} // verus!
