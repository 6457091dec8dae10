use vstd::prelude::*;

verus! {

/// Why a transaction, a lifecycle transition, or a query is rejected.
///
/// Every rejection is terminal for the transaction under evaluation; nothing
/// is retried internally and no overflow is ever clamped or saturated.
#[derive(Clone, Copy, Debug, PartialEq, Eq, Structural)]
pub enum DaoError {
    /// A raw time-lock value uses reserved bits or an unknown discriminant,
    /// or a withdrawal's time-lock does not use the epoch metric.
    InvalidSinceEncoding,
    /// The accumulated rate table was queried for an epoch that has not
    /// closed yet.
    EpochNotYetClosed,
    /// A withdrawal's time-lock resolves to a point that the chain has not
    /// reached, or to a point before the deposit's maturity window has
    /// elapsed.
    ImmatureWithdrawal,
    /// A cell was asked to make a lifecycle transition its stage does not
    /// allow.
    StageMismatch,
    /// A capacity sum exceeds the representable ceiling, or a withdrawal
    /// claims more than its entitlement.
    CapacityOverflow,
    /// A capacity subtraction would go below zero.
    CapacityUnderflow,
    /// A prepared cell's capacity does not equal the deposit it consumes.
    CapacityMismatch,
}

impl DaoError {
    /// A short human-readable tag for the error, stable across releases.
    pub fn tag(&self) -> (r: &'static str)
        ensures
            r@ == self.spec_tag(),
    {
        match self {
            DaoError::InvalidSinceEncoding => "InvalidSinceEncoding",
            DaoError::EpochNotYetClosed => "EpochNotYetClosed",
            DaoError::ImmatureWithdrawal => "ImmatureWithdrawal",
            DaoError::StageMismatch => "StageMismatch",
            DaoError::CapacityOverflow => "CapacityOverflow",
            DaoError::CapacityUnderflow => "CapacityUnderflow",
            DaoError::CapacityMismatch => "CapacityMismatch",
        }
    }

    /// The tag each variant carries.
    pub open spec fn spec_tag(self) -> Seq<char> {
        match self {
            DaoError::InvalidSinceEncoding => "InvalidSinceEncoding"@,
            DaoError::EpochNotYetClosed => "EpochNotYetClosed"@,
            DaoError::ImmatureWithdrawal => "ImmatureWithdrawal"@,
            DaoError::StageMismatch => "StageMismatch"@,
            DaoError::CapacityOverflow => "CapacityOverflow"@,
            DaoError::CapacityUnderflow => "CapacityUnderflow"@,
            DaoError::CapacityMismatch => "CapacityMismatch"@,
        }
    }
}

} // verus!
