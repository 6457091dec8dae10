use vstd::prelude::*;

use crate::errors::DaoError;

verus! {

/// The total-supply ceiling: the largest representable capacity.  Any sum
/// that would exceed it is rejected, never wrapped.
pub const CAPACITY_CEILING: u64 = u64::MAX;

/// Overflow-checked capacity addition: the only sanctioned way to combine
/// two capacities.
pub fn capacity_add(a: u64, b: u64) -> (r: Result<u64, DaoError>)
    ensures
        a + b <= CAPACITY_CEILING ==> r == Ok::<u64, DaoError>((a + b) as u64),
        a + b > CAPACITY_CEILING ==> r == Err::<u64, DaoError>(DaoError::CapacityOverflow),
{
    match a.checked_add(b) {
        Some(v) => Ok(v),
        None => Err(DaoError::CapacityOverflow),
    }
}

/// Underflow-checked capacity subtraction: the only sanctioned way to take
/// one capacity out of another.
pub fn capacity_sub(a: u64, b: u64) -> (r: Result<u64, DaoError>)
    ensures
        a >= b ==> r == Ok::<u64, DaoError>((a - b) as u64),
        a < b ==> r == Err::<u64, DaoError>(DaoError::CapacityUnderflow),
{
    match a.checked_sub(b) {
        Some(v) => Ok(v),
        None => Err(DaoError::CapacityUnderflow),
    }
}

} // verus!
