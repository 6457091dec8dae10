use vstd::prelude::*;

use crate::capacity::capacity_add;
use crate::epoch::EpochPoint;
use crate::errors::DaoError;
use crate::rate::RateTable;
use crate::rate::spec_total_entitlement;

verus! {

/// The stage-tagged payload of a cell in the deposit protocol.  The stages
/// form a line - Deposited, then Prepared, then withdrawn into a plain
/// cell - with no back-transitions and no skipping.
#[derive(Clone, Copy, Debug, PartialEq, Eq, Structural)]
pub enum CellKind {
    /// Locked principal; the metadata payload is empty.
    Deposit,
    /// A deposit awaiting maturity; the payload records the epoch point at
    /// which the matching deposit cell was created.
    Prepare { deposit_epoch: EpochPoint },
    /// A plain value cell, no longer participating in the protocol: the
    /// final withdrawal output.
    Plain,
}

/// A value-bearing cell: its capacity and its protocol stage.  Cells are
/// never mutated in place; every transition consumes one cell and creates
/// another.
#[derive(Clone, Copy, Debug, PartialEq, Eq, Structural)]
pub struct Cell {
    /// The value the cell carries.
    pub capacity: u64,
    /// The cell's stage in the protocol.
    pub kind: CellKind,
}

impl Cell {
    /// A prepared cell's recorded deposit point must be well-formed.
    pub open spec fn wf(self) -> bool {
        match self.kind {
            CellKind::Prepare { deposit_epoch } => deposit_epoch.wf(),
            _ => true,
        }
    }
}

/// Locks `principal` into a fresh deposit cell.  Pure construction: the
/// principal must be positive, and the cell's capacity is exactly the
/// locked principal.
pub fn deposit(principal: u64) -> (c: Cell)
    requires
        principal > 0,
    ensures
        c == (Cell { capacity: principal, kind: CellKind::Deposit }),
        c.wf(),
{
    Cell { capacity: principal, kind: CellKind::Deposit }
}

/// Consumes a deposit cell into a prepared cell, stamping it with the
/// epoch point at which the deposit was created.  The capacity is copied
/// unchanged: no interest is paid out until final withdrawal.  Anything
/// but a deposit cell is a stage mismatch.
pub fn prepare(input: &Cell, deposit_epoch: &EpochPoint) -> (r: Result<Cell, DaoError>)
    requires
        deposit_epoch.wf(),
    ensures
        input.kind == CellKind::Deposit ==> r == Ok::<Cell, DaoError>(Cell {
            capacity: input.capacity,
            kind: CellKind::Prepare { deposit_epoch: *deposit_epoch },
        }),
        input.kind != CellKind::Deposit ==> r == Err::<Cell, DaoError>(DaoError::StageMismatch),
        r matches Ok(c) ==> c.wf(),
{
    match input.kind {
        CellKind::Deposit => Ok(Cell {
            capacity: input.capacity,
            kind: CellKind::Prepare { deposit_epoch: *deposit_epoch },
        }),
        _ => Err(DaoError::StageMismatch),
    }
}

/// What `withdraw` decides, stated over the rate sequence: a stage
/// mismatch unless the input is prepared; immature if the withdrawal epoch
/// precedes the deposit epoch; not yet closed if the withdrawal epoch has
/// no rate entry; an overflow if the entitlement passes the ceiling; and
/// otherwise a plain cell carrying exactly the full entitlement.
pub open spec fn spec_withdraw(
    input: Cell,
    rates: Seq<u64>,
    withdrawal_index: u64,
) -> Result<Cell, DaoError> {
    match input.kind {
        CellKind::Prepare { deposit_epoch } => {
            if deposit_epoch.index > withdrawal_index {
                Err(DaoError::ImmatureWithdrawal)
            } else if withdrawal_index >= rates.len() {
                Err(DaoError::EpochNotYetClosed)
            } else {
                let total = spec_total_entitlement(
                    input.capacity,
                    rates[deposit_epoch.index as int],
                    rates[withdrawal_index as int],
                );
                if total > u64::MAX {
                    Err(DaoError::CapacityOverflow)
                } else {
                    Ok(Cell { capacity: total as u64, kind: CellKind::Plain })
                }
            }
        },
        _ => Err(DaoError::StageMismatch),
    }
}

/// Consumes a prepared cell into the final withdrawal output, paying the
/// principal plus the interest accrued between the recorded deposit epoch
/// and `withdrawal_index`.  The output carries the full entitlement; a
/// withdrawal may also claim less, which the verifier accepts, but this
/// constructor never over-claims.
pub fn withdraw(input: &Cell, rates: &RateTable, withdrawal_index: u64) -> (r: Result<
    Cell,
    DaoError,
>)
    requires
        rates.wf(),
        input.wf(),
    ensures
        r == spec_withdraw(*input, rates.rates(), withdrawal_index),
        r matches Ok(c) ==> c.wf(),
{
    let deposit_epoch = match input.kind {
        CellKind::Prepare { deposit_epoch } => deposit_epoch,
        _ => {
            return Err(DaoError::StageMismatch);
        },
    };
    if deposit_epoch.index > withdrawal_index {
        return Err(DaoError::ImmatureWithdrawal);
    }
    let interest = match rates.interest(input.capacity, deposit_epoch.index, withdrawal_index) {
        Ok(v) => v,
        Err(e) => {
            return Err(e);
        },
    };
    let total = match capacity_add(input.capacity, interest) {
        Ok(v) => v,
        Err(e) => {
            return Err(e);
        },
    };
    Ok(Cell { capacity: total, kind: CellKind::Plain })
}

} // verus!
