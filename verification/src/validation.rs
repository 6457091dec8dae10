use vstd::prelude::*;

use crate::capacity::capacity_add;
use crate::epoch::ChainPosition;
use crate::epoch::EpochPoint;
use crate::epoch::fraction_le;
use crate::epoch::plus_whole_fraction;
use crate::epoch::point_fraction;
use crate::epoch::sum_fraction;
use crate::errors::DaoError;
use crate::lifecycle::Cell;
use crate::lifecycle::CellKind;
use crate::rate::RateTable;
use crate::rate::spec_total_entitlement;
use crate::since::SinceValue;
use crate::since::decode_since;
use crate::since::spec_decode_since;

verus! {

/// The minimum maturity window: how many whole epochs must separate the
/// deposit point from the point a withdrawal's time-lock resolves to.
/// A fixed constant of the protocol.
pub const MINIMUM_MATURITY_EPOCHS: u64 = 2;

/// One protocol step inside a proposed transaction: the consumed cell, the
/// raw time-lock on the spending input, the chain position at which the
/// consumed cell was created (the anchor of any relative time-lock), and
/// the cell the transaction produces in its place.
#[derive(Clone, Copy, Debug, PartialEq, Eq, Structural)]
pub struct DaoOperation {
    /// The cell the transaction consumes.
    pub input: Cell,
    /// The raw `since` value on the spending input.
    pub since: u64,
    /// Where the consumed cell was created.
    pub anchor: ChainPosition,
    /// The cell the transaction produces.
    pub output: Cell,
}

impl DaoOperation {
    /// Both cells and the anchor are well-formed.
    pub open spec fn wf(self) -> bool {
        &&& self.input.wf()
        &&& self.output.wf()
        &&& self.anchor.wf()
    }
}

/// A proposed transaction: its protocol steps, in order.
pub struct DaoTransaction {
    /// The steps, each pairing a consumed cell with the cell produced in
    /// its place.
    pub operations: Vec<DaoOperation>,
}

impl DaoTransaction {
    /// Every operation is well-formed.
    pub open spec fn wf(self) -> bool {
        forall|k: int|
            0 <= k < self.operations@.len() ==> (#[trigger] self.operations@[k]).wf()
    }
}

/// An immutable snapshot of the chain state a verification runs against:
/// the tip position and the accumulated rate table.  Every epoch up to and
/// including the tip's has a closed rate entry.
pub struct ChainView {
    /// The current chain tip.
    pub tip: ChainPosition,
    /// The accumulated rate table, one entry per closed epoch.
    pub rates: RateTable,
}

impl ChainView {
    /// The tip is well-formed, the table is monotonic, and the tip's epoch
    /// has closed.
    pub open spec fn wf(self) -> bool {
        &&& self.tip.wf()
        &&& self.rates.wf()
        &&& self.tip.epoch.index < self.rates.rates().len()
    }
}

/// What a Deposited -> Prepared step must satisfy: the produced cell is a
/// prepared cell stamped with the deposit's own creation epoch, at exactly
/// the deposit's capacity.
pub open spec fn spec_check_prepare(op: DaoOperation) -> Result<(), DaoError> {
    match op.output.kind {
        CellKind::Prepare { deposit_epoch } => {
            if deposit_epoch != op.anchor.epoch {
                Err(DaoError::StageMismatch)
            } else if op.output.capacity != op.input.capacity {
                Err(DaoError::CapacityMismatch)
            } else {
                Ok(())
            }
        },
        _ => Err(DaoError::StageMismatch),
    }
}

/// The chain point a withdrawal's time-lock resolves to, as an exact
/// fraction `(numerator, denominator)`: the encoded point itself for an
/// absolute epoch lock, the anchor plus the encoded offset for a relative
/// one.  Meaningful only for the two epoch variants.
pub open spec fn spec_resolved_target(s: SinceValue, anchor: ChainPosition) -> (int, int) {
    match s {
        SinceValue::AbsoluteEpoch { point } => (point.num(), point.den()),
        SinceValue::RelativeEpoch { point } => (
            anchor.epoch.num() * point.den() + point.num() * anchor.epoch.den(),
            anchor.epoch.den() * point.den(),
        ),
        _ => (0, 1),
    }
}

/// What a Prepared -> Withdrawn step must satisfy, checked in this order:
/// the produced cell is plain; the time-lock decodes and uses the epoch
/// metric; the resolved point has been reached by the tip; the resolved
/// point is no earlier than the deposit epoch plus the maturity window;
/// and the claimed capacity does not exceed principal plus interest (a
/// withdrawal may claim less than its entitlement, never more).
pub open spec fn spec_check_withdraw(
    op: DaoOperation,
    deposit_epoch: EpochPoint,
    chain: ChainView,
) -> Result<(), DaoError> {
    if op.output.kind != CellKind::Plain {
        Err(DaoError::StageMismatch)
    } else {
        match spec_decode_since(op.since) {
            Err(e) => Err(e),
            Ok(s) => {
                if !(s matches SinceValue::AbsoluteEpoch { .. }
                    || s matches SinceValue::RelativeEpoch { .. }) {
                    Err(DaoError::InvalidSinceEncoding)
                } else {
                    let target = spec_resolved_target(s, op.anchor);
                    if !(target.0 * chain.tip.epoch.den()
                        <= chain.tip.epoch.num() * target.1) {
                        Err(DaoError::ImmatureWithdrawal)
                    } else if !((deposit_epoch.num()
                        + MINIMUM_MATURITY_EPOCHS * deposit_epoch.den()) * target.1
                        <= target.0 * deposit_epoch.den()) {
                        Err(DaoError::ImmatureWithdrawal)
                    } else {
                        let total = spec_total_entitlement(
                            op.input.capacity,
                            chain.rates.rates()[deposit_epoch.index as int],
                            chain.rates.rates()[chain.tip.epoch.index as int],
                        );
                        if total > u64::MAX {
                            Err(DaoError::CapacityOverflow)
                        } else if op.output.capacity > total {
                            Err(DaoError::CapacityOverflow)
                        } else {
                            Ok(())
                        }
                    }
                }
            },
        }
    }
}

/// What one step must satisfy, by the stage of the consumed cell: a
/// deposit may only move to prepared, a prepared cell may only be
/// withdrawn, and a plain cell takes no further part in the protocol.
pub open spec fn spec_check_operation(op: DaoOperation, chain: ChainView) -> Result<
    (),
    DaoError,
> {
    match op.input.kind {
        CellKind::Deposit => spec_check_prepare(op),
        CellKind::Prepare { deposit_epoch } => spec_check_withdraw(op, deposit_epoch, chain),
        CellKind::Plain => Err(DaoError::StageMismatch),
    }
}

/// What a whole transaction must satisfy: every step in order, stopping at
/// the first rejection.
pub open spec fn spec_check_transaction(ops: Seq<DaoOperation>, chain: ChainView) -> Result<
    (),
    DaoError,
>
    decreases ops.len(),
{
    if ops.len() == 0 {
        Ok(())
    } else {
        match spec_check_operation(ops[0], chain) {
            Ok(_) => spec_check_transaction(ops.drop_first(), chain),
            Err(e) => Err(e),
        }
    }
}

/// A time-lock resolving no earlier than `deposit + m` whole epochs, yet
/// already reached by the tip, pins the tip's whole epoch at least `m`
/// epochs past the deposit's.
proof fn lemma_matured_target_bounds(d: EpochPoint, tn: int, td: int, tip: EpochPoint, m: u64)
    requires
        d.wf(),
        tip.wf(),
        td > 0,
        m >= 1,
        (d.num() + m * d.den()) * td <= tn * d.den(),
        tn * tip.den() <= tip.num() * td,
    ensures
        d.index + m <= tip.index,
{
    let a = d.num() + m * d.den();
    assert(a * td * tip.den() <= tn * d.den() * tip.den()) by (nonlinear_arith)
        requires
            a * td <= tn * d.den(),
            tip.den() > 0,
    ;
    assert(tn * d.den() * tip.den() <= tip.num() * td * d.den()) by (nonlinear_arith)
        requires
            tn * tip.den() <= tip.num() * td,
            d.den() > 0,
    ;
    assert(a * tip.den() <= tip.num() * d.den()) by (nonlinear_arith)
        requires
            a * td * tip.den() <= tip.num() * td * d.den(),
            td > 0,
    ;
    assert(d.num() >= d.index * d.den()) by (nonlinear_arith)
        requires
            d.num() == d.index * d.den() + d.numer,
            d.numer >= 0,
    ;
    assert((d.index + m) * d.den() <= a) by (nonlinear_arith)
        requires
            a == d.num() + m * d.den(),
            d.num() >= d.index * d.den(),
    ;
    assert((d.index + m) * d.den() * tip.den() <= a * tip.den()) by (nonlinear_arith)
        requires
            (d.index + m) * d.den() <= a,
            tip.den() > 0,
    ;
    assert(tip.num() <= (tip.index + 1) * tip.den() - 1) by (nonlinear_arith)
        requires
            tip.num() == tip.index * tip.den() + tip.numer,
            tip.numer <= tip.den() - 1,
    ;
    assert(d.index + m < tip.index + 1) by (nonlinear_arith)
        requires
            (d.index + m) * d.den() * tip.den() <= a * tip.den(),
            a * tip.den() <= tip.num() * d.den(),
            tip.num() <= (tip.index + 1) * tip.den() - 1,
            d.den() > 0,
            tip.den() > 0,
    ;
}

/// The conservation law: an accepted Prepared -> Withdrawn step claims at
/// most the principal plus the interest accrued between the deposit epoch
/// and the tip epoch.  (The `withdraw` constructor claims exactly that
/// entitlement.)
pub proof fn lemma_conservation(op: DaoOperation, chain: ChainView, deposit_epoch: EpochPoint)
    requires
        op.input.kind == (CellKind::Prepare { deposit_epoch }),
        spec_check_operation(op, chain) == Ok::<(), DaoError>(()),
    ensures
        op.output.capacity <= spec_total_entitlement(
            op.input.capacity,
            chain.rates.rates()[deposit_epoch.index as int],
            chain.rates.rates()[chain.tip.epoch.index as int],
        ),
{
}

/// The maturity law: a withdrawal whose time-lock resolves to a point
/// before the deposit epoch plus the maturity window is always rejected
/// as an immature withdrawal, whatever else the transaction looks like.
pub proof fn lemma_maturity_enforced(
    op: DaoOperation,
    chain: ChainView,
    deposit_epoch: EpochPoint,
    s: SinceValue,
)
    requires
        op.input.kind == (CellKind::Prepare { deposit_epoch }),
        op.output.kind == CellKind::Plain,
        spec_decode_since(op.since) == Ok::<SinceValue, DaoError>(s),
        s matches SinceValue::AbsoluteEpoch { .. } || s matches SinceValue::RelativeEpoch { .. },
        !((deposit_epoch.num() + MINIMUM_MATURITY_EPOCHS * deposit_epoch.den())
            * spec_resolved_target(s, op.anchor).1
            <= spec_resolved_target(s, op.anchor).0 * deposit_epoch.den()),
    ensures
        spec_check_operation(op, chain) == Err::<(), DaoError>(DaoError::ImmatureWithdrawal),
{
}

/// The stage-ordering law: a step that tries to move a deposit straight to
/// a plain withdrawal output, skipping the prepared stage, is always
/// rejected as a stage mismatch.
pub proof fn lemma_stage_ordering(op: DaoOperation, chain: ChainView)
    requires
        op.input.kind == CellKind::Deposit,
        op.output.kind == CellKind::Plain,
    ensures
        spec_check_operation(op, chain) == Err::<(), DaoError>(DaoError::StageMismatch),
{
}

/// The operation `op` with its produced cell's capacity replaced.
pub open spec fn spec_with_claim(op: DaoOperation, claim: u64) -> DaoOperation {
    DaoOperation {
        output: Cell { capacity: claim, kind: op.output.kind },
        ..op
    }
}

/// The overflow law, first half: take any accepted withdrawal step and
/// rebuild its output with a claim past the entitlement; the rebuilt step
/// is rejected specifically as a capacity overflow, even though its
/// time-lock checks still pass.
pub proof fn lemma_overclaim_rejected(
    op: DaoOperation,
    chain: ChainView,
    deposit_epoch: EpochPoint,
    claim: u64,
)
    requires
        op.input.kind == (CellKind::Prepare { deposit_epoch }),
        spec_check_operation(op, chain) == Ok::<(), DaoError>(()),
        claim > spec_total_entitlement(
            op.input.capacity,
            chain.rates.rates()[deposit_epoch.index as int],
            chain.rates.rates()[chain.tip.epoch.index as int],
        ),
    ensures
        spec_check_operation(spec_with_claim(op, claim), chain)
            == Err::<(), DaoError>(DaoError::CapacityOverflow),
{
}

/// The overflow law, second half: where the entitlement itself passes the
/// representable ceiling, a withdrawal whose time-lock checks pass is
/// rejected as a capacity overflow - never wrapped, clamped or saturated -
/// whatever capacity its output claims.
pub proof fn lemma_entitlement_overflow_rejected(
    op: DaoOperation,
    chain: ChainView,
    deposit_epoch: EpochPoint,
    s: SinceValue,
)
    requires
        op.input.kind == (CellKind::Prepare { deposit_epoch }),
        op.output.kind == CellKind::Plain,
        spec_decode_since(op.since) == Ok::<SinceValue, DaoError>(s),
        s matches SinceValue::AbsoluteEpoch { .. } || s matches SinceValue::RelativeEpoch { .. },
        spec_resolved_target(s, op.anchor).0 * chain.tip.epoch.den()
            <= chain.tip.epoch.num() * spec_resolved_target(s, op.anchor).1,
        (deposit_epoch.num() + MINIMUM_MATURITY_EPOCHS * deposit_epoch.den())
            * spec_resolved_target(s, op.anchor).1
            <= spec_resolved_target(s, op.anchor).0 * deposit_epoch.den(),
        spec_total_entitlement(
            op.input.capacity,
            chain.rates.rates()[deposit_epoch.index as int],
            chain.rates.rates()[chain.tip.epoch.index as int],
        ) > u64::MAX,
    ensures
        spec_check_operation(op, chain) == Err::<(), DaoError>(DaoError::CapacityOverflow),
{
}

/// The conservation law's equality half: a step whose produced cell comes
/// from the `withdraw` constructor claims exactly the full entitlement,
/// and is accepted whenever its time-lock decodes to an epoch lock that
/// the tip has reached no earlier than the deposit's maturity window.
pub proof fn lemma_full_entitlement_accepted(
    op: DaoOperation,
    chain: ChainView,
    deposit_epoch: EpochPoint,
    s: SinceValue,
)
    requires
        chain.wf(),
        op.input.kind == (CellKind::Prepare { deposit_epoch }),
        op.output.kind == CellKind::Plain,
        spec_decode_since(op.since) == Ok::<SinceValue, DaoError>(s),
        s matches SinceValue::AbsoluteEpoch { .. } || s matches SinceValue::RelativeEpoch { .. },
        spec_resolved_target(s, op.anchor).0 * chain.tip.epoch.den()
            <= chain.tip.epoch.num() * spec_resolved_target(s, op.anchor).1,
        (deposit_epoch.num() + MINIMUM_MATURITY_EPOCHS * deposit_epoch.den())
            * spec_resolved_target(s, op.anchor).1
            <= spec_resolved_target(s, op.anchor).0 * deposit_epoch.den(),
        crate::lifecycle::spec_withdraw(op.input, chain.rates.rates(), chain.tip.epoch.index)
            == Ok::<Cell, DaoError>(op.output),
    ensures
        spec_check_operation(op, chain) == Ok::<(), DaoError>(()),
        op.output.capacity == spec_total_entitlement(
            op.input.capacity,
            chain.rates.rates()[deposit_epoch.index as int],
            chain.rates.rates()[chain.tip.epoch.index as int],
        ),
{
    let rates = chain.rates.rates();
    let d = deposit_epoch.index as int;
    let w = chain.tip.epoch.index as int;
    assert(d <= w < rates.len());
    assert(rates[d] >= crate::rate::RATE_SCALE);
    assert(rates[d] <= rates[w]);
    crate::rate::lemma_entitlement_at_least_principal(
        op.input.capacity as int,
        rates[d] as int,
        rates[w] as int,
    );
}

/// A transaction is accepted exactly when each of its steps, taken alone,
/// satisfies its stage's rules.
pub proof fn lemma_transaction_accepted_iff_each_step(
    ops: Seq<DaoOperation>,
    chain: ChainView,
)
    ensures
        spec_check_transaction(ops, chain) == Ok::<(), DaoError>(())
            <==> forall|k: int| 0 <= k < ops.len()
                ==> spec_check_operation(#[trigger] ops[k], chain) == Ok::<(), DaoError>(()),
    decreases ops.len(),
{
    if ops.len() > 0 {
        lemma_transaction_accepted_iff_each_step(ops.drop_first(), chain);
        if spec_check_operation(ops[0], chain) == Ok::<(), DaoError>(()) {
            assert forall|k: int| 0 <= k < ops.len()
                && spec_check_transaction(ops, chain) == Ok::<(), DaoError>(())
                implies spec_check_operation(#[trigger] ops[k], chain)
                    == Ok::<(), DaoError>(()) by {
                if k > 0 {
                    assert(ops.drop_first()[k - 1] == ops[k]);
                }
            }
            assert(forall|k: int| 0 <= k < ops.drop_first().len()
                ==> #[trigger] ops.drop_first()[k] == ops[k + 1]);
        }
    }
}

/// Checks one step of a proposed transaction against the chain snapshot.
pub fn check_operation(op: &DaoOperation, chain: &ChainView) -> (r: Result<(), DaoError>)
    requires
        op.wf(),
        chain.wf(),
    ensures
        r == spec_check_operation(*op, *chain),
{
    let deposit_epoch = match op.input.kind {
        CellKind::Deposit => {
            return match op.output.kind {
                CellKind::Prepare { deposit_epoch } => {
                    if !(deposit_epoch == op.anchor.epoch) {
                        Err(DaoError::StageMismatch)
                    } else if op.output.capacity != op.input.capacity {
                        Err(DaoError::CapacityMismatch)
                    } else {
                        Ok(())
                    }
                },
                _ => Err(DaoError::StageMismatch),
            };
        },
        CellKind::Prepare { deposit_epoch } => deposit_epoch,
        CellKind::Plain => {
            return Err(DaoError::StageMismatch);
        },
    };
    match op.output.kind {
        CellKind::Plain => {},
        _ => {
            return Err(DaoError::StageMismatch);
        },
    }
    let decoded = match decode_since(op.since) {
        Ok(s) => s,
        Err(e) => {
            return Err(e);
        },
    };
    let target = match decoded {
        SinceValue::AbsoluteEpoch { point } => point_fraction(&point),
        SinceValue::RelativeEpoch { point } => sum_fraction(&op.anchor.epoch, &point),
        _ => {
            return Err(DaoError::InvalidSinceEncoding);
        },
    };
    let at_tip = point_fraction(&chain.tip.epoch);
    if !fraction_le(&target, &at_tip) {
        return Err(DaoError::ImmatureWithdrawal);
    }
    let matured = plus_whole_fraction(&deposit_epoch, MINIMUM_MATURITY_EPOCHS);
    if !fraction_le(&matured, &target) {
        return Err(DaoError::ImmatureWithdrawal);
    }
    proof {
        lemma_matured_target_bounds(
            deposit_epoch,
            target.num as int,
            target.den as int,
            chain.tip.epoch,
            MINIMUM_MATURITY_EPOCHS,
        );
    }
    let accrued = match chain.rates.interest(
        op.input.capacity,
        deposit_epoch.index,
        chain.tip.epoch.index,
    ) {
        Ok(v) => v,
        Err(e) => {
            return Err(e);
        },
    };
    let entitled = match capacity_add(op.input.capacity, accrued) {
        Ok(v) => v,
        Err(e) => {
            return Err(e);
        },
    };
    if op.output.capacity > entitled {
        return Err(DaoError::CapacityOverflow);
    }
    Ok(())
}

/// Verifies a proposed transaction against an immutable chain snapshot:
/// accepts exactly when every step satisfies its stage's rules, and
/// otherwise reports the first step's specific rejection reason.  Pure:
/// no state changes hands; applying the transaction is the ledger's own
/// affair.
pub fn verify(tx: &DaoTransaction, chain: &ChainView) -> (r: Result<(), DaoError>)
    requires
        tx.wf(),
        chain.wf(),
    ensures
        r == spec_check_transaction(tx.operations@, *chain),
{
    let n = tx.operations.len();
    let mut i: usize = 0;
    proof {
        assert(tx.operations@.skip(0) =~= tx.operations@);
    }
    while i < n
        invariant
            i <= n,
            n == tx.operations@.len(),
            tx.wf(),
            chain.wf(),
            spec_check_transaction(tx.operations@, *chain)
                == spec_check_transaction(tx.operations@.skip(i as int), *chain),
        decreases n - i,
    {
        let op = tx.operations[i];
        proof {
            assert(tx.operations@.skip(i as int)[0] == tx.operations@[i as int]);
        }
        match check_operation(&op, chain) {
            Ok(_) => {},
            Err(e) => {
                return Err(e);
            },
        }
        proof {
            assert(tx.operations@.skip(i as int).drop_first()
                =~= tx.operations@.skip(i as int + 1));
        }
        i += 1;
    }
    proof {
        assert(tx.operations@.skip(n as int).len() == 0);
    }
    Ok(())
}

} // verus!
