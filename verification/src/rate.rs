use vstd::prelude::*;

use crate::errors::DaoError;

verus! {

/// Scale of the fixed-point accumulated rate: an entry equal to
/// `RATE_SCALE` means a multiplier of exactly one.  The scale, the
/// intermediate 128-bit precision, and the round-down rule below are fixed
/// constants of the protocol: two independent implementations must agree
/// byte-for-byte on the capacities they compute.
pub const RATE_SCALE: u64 = 10_000_000_000_000_000;

/// The accumulated interest-rate table: one entry per closed epoch, in
/// epoch order, append-only and monotonic non-decreasing, every entry at
/// least `RATE_SCALE`.
pub struct RateTable {
    /// Entry `i` is the cumulative rate factor at the close of epoch `i`.
    pub entries: Vec<u64>,
}

impl RateTable {
    /// The table as the sequence of its entries.
    pub open spec fn rates(self) -> Seq<u64> {
        self.entries@
    }

    /// Monotonic non-decreasing, and never below the fixed-point unit.
    pub open spec fn wf(self) -> bool {
        &&& forall|i: int, j: int|
                0 <= i <= j < self.rates().len() ==> self.rates()[i] <= self.rates()[j]
        &&& forall|i: int| 0 <= i < self.rates().len() ==> self.rates()[i] >= RATE_SCALE
    }

    /// The table as of the genesis epoch: one entry, a multiplier of one.
    pub fn genesis() -> (t: RateTable)
        ensures
            t.wf(),
            t.rates() == seq![RATE_SCALE],
    {
        let entries = vec![RATE_SCALE];
        proof {
            assert(entries@ =~= seq![RATE_SCALE]);
        }
        RateTable { entries }
    }

    /// Appends the rate of the epoch that just closed.  The appender owns
    /// the monotonicity of the sequence, so the new entry may not fall
    /// below the last one, nor below the fixed-point unit.
    pub fn push_rate(&mut self, rate: u64)
        requires
            old(self).wf(),
            rate >= RATE_SCALE,
            old(self).rates().len() > 0 ==>
                old(self).rates()[old(self).rates().len() - 1] <= rate,
            old(self).rates().len() < usize::MAX,
        ensures
            final(self).wf(),
            final(self).rates() == old(self).rates().push(rate),
    {
        self.entries.push(rate);
        proof {
            assert(self.rates() =~= old(self).rates().push(rate));
            assert forall|i: int, j: int|
                0 <= i <= j < self.rates().len() implies self.rates()[i] <= self.rates()[j] by {
                if j < self.rates().len() - 1 {
                    assert(old(self).rates()[i] <= old(self).rates()[j]);
                } else if i < j {
                    assert(old(self).rates()[i] <= old(self).rates()[old(self).rates().len() - 1]);
                }
            }
        }
    }

    /// How many epochs have closed.
    pub fn closed_epochs(&self) -> (n: usize)
        ensures
            n == self.rates().len(),
    {
        self.entries.len()
    }

    /// The accumulated rate at the close of `epoch_index`; querying an
    /// epoch that has not closed is an error, never an approximation.
    pub fn rate_at(&self, epoch_index: u64) -> (r: Result<u64, DaoError>)
        ensures
            epoch_index < self.rates().len() ==>
                r == Ok::<u64, DaoError>(self.rates()[epoch_index as int]),
            epoch_index >= self.rates().len() ==>
                r == Err::<u64, DaoError>(DaoError::EpochNotYetClosed),
    {
        if epoch_index < self.entries.len() as u64 {
            Ok(self.entries[epoch_index as usize])
        } else {
            Err(DaoError::EpochNotYetClosed)
        }
    }

    /// The interest owed on `principal` deposited in `deposit_index` and
    /// withdrawn in `withdrawal_index`: the principal scaled by the ratio
    /// of the two accumulated rates, rounded down, minus the principal.
    /// A total entitlement past the capacity ceiling is an overflow error,
    /// never a wrapped value.
    pub fn interest(
        &self,
        principal: u64,
        deposit_index: u64,
        withdrawal_index: u64,
    ) -> (r: Result<u64, DaoError>)
        requires
            self.wf(),
            deposit_index <= withdrawal_index,
        ensures
            withdrawal_index >= self.rates().len() ==>
                r == Err::<u64, DaoError>(DaoError::EpochNotYetClosed),
            withdrawal_index < self.rates().len() ==> ({
                let total = spec_total_entitlement(
                    principal,
                    self.rates()[deposit_index as int],
                    self.rates()[withdrawal_index as int],
                );
                &&& principal <= total
                &&& total > u64::MAX ==> r == Err::<u64, DaoError>(DaoError::CapacityOverflow)
                &&& total <= u64::MAX ==> r == Ok::<u64, DaoError>((total - principal) as u64)
            }),
    {
        let rate_w = match self.rate_at(withdrawal_index) {
            Ok(v) => v,
            Err(e) => {
                return Err(e);
            },
        };
        let rate_d = match self.rate_at(deposit_index) {
            Ok(v) => v,
            Err(e) => {
                return Err(e);
            },
        };
        proof {
            assert((principal as u128) * (rate_w as u128)
                <= 0xFFFF_FFFF_FFFF_FFFF * 0xFFFF_FFFF_FFFF_FFFF)
                by (nonlinear_arith)
                requires
                    principal as u128 <= 0xFFFF_FFFF_FFFF_FFFF,
                    rate_w as u128 <= 0xFFFF_FFFF_FFFF_FFFF,
            ;
        }
        let scaled: u128 = (principal as u128) * (rate_w as u128);
        let total: u128 = scaled / (rate_d as u128);
        proof {
            lemma_entitlement_at_least_principal(
                principal as int,
                rate_d as int,
                rate_w as int,
            );
        }
        if total > u64::MAX as u128 {
            Err(DaoError::CapacityOverflow)
        } else {
            Ok((total - (principal as u128)) as u64)
        }
    }
}

/// The total entitlement of a withdrawal: the principal scaled by the
/// ratio of the accumulated rates at withdrawal and at deposit, in
/// fixed-point, rounded down.  Rounding down is deliberate: interest never
/// favors the depositor through rounding.
pub open spec fn spec_total_entitlement(principal: u64, rate_d: u64, rate_w: u64) -> int {
    (principal * rate_w) / (rate_d as int)
}

/// With a rate ratio of at least one, the entitlement never falls below
/// the principal.
pub proof fn lemma_entitlement_at_least_principal(principal: int, rate_d: int, rate_w: int)
    requires
        0 <= principal,
        0 < rate_d <= rate_w,
    ensures
        principal <= (principal * rate_w) / rate_d,
{
    assert(principal * rate_d <= principal * rate_w) by (nonlinear_arith)
        requires
            0 <= principal,
            rate_d <= rate_w,
    ;
    assert((principal * rate_d) / rate_d == principal) by (nonlinear_arith)
        requires
            0 < rate_d,
    ;
    assert((principal * rate_d) / rate_d <= (principal * rate_w) / rate_d)
        by (nonlinear_arith)
        requires
            0 < rate_d,
            principal * rate_d <= principal * rate_w,
    ;
}

/// The monotonic-rate-table law: for any two closed epochs `i <= j`, the
/// accumulated rate at `i` never exceeds the rate at `j`.
pub proof fn lemma_rate_monotonic(table: RateTable, i: u64, j: u64)
    requires
        table.wf(),
        i <= j,
        (j as int) < table.rates().len(),
    ensures
        table.rates()[i as int] <= table.rates()[j as int],
{
}

} // verus!
