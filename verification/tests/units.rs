//! Unit tests for the capacity arithmetic, the epoch clock, the time-lock
//! codec, the rate table, and the lifecycle constructors.

use dao_core::capacity::capacity_add;
use dao_core::capacity::capacity_sub;
use dao_core::epoch::ChainPosition;
use dao_core::epoch::EpochPoint;
use dao_core::epoch::point_cmp;
use dao_core::epoch::point_le;
use dao_core::epoch::point_lt;
use dao_core::errors::DaoError;
use dao_core::lifecycle::Cell;
use dao_core::lifecycle::CellKind;
use dao_core::lifecycle::deposit;
use dao_core::lifecycle::prepare;
use dao_core::lifecycle::withdraw;
use dao_core::rate::RATE_SCALE;
use dao_core::rate::RateTable;
use dao_core::since::SinceValue;
use dao_core::since::decode_since;
use dao_core::since::encode_since;
use dao_core::since::since_satisfied;

fn point(index: u64, numer: u64, denom: u64) -> EpochPoint {
    EpochPoint { index, numer, denom }
}

fn at(block_number: u64, epoch: EpochPoint, timestamp_ms: u64) -> ChainPosition {
    ChainPosition { block_number, epoch, timestamp_ms }
}

#[test]
fn capacity_add_works_and_overflows() {
    assert_eq!(capacity_add(2, 3), Ok(5));
    assert_eq!(capacity_add(u64::MAX, 0), Ok(u64::MAX));
    assert_eq!(capacity_add(u64::MAX, 1), Err(DaoError::CapacityOverflow));
}

#[test]
fn capacity_sub_works_and_underflows() {
    assert_eq!(capacity_sub(5, 3), Ok(2));
    assert_eq!(capacity_sub(3, 3), Ok(0));
    assert_eq!(capacity_sub(3, 5), Err(DaoError::CapacityUnderflow));
}

#[test]
fn epoch_points_compare_across_denominators() {
    // 1 + 1/3 equals 1 + 2/6 exactly.
    assert!(point_le(&point(1, 1, 3), &point(1, 2, 6)));
    assert!(point_le(&point(1, 2, 6), &point(1, 1, 3)));
    assert!(!point_lt(&point(1, 1, 3), &point(1, 2, 6)));
    // 1/3 < 2/5: cross-multiplication keeps the precision.
    assert!(point_lt(&point(1, 1, 3), &point(1, 2, 5)));
    assert!(!point_le(&point(1, 2, 5), &point(1, 1, 3)));
    // Whole epochs dominate the fraction.
    assert!(point_lt(&point(1, 9, 10), &point(2, 0, 10)));
}

#[test]
fn epoch_point_three_way_compare() {
    assert_eq!(point_cmp(&point(1, 1, 3), &point(1, 2, 6)), std::cmp::Ordering::Equal);
    assert_eq!(point_cmp(&point(1, 1, 3), &point(1, 2, 5)), std::cmp::Ordering::Less);
    assert_eq!(point_cmp(&point(2, 0, 10), &point(1, 9, 10)), std::cmp::Ordering::Greater);
}

#[test]
fn epoch_point_constructor_validates() {
    assert_eq!(EpochPoint::new(3, 1, 2), Some(point(3, 1, 2)));
    assert_eq!(EpochPoint::new(3, 2, 2), None);
    assert_eq!(EpochPoint::new(3, 0, 0), None);
    assert_eq!(EpochPoint::new(0x100_0000, 0, 1), None);
    assert_eq!(EpochPoint::new(3, 0, 0x1_0000), None);
}

#[test]
fn since_round_trips_every_variant() {
    let values = vec![
        SinceValue::AbsoluteBlock { number: 12_345 },
        SinceValue::RelativeBlock { offset: 100 },
        SinceValue::AbsoluteEpoch { point: point(5, 1, 2) },
        SinceValue::RelativeEpoch { point: point(2, 0, 1) },
        SinceValue::AbsoluteTimestamp { millis: 1_600_000_000_000 },
        SinceValue::RelativeTimestamp { millis: 86_400_000 },
    ];
    for v in values {
        assert_eq!(decode_since(encode_since(&v)), Ok(v));
    }
}

#[test]
fn since_decodes_plain_block_number() {
    assert_eq!(decode_since(42), Ok(SinceValue::AbsoluteBlock { number: 42 }));
}

#[test]
fn since_rejects_reserved_flag_bits() {
    let raw = (0x01u64 << 56) | 42;
    assert_eq!(decode_since(raw), Err(DaoError::InvalidSinceEncoding));
}

#[test]
fn since_rejects_unknown_metric() {
    let raw = (0x60u64 << 56) | 42;
    assert_eq!(decode_since(raw), Err(DaoError::InvalidSinceEncoding));
    let raw_rel = (0xE0u64 << 56) | 42;
    assert_eq!(decode_since(raw_rel), Err(DaoError::InvalidSinceEncoding));
}

#[test]
fn since_rejects_zero_epoch_denominator() {
    let raw = 0x20u64 << 56;
    assert_eq!(decode_since(raw), Err(DaoError::InvalidSinceEncoding));
}

#[test]
fn since_rejects_fraction_at_or_past_epoch_end() {
    let mag = (2u64 << 40) | (5u64 << 24) | 7;
    let raw = (0x20u64 << 56) | mag;
    assert_eq!(decode_since(raw), Err(DaoError::InvalidSinceEncoding));
}

#[test]
fn satisfied_compares_blocks_and_timestamps() {
    let tip = at(100, point(5, 0, 2), 5_000);
    let anchor = at(90, point(4, 0, 2), 4_000);
    assert!(since_satisfied(&SinceValue::AbsoluteBlock { number: 100 }, &tip, &anchor));
    assert!(!since_satisfied(&SinceValue::AbsoluteBlock { number: 101 }, &tip, &anchor));
    assert!(since_satisfied(&SinceValue::RelativeBlock { offset: 10 }, &tip, &anchor));
    assert!(!since_satisfied(&SinceValue::RelativeBlock { offset: 11 }, &tip, &anchor));
    assert!(since_satisfied(&SinceValue::AbsoluteTimestamp { millis: 5_000 }, &tip, &anchor));
    assert!(!since_satisfied(&SinceValue::RelativeTimestamp { millis: 1_001 }, &tip, &anchor));
}

#[test]
fn satisfied_never_wraps_a_relative_lock() {
    let tip = at(u64::MAX, point(5, 0, 2), u64::MAX);
    let anchor = at(u64::MAX, point(4, 0, 2), u64::MAX);
    assert!(!since_satisfied(&SinceValue::RelativeBlock { offset: 1 }, &tip, &anchor));
    assert!(!since_satisfied(&SinceValue::RelativeTimestamp { millis: 1 }, &tip, &anchor));
}

#[test]
fn satisfied_compares_epochs_exactly() {
    let tip = at(11, point(5, 1, 2), 11_000);
    let anchor = at(8, point(4, 0, 2), 8_000);
    assert!(since_satisfied(&SinceValue::AbsoluteEpoch { point: point(5, 1, 2) }, &tip, &anchor));
    assert!(!since_satisfied(&SinceValue::AbsoluteEpoch { point: point(5, 2, 3) }, &tip, &anchor));
    // anchor 4 + offset 1.5 = 5.5 = tip exactly.
    assert!(since_satisfied(&SinceValue::RelativeEpoch { point: point(1, 1, 2) }, &tip, &anchor));
    assert!(!since_satisfied(&SinceValue::RelativeEpoch { point: point(1, 2, 3) }, &tip, &anchor));
}

#[test]
fn rate_table_rejects_unclosed_epochs() {
    let mut table = RateTable::genesis();
    table.push_rate(RATE_SCALE + 5);
    assert_eq!(table.closed_epochs(), 2);
    assert_eq!(table.rate_at(0), Ok(RATE_SCALE));
    assert_eq!(table.rate_at(1), Ok(RATE_SCALE + 5));
    assert_eq!(table.rate_at(2), Err(DaoError::EpochNotYetClosed));
    assert_eq!(table.rate_at(u64::MAX), Err(DaoError::EpochNotYetClosed));
}

#[test]
fn interest_rounds_down() {
    let mut table = RateTable::genesis();
    table.push_rate(RATE_SCALE + 1);
    // 100 * (RATE_SCALE + 1) / RATE_SCALE rounds down to 100: no interest.
    assert_eq!(table.interest(100, 0, 1), Ok(0));
}

#[test]
fn interest_of_exact_doubling() {
    let mut table = RateTable::genesis();
    table.push_rate(2 * RATE_SCALE);
    assert_eq!(table.interest(1_000, 0, 1), Ok(1_000));
}

#[test]
fn interest_overflow_is_an_error_not_a_wrap() {
    let mut table = RateTable::genesis();
    table.push_rate(2 * RATE_SCALE);
    assert_eq!(table.interest(u64::MAX, 0, 1), Err(DaoError::CapacityOverflow));
}

#[test]
fn interest_needs_a_closed_withdrawal_epoch() {
    let table = RateTable::genesis();
    assert_eq!(table.interest(1_000, 0, 1), Err(DaoError::EpochNotYetClosed));
}

#[test]
fn deposit_locks_the_principal() {
    let c = deposit(500);
    assert_eq!(c.capacity, 500);
    assert_eq!(c.kind, CellKind::Deposit);
}

#[test]
fn prepare_copies_capacity_and_stamps_epoch() {
    let d = deposit(500);
    let p = prepare(&d, &point(3, 1, 2)).unwrap();
    assert_eq!(p.capacity, 500);
    assert_eq!(p.kind, CellKind::Prepare { deposit_epoch: point(3, 1, 2) });
}

#[test]
fn prepare_rejects_non_deposit_input() {
    let plain = Cell { capacity: 500, kind: CellKind::Plain };
    assert_eq!(prepare(&plain, &point(3, 1, 2)), Err(DaoError::StageMismatch));
    let p = prepare(&deposit(500), &point(3, 1, 2)).unwrap();
    assert_eq!(prepare(&p, &point(3, 1, 2)), Err(DaoError::StageMismatch));
}

#[test]
fn withdraw_rejects_non_prepared_input() {
    let table = RateTable::genesis();
    assert_eq!(withdraw(&deposit(500), &table, 0), Err(DaoError::StageMismatch));
    let plain = Cell { capacity: 500, kind: CellKind::Plain };
    assert_eq!(withdraw(&plain, &table, 0), Err(DaoError::StageMismatch));
}

#[test]
fn withdraw_pays_exact_entitlement() {
    let mut table = RateTable::genesis();
    table.push_rate(RATE_SCALE + 100_000_000_000_000);
    let p = prepare(&deposit(50_000_000_000), &point(0, 1, 2)).unwrap();
    let out = withdraw(&p, &table, 1).unwrap();
    // 50_000_000_000 * 1.01, exactly.
    assert_eq!(out.capacity, 50_500_000_000);
    assert_eq!(out.kind, CellKind::Plain);
}

#[test]
fn withdraw_before_deposit_epoch_rejected() {
    let mut table = RateTable::genesis();
    table.push_rate(RATE_SCALE + 5);
    let p = prepare(&deposit(500), &point(1, 0, 2)).unwrap();
    assert_eq!(withdraw(&p, &table, 0), Err(DaoError::ImmatureWithdrawal));
}

#[test]
fn withdraw_needs_a_closed_epoch() {
    let table = RateTable::genesis();
    let p = prepare(&deposit(500), &point(1, 0, 2)).unwrap();
    assert_eq!(withdraw(&p, &table, 1), Err(DaoError::EpochNotYetClosed));
}

#[test]
fn error_tags_are_distinct_and_stable() {
    assert_eq!(DaoError::InvalidSinceEncoding.tag(), "InvalidSinceEncoding");
    assert_eq!(DaoError::EpochNotYetClosed.tag(), "EpochNotYetClosed");
    assert_eq!(DaoError::ImmatureWithdrawal.tag(), "ImmatureWithdrawal");
    assert_eq!(DaoError::StageMismatch.tag(), "StageMismatch");
    assert_eq!(DaoError::CapacityOverflow.tag(), "CapacityOverflow");
    assert_eq!(DaoError::CapacityUnderflow.tag(), "CapacityUnderflow");
    assert_eq!(DaoError::CapacityMismatch.tag(), "CapacityMismatch");
}
