use vstd::prelude::*;

use crate::epoch::ChainPosition;
use crate::epoch::EpochPoint;
use crate::epoch::point_fraction;
use crate::epoch::point_le;
use crate::epoch::fraction_le;
use crate::epoch::spec_point_le;
use crate::epoch::spec_sum_le_point;
use crate::epoch::sum_fraction;
use crate::errors::DaoError;

verus! {

/// Mask of the 56-bit magnitude of an encoded time-lock.
///
/// The wire layout of a raw `since` value is: top byte of flags (bit 7 is
/// the relative flag, bits 5 and 6 select the metric - 0 block number,
/// 1 epoch, 2 timestamp - and bits 0 through 4 are reserved and must be
/// zero), then a 56-bit magnitude.  For the epoch metric the magnitude
/// itself packs the fraction denominator in bits 40 through 55, the
/// fraction numerator in bits 24 through 39, and the whole epoch index in
/// bits 0 through 23.
pub const SINCE_VALUE_MASK: u64 = 0x00FF_FFFF_FFFF_FFFF;

/// A decoded time-lock: the discriminant picks the metric and whether the
/// magnitude is an absolute chain point or an offset from the spent cell's
/// own creation point.
#[derive(Clone, Copy, Debug, PartialEq, Eq, Structural)]
pub enum SinceValue {
    /// Satisfied once the chain reaches this block height.
    AbsoluteBlock { number: u64 },
    /// Satisfied once this many blocks have passed since the spent cell was
    /// created.
    RelativeBlock { offset: u64 },
    /// Satisfied once the chain reaches this epoch point.
    AbsoluteEpoch { point: EpochPoint },
    /// Satisfied once this many epochs (as a point-valued offset) have
    /// passed since the spent cell was created.
    RelativeEpoch { point: EpochPoint },
    /// Satisfied once the chain's timestamp reaches this value (ms).
    AbsoluteTimestamp { millis: u64 },
    /// Satisfied once this many milliseconds have passed since the spent
    /// cell was created.
    RelativeTimestamp { millis: u64 },
}

impl SinceValue {
    /// Every magnitude fits the 56 bits the encoding carries, and epoch
    /// points are well-formed.
    pub open spec fn wf(self) -> bool {
        match self {
            SinceValue::AbsoluteBlock { number } => number <= SINCE_VALUE_MASK,
            SinceValue::RelativeBlock { offset } => offset <= SINCE_VALUE_MASK,
            SinceValue::AbsoluteEpoch { point } => point.wf(),
            SinceValue::RelativeEpoch { point } => point.wf(),
            SinceValue::AbsoluteTimestamp { millis } => millis <= SINCE_VALUE_MASK,
            SinceValue::RelativeTimestamp { millis } => millis <= SINCE_VALUE_MASK,
        }
    }
}

/// The epoch point packed into a 56-bit magnitude, or an error where the
/// denominator is zero or the fraction is not strictly inside the epoch.
pub open spec fn spec_decode_epoch_magnitude(mag: u64) -> Result<EpochPoint, DaoError> {
    let denom = (mag >> 40) & 0xFFFF;
    let numer = (mag >> 24) & 0xFFFF;
    let index = mag & 0xFF_FFFF;
    if denom == 0 || numer >= denom {
        Err(DaoError::InvalidSinceEncoding)
    } else {
        Ok(EpochPoint { index, numer, denom })
    }
}

/// What a raw `since` value decodes to: the variant named by the flag
/// byte, or `InvalidSinceEncoding` on reserved bits, an unknown metric, or
/// a malformed epoch fraction.
pub open spec fn spec_decode_since(raw: u64) -> Result<SinceValue, DaoError> {
    let flags = raw >> 56;
    let mag = raw & SINCE_VALUE_MASK;
    let relative = (flags & 0x80) != 0;
    let metric = (flags >> 5) & 0x3;
    if (flags & 0x1F) != 0 {
        Err(DaoError::InvalidSinceEncoding)
    } else if metric == 0 {
        if relative {
            Ok(SinceValue::RelativeBlock { offset: mag })
        } else {
            Ok(SinceValue::AbsoluteBlock { number: mag })
        }
    } else if metric == 1 {
        match spec_decode_epoch_magnitude(mag) {
            Ok(point) => if relative {
                Ok(SinceValue::RelativeEpoch { point })
            } else {
                Ok(SinceValue::AbsoluteEpoch { point })
            },
            Err(e) => Err(e),
        }
    } else if metric == 2 {
        if relative {
            Ok(SinceValue::RelativeTimestamp { millis: mag })
        } else {
            Ok(SinceValue::AbsoluteTimestamp { millis: mag })
        }
    } else {
        Err(DaoError::InvalidSinceEncoding)
    }
}

/// Whatever a raw value decodes to is well-formed.
pub proof fn lemma_decoded_since_wf(raw: u64)
    ensures
        spec_decode_since(raw) matches Ok(s) ==> s.wf(),
{
    let mag = raw & SINCE_VALUE_MASK;
    assert((raw & 0x00FF_FFFF_FFFF_FFFFu64) <= 0x00FF_FFFF_FFFF_FFFFu64) by (bit_vector);
    assert(((mag >> 40) & 0xFFFF) <= 0xFFFF) by (bit_vector);
    assert(((mag >> 24) & 0xFFFF) <= 0xFFFF) by (bit_vector);
    assert((mag & 0xFF_FFFF) <= 0xFF_FFFF) by (bit_vector);
}

/// Decodes a raw time-lock, rejecting reserved bits, unknown metric
/// discriminants, and malformed epoch fractions.
pub fn decode_since(raw: u64) -> (r: Result<SinceValue, DaoError>)
    ensures
        r == spec_decode_since(raw),
        r matches Ok(s) ==> s.wf(),
{
    proof {
        lemma_decoded_since_wf(raw);
    }
    let flags: u64 = raw >> 56;
    let mag: u64 = raw & SINCE_VALUE_MASK;
    if (flags & 0x1F) != 0 {
        return Err(DaoError::InvalidSinceEncoding);
    }
    let relative: bool = (flags & 0x80) != 0;
    let metric: u64 = (flags >> 5) & 0x3;
    if metric == 0 {
        if relative {
            Ok(SinceValue::RelativeBlock { offset: mag })
        } else {
            Ok(SinceValue::AbsoluteBlock { number: mag })
        }
    } else if metric == 1 {
        let denom: u64 = (mag >> 40) & 0xFFFF;
        let numer: u64 = (mag >> 24) & 0xFFFF;
        let index: u64 = mag & 0xFF_FFFF;
        if denom == 0 || numer >= denom {
            Err(DaoError::InvalidSinceEncoding)
        } else {
            let point = EpochPoint { index, numer, denom };
            if relative {
                Ok(SinceValue::RelativeEpoch { point })
            } else {
                Ok(SinceValue::AbsoluteEpoch { point })
            }
        }
    } else if metric == 2 {
        if relative {
            Ok(SinceValue::RelativeTimestamp { millis: mag })
        } else {
            Ok(SinceValue::AbsoluteTimestamp { millis: mag })
        }
    } else {
        Err(DaoError::InvalidSinceEncoding)
    }
}

/// Encodes a time-lock into its raw form; decoding the result gives the
/// value back, so the wire form round-trips byte-identically.
pub fn encode_since(s: &SinceValue) -> (r: u64)
    requires
        s.wf(),
    ensures
        spec_decode_since(r) == Ok::<SinceValue, DaoError>(*s),
{
    match s {
        SinceValue::AbsoluteBlock { number } => {
            let raw: u64 = *number;
            proof {
                let mag = *number;
                assert(raw >> 56 == 0 && raw & 0x00FF_FFFF_FFFF_FFFFu64 == mag)
                    by (bit_vector)
                    requires
                        raw == mag,
                        mag <= 0x00FF_FFFF_FFFF_FFFFu64,
                ;
                assert((0u64 & 0x1F) == 0 && ((0u64 >> 5) & 0x3) == 0
                    && (0u64 & 0x80) == 0) by (bit_vector);
            }
            raw
        },
        SinceValue::RelativeBlock { offset } => {
            let raw: u64 = (0x80u64 << 56) | *offset;
            proof {
                let mag = *offset;
                assert(raw >> 56 == 0x80 && raw & 0x00FF_FFFF_FFFF_FFFFu64 == mag)
                    by (bit_vector)
                    requires
                        raw == (0x80u64 << 56) | mag,
                        mag <= 0x00FF_FFFF_FFFF_FFFFu64,
                ;
                assert((0x80u64 & 0x1F) == 0 && ((0x80u64 >> 5) & 0x3) == 0
                    && (0x80u64 & 0x80) != 0) by (bit_vector);
            }
            raw
        },
        SinceValue::AbsoluteEpoch { point } => {
            let mag: u64 = encode_epoch_magnitude(point);
            let raw: u64 = (0x20u64 << 56) | mag;
            proof {
                assert(raw >> 56 == 0x20 && raw & 0x00FF_FFFF_FFFF_FFFFu64 == mag)
                    by (bit_vector)
                    requires
                        raw == (0x20u64 << 56) | mag,
                        mag <= 0x00FF_FFFF_FFFF_FFFFu64,
                ;
                assert((0x20u64 & 0x1F) == 0 && ((0x20u64 >> 5) & 0x3) == 1
                    && (0x20u64 & 0x80) == 0) by (bit_vector);
            }
            raw
        },
        SinceValue::RelativeEpoch { point } => {
            let mag: u64 = encode_epoch_magnitude(point);
            let raw: u64 = (0xA0u64 << 56) | mag;
            proof {
                assert(raw >> 56 == 0xA0 && raw & 0x00FF_FFFF_FFFF_FFFFu64 == mag)
                    by (bit_vector)
                    requires
                        raw == (0xA0u64 << 56) | mag,
                        mag <= 0x00FF_FFFF_FFFF_FFFFu64,
                ;
                assert((0xA0u64 & 0x1F) == 0 && ((0xA0u64 >> 5) & 0x3) == 1
                    && (0xA0u64 & 0x80) != 0) by (bit_vector);
            }
            raw
        },
        SinceValue::AbsoluteTimestamp { millis } => {
            let raw: u64 = (0x40u64 << 56) | *millis;
            proof {
                let mag = *millis;
                assert(raw >> 56 == 0x40 && raw & 0x00FF_FFFF_FFFF_FFFFu64 == mag)
                    by (bit_vector)
                    requires
                        raw == (0x40u64 << 56) | mag,
                        mag <= 0x00FF_FFFF_FFFF_FFFFu64,
                ;
                assert((0x40u64 & 0x1F) == 0 && ((0x40u64 >> 5) & 0x3) == 2
                    && (0x40u64 & 0x80) == 0) by (bit_vector);
            }
            raw
        },
        SinceValue::RelativeTimestamp { millis } => {
            let raw: u64 = (0xC0u64 << 56) | *millis;
            proof {
                let mag = *millis;
                assert(raw >> 56 == 0xC0 && raw & 0x00FF_FFFF_FFFF_FFFFu64 == mag)
                    by (bit_vector)
                    requires
                        raw == (0xC0u64 << 56) | mag,
                        mag <= 0x00FF_FFFF_FFFF_FFFFu64,
                ;
                assert((0xC0u64 & 0x1F) == 0 && ((0xC0u64 >> 5) & 0x3) == 2
                    && (0xC0u64 & 0x80) != 0) by (bit_vector);
            }
            raw
        },
    }
}

/// Packs a well-formed epoch point into a 56-bit magnitude that decodes
/// back to the same point.
pub fn encode_epoch_magnitude(p: &EpochPoint) -> (mag: u64)
    requires
        p.wf(),
    ensures
        mag <= SINCE_VALUE_MASK,
        spec_decode_epoch_magnitude(mag) == Ok::<EpochPoint, DaoError>(*p),
{
    let mag: u64 = (p.denom << 40) | (p.numer << 24) | p.index;
    proof {
        let d = p.denom;
        let n = p.numer;
        let i = p.index;
        assert(mag <= 0x00FF_FFFF_FFFF_FFFFu64
            && ((mag >> 40) & 0xFFFF) == d
            && ((mag >> 24) & 0xFFFF) == n
            && (mag & 0xFF_FFFF) == i)
            by (bit_vector)
            requires
                mag == (d << 40) | (n << 24) | i,
                d <= 0xFFFF,
                n <= 0xFFFF,
                i <= 0xFF_FFFF,
        ;
    }
    mag
}

/// When a time-lock is satisfied, given the chain tip and the position at
/// which the spent cell was created (its anchor): absolute variants compare
/// the magnitude against the tip directly; relative variants add the
/// magnitude to the anchor first.  Epoch comparisons are exact rational
/// comparisons.
pub open spec fn spec_satisfied(s: SinceValue, tip: ChainPosition, anchor: ChainPosition) -> bool {
    match s {
        SinceValue::AbsoluteBlock { number } => number <= tip.block_number,
        SinceValue::RelativeBlock { offset } =>
            anchor.block_number + offset <= tip.block_number,
        SinceValue::AbsoluteEpoch { point } => spec_point_le(point, tip.epoch),
        SinceValue::RelativeEpoch { point } =>
            spec_sum_le_point(anchor.epoch, point, tip.epoch),
        SinceValue::AbsoluteTimestamp { millis } => millis <= tip.timestamp_ms,
        SinceValue::RelativeTimestamp { millis } =>
            anchor.timestamp_ms + millis <= tip.timestamp_ms,
    }
}

/// Whether a decoded time-lock is satisfied at `tip`, anchored at the
/// spent cell's own creation position.
pub fn since_satisfied(s: &SinceValue, tip: &ChainPosition, anchor: &ChainPosition) -> (r: bool)
    requires
        s.wf(),
        tip.wf(),
        anchor.wf(),
    ensures
        r == spec_satisfied(*s, *tip, *anchor),
{
    match s {
        SinceValue::AbsoluteBlock { number } => *number <= tip.block_number,
        SinceValue::RelativeBlock { offset } => {
            match anchor.block_number.checked_add(*offset) {
                Some(target) => target <= tip.block_number,
                None => false,
            }
        },
        SinceValue::AbsoluteEpoch { point } => point_le(point, &tip.epoch),
        SinceValue::RelativeEpoch { point } => {
            let target = sum_fraction(&anchor.epoch, point);
            let at_tip = point_fraction(&tip.epoch);
            fraction_le(&target, &at_tip)
        },
        SinceValue::AbsoluteTimestamp { millis } => *millis <= tip.timestamp_ms,
        SinceValue::RelativeTimestamp { millis } => {
            match anchor.timestamp_ms.checked_add(*millis) {
                Some(target) => target <= tip.timestamp_ms,
                None => false,
            }
        },
    }
}

} // verus!
