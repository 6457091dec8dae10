use vstd::prelude::*;

verus! {

/// Largest encodable whole-epoch index (24 bits in the wire encoding).
pub const MAX_EPOCH_INDEX: u64 = 0xFF_FFFF;

/// Largest encodable fraction denominator (16 bits in the wire encoding).
pub const MAX_EPOCH_DENOMINATOR: u64 = 0xFFFF;

/// A position on the epoch clock: whole epoch `index` plus the fraction
/// `numer / denom` of the way through that epoch.
///
/// Points are totally ordered as rationals; comparison always
/// cross-multiplies, never truncates, so no precision is lost across
/// differing denominators.
#[derive(Clone, Copy, Debug, PartialEq, Eq, Structural)]
pub struct EpochPoint {
    /// The whole epoch number.
    pub index: u64,
    /// Numerator of the position within the epoch.
    pub numer: u64,
    /// Denominator of the position within the epoch (the epoch's length).
    pub denom: u64,
}

impl EpochPoint {
    /// A well-formed point keeps its fraction strictly inside the epoch and
    /// its fields within the widths the wire encoding can carry.
    pub open spec fn wf(self) -> bool {
        &&& self.index <= MAX_EPOCH_INDEX
        &&& 0 < self.denom <= MAX_EPOCH_DENOMINATOR
        &&& self.numer < self.denom
    }

    /// The point as a fraction over `den()`: `index * denom + numer`.
    pub open spec fn num(self) -> int {
        self.index * self.denom + self.numer
    }

    /// The denominator of `num()`.
    pub open spec fn den(self) -> int {
        self.denom as int
    }

    /// Builds a well-formed point, rejecting fields the encoding cannot
    /// carry or a fraction at or past the end of the epoch.
    pub fn new(index: u64, numer: u64, denom: u64) -> (r: Option<EpochPoint>)
        ensures
            ({ let p = (EpochPoint { index, numer, denom }); p.wf() })
                <==> r == Some(EpochPoint { index, numer, denom }),
            r is None <==> !(EpochPoint { index, numer, denom }).wf(),
    {
        if index <= MAX_EPOCH_INDEX && 0 < denom && denom <= MAX_EPOCH_DENOMINATOR
            && numer < denom {
            Some(EpochPoint { index, numer, denom })
        } else {
            None
        }
    }
}

/// `a <= b` as rationals, stated by cross-multiplication.
pub open spec fn spec_point_le(a: EpochPoint, b: EpochPoint) -> bool {
    a.num() * b.den() <= b.num() * a.den()
}

/// `a < b` as rationals, stated by cross-multiplication.
pub open spec fn spec_point_lt(a: EpochPoint, b: EpochPoint) -> bool {
    a.num() * b.den() < b.num() * a.den()
}

/// `a + s <= b` as rationals: the sum of anchor `a` and offset `s` compared
/// against bound `b`, all by cross-multiplication.
pub open spec fn spec_sum_le_point(a: EpochPoint, s: EpochPoint, b: EpochPoint) -> bool {
    (a.num() * s.den() + s.num() * a.den()) * b.den() <= b.num() * (a.den() * s.den())
}

/// A fraction with the numerator and denominator already widened, used to
/// compare epoch points, sums of points, and maturity offsets exactly.
pub struct EpochFraction {
    /// Widened numerator.
    pub num: u128,
    /// Widened denominator, never zero.
    pub den: u128,
}

impl EpochFraction {
    /// Bounds under which every cross-multiplication below stays inside
    /// `u128`: numerator under 2^58, denominator under 2^33.
    pub open spec fn wf(self) -> bool {
        &&& 0 < self.den <= 0x2_0000_0000
        &&& self.num <= 0x400_0000_0000_0000
    }
}

/// `a <= b` on widened fractions, stated by cross-multiplication.
pub open spec fn spec_frac_le(a: EpochFraction, b: EpochFraction) -> bool {
    a.num * b.den <= b.num * a.den
}

/// Widens a point into an exact fraction.
pub fn point_fraction(p: &EpochPoint) -> (f: EpochFraction)
    requires
        p.wf(),
    ensures
        f.wf(),
        f.num == p.num(),
        f.den == p.den(),
        f.num <= 0x100_0000_0000,
        f.den <= 0x1_0000,
{
    proof {
        assert((p.index as u128) * (p.denom as u128) <= 0xFF_FFFF * 0xFFFF)
            by (nonlinear_arith)
            requires
                p.index <= 0xFF_FFFF,
                p.denom <= 0xFFFF,
        ;
    }
    let num: u128 = (p.index as u128) * (p.denom as u128) + (p.numer as u128);
    EpochFraction { num, den: p.denom as u128 }
}

/// The exact sum `a + s` of two points, as a fraction over the product of
/// the two denominators.
pub fn sum_fraction(a: &EpochPoint, s: &EpochPoint) -> (f: EpochFraction)
    requires
        a.wf(),
        s.wf(),
    ensures
        f.wf(),
        f.num == a.num() * s.den() + s.num() * a.den(),
        f.den == a.den() * s.den(),
{
    let fa = point_fraction(a);
    let fs = point_fraction(s);
    proof {
        assert(fa.num * fs.den <= 0x100_0000_0000 * 0x1_0000) by (nonlinear_arith)
            requires
                fa.num <= 0x100_0000_0000,
                fs.den <= 0x1_0000,
        ;
        assert(fs.num * fa.den <= 0x100_0000_0000 * 0x1_0000) by (nonlinear_arith)
            requires
                fs.num <= 0x100_0000_0000,
                fa.den <= 0x1_0000,
        ;
        assert(1 <= fa.den * fs.den <= 0x1_0000 * 0x1_0000) by (nonlinear_arith)
            requires
                0 < fa.den <= 0x1_0000,
                0 < fs.den <= 0x1_0000,
        ;
    }
    EpochFraction { num: fa.num * fs.den + fs.num * fa.den, den: fa.den * fs.den }
}

/// The point `p` moved forward by `whole` whole epochs, as an exact
/// fraction over `p`'s own denominator.
pub fn plus_whole_fraction(p: &EpochPoint, whole: u64) -> (f: EpochFraction)
    requires
        p.wf(),
        whole <= MAX_EPOCH_INDEX,
    ensures
        f.wf(),
        f.num == p.num() + whole * p.den(),
        f.den == p.den(),
{
    let fp = point_fraction(p);
    proof {
        assert((whole as u128) * fp.den <= 0xFF_FFFF * 0x1_0000) by (nonlinear_arith)
            requires
                whole <= 0xFF_FFFF,
                fp.den <= 0x1_0000,
        ;
    }
    EpochFraction { num: fp.num + (whole as u128) * fp.den, den: fp.den }
}

/// Exact comparison of two widened fractions, never losing precision.
pub fn fraction_le(a: &EpochFraction, b: &EpochFraction) -> (r: bool)
    requires
        a.wf(),
        b.wf(),
    ensures
        r == spec_frac_le(*a, *b),
{
    proof {
        assert(a.num * b.den <= 0x400_0000_0000_0000 * 0x2_0000_0000)
            by (nonlinear_arith)
            requires
                a.num <= 0x400_0000_0000_0000,
                b.den <= 0x2_0000_0000,
        ;
        assert(b.num * a.den <= 0x400_0000_0000_0000 * 0x2_0000_0000)
            by (nonlinear_arith)
            requires
                b.num <= 0x400_0000_0000_0000,
                a.den <= 0x2_0000_0000,
        ;
    }
    a.num * b.den <= b.num * a.den
}

/// `a <= b` on epoch points: normalizes by cross-multiplication before
/// comparing, exactly as the order is specified.
pub fn point_le(a: &EpochPoint, b: &EpochPoint) -> (r: bool)
    requires
        a.wf(),
        b.wf(),
    ensures
        r == spec_point_le(*a, *b),
{
    let fa = point_fraction(a);
    let fb = point_fraction(b);
    fraction_le(&fa, &fb)
}

/// Three-way comparison of two epoch points, normalized by
/// cross-multiplication before comparing: points of differing
/// denominators are never compared without normalization, and no
/// precision is lost.
pub fn point_cmp(a: &EpochPoint, b: &EpochPoint) -> (r: core::cmp::Ordering)
    requires
        a.wf(),
        b.wf(),
    ensures
        r == core::cmp::Ordering::Less <==> spec_point_lt(*a, *b),
        r == core::cmp::Ordering::Greater <==> spec_point_lt(*b, *a),
        r == core::cmp::Ordering::Equal <==> (spec_point_le(*a, *b) && spec_point_le(*b, *a)),
{
    let le_ab = point_le(a, b);
    let le_ba = point_le(b, a);
    if le_ab && le_ba {
        core::cmp::Ordering::Equal
    } else if le_ab {
        core::cmp::Ordering::Less
    } else {
        core::cmp::Ordering::Greater
    }
}

/// `a < b` on epoch points.
pub fn point_lt(a: &EpochPoint, b: &EpochPoint) -> (r: bool)
    requires
        a.wf(),
        b.wf(),
    ensures
        r == spec_point_lt(*a, *b),
{
    let fa = point_fraction(a);
    let fb = point_fraction(b);
    let le = fraction_le(&fb, &fa);
    !le
}

/// A snapshot of where the chain stands (or where a cell was created):
/// block height, epoch point, and block timestamp in milliseconds.
#[derive(Clone, Copy, Debug, PartialEq, Eq, Structural)]
pub struct ChainPosition {
    /// Height of the block.
    pub block_number: u64,
    /// Epoch point of the block.
    pub epoch: EpochPoint,
    /// Timestamp of the block, in milliseconds.
    pub timestamp_ms: u64,
}

impl ChainPosition {
    /// Well-formed whenever the epoch point is.
    pub open spec fn wf(self) -> bool {
        self.epoch.wf()
    }
}

} // verus!
