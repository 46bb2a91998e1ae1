//! The interval type: two binary32 endpoints packed into one 64-bit word.
//!
//! `Interval32` is the single-word carrier: its low 32 bits are the lower
//! endpoint's bit pattern and its high 32 bits the upper endpoint's, so the
//! numeric 64-bit value is the same on every platform. `Bounds32` is the
//! unpacked two-field view of the same bits. An interval is well formed
//! when its lower endpoint compares `<=` to its upper one under IEEE-754
//! order, which also rules NaN endpoints out; every constructor here either
//! establishes that invariant or refuses with a `DomainError`.

use vstd::prelude::*;
use crate::fbits::is_nan;
use crate::fbits::sval;
use crate::fbits::f32_lt;
use crate::fbits::f32_le;
use crate::fbits::f32_eq;
use crate::fbits::lt_bits;
use crate::fbits::le_bits;
use crate::fbits::eq_bits;
use crate::fbits::min_bits;
use crate::fbits::max_bits;

verus! {

/// A violated precondition: construction with crossed bounds, or division
/// by an interval whose endpoints bracket zero.
#[derive(Clone, Copy, Debug, PartialEq, Eq)]
pub enum DomainError {
    InvalidBounds,
    DivisionByZeroInterval,
}

/// The unpacked view of an interval: the two endpoints' bit patterns.
#[derive(Clone, Copy, Debug, PartialEq, Eq)]
pub struct Bounds32 {
    pub lower: u32,
    pub upper: u32,
}

/// The packed view: one 64-bit word whose low half is the lower endpoint
/// and whose high half is the upper endpoint.
#[derive(Clone, Copy, Debug, PartialEq, Eq)]
pub struct Interval32 {
    pub bits: u64,
}

/// The word that packs two endpoint patterns.
pub open spec fn pack_spec(lower: u32, upper: u32) -> u64 {
    (lower as u64) | ((upper as u64) << 32)
}

impl Bounds32 {
    /// The ordering invariant: `lower <= upper` under IEEE-754 order,
    /// which no NaN satisfies.
    pub open spec fn wf(self) -> bool {
        f32_le(self.lower, self.upper)
    }
}

impl Interval32 {
    /// The lower endpoint's bit pattern: the word's low 32 bits.
    pub open spec fn lower_bits(self) -> u32 {
        (self.bits & 0xffff_ffff) as u32
    }

    /// The upper endpoint's bit pattern: the word's high 32 bits.
    pub open spec fn upper_bits(self) -> u32 {
        (self.bits >> 32) as u32
    }

    /// The ordering invariant, read through the packed word.
    pub open spec fn wf(self) -> bool {
        f32_le(self.lower_bits(), self.upper_bits())
    }
}

/// Unpacking the packed word recovers both endpoint patterns exactly.
pub proof fn lemma_pack_unpack(lower: u32, upper: u32)
    ensures
        (pack_spec(lower, upper) & 0xffff_ffff) as u32 == lower,
        (pack_spec(lower, upper) >> 32) as u32 == upper,
{
    assert(((((lower as u64) | ((upper as u64) << 32)) & 0xffff_ffff) as u32) == lower
        && ((((lower as u64) | ((upper as u64) << 32)) >> 32) as u32) == upper) by (bit_vector);
}

/// Repacking a word's two halves yields the word back, bit for bit.
pub proof fn lemma_unpack_pack(w: u64)
    ensures
        pack_spec((w & 0xffff_ffff) as u32, (w >> 32) as u32) == w,
{
    assert(((((w & 0xffff_ffff) as u32) as u64) | ((((w >> 32) as u32) as u64) << 32))
        == w) by (bit_vector);
}

impl Bounds32 {
    /// Validated construction: the two patterns are kept exactly when they
    /// are ordered, and refused with `InvalidBounds` otherwise.
    pub fn new(lower: u32, upper: u32) -> (r: Result<Bounds32, DomainError>)
        ensures
            r is Ok <==> f32_le(lower, upper),
            r matches Ok(b) ==> b.wf() && b.lower == lower && b.upper == upper,
            r matches Err(e) ==> e == DomainError::InvalidBounds,
    {
        if le_bits(lower, upper) {
            Ok(Bounds32 { lower, upper })
        } else {
            Err(DomainError::InvalidBounds)
        }
    }

    /// Packs the two endpoints into the single-word view, bit for bit.
    pub fn interval(&self) -> (iv: Interval32)
        requires
            self.wf(),
        ensures
            iv.wf(),
            iv.lower_bits() == self.lower,
            iv.upper_bits() == self.upper,
            iv.bits == pack_spec(self.lower, self.upper),
    {
        proof {
            lemma_pack_unpack(self.lower, self.upper);
        }
        Interval32 { bits: (self.lower as u64) | ((self.upper as u64) << 32) }
    }
}

impl Interval32 {
    /// Validated construction from two endpoint bit patterns: succeeds
    /// exactly when `lower <= upper` under IEEE-754 order, and the built
    /// interval holds exactly the given patterns.
    pub fn new(lower: u32, upper: u32) -> (r: Result<Interval32, DomainError>)
        ensures
            r is Ok <==> f32_le(lower, upper),
            r matches Ok(iv) ==> iv.wf() && iv.lower_bits() == lower && iv.upper_bits() == upper,
            r matches Err(e) ==> e == DomainError::InvalidBounds,
    {
        match Bounds32::new(lower, upper) {
            Ok(b) => Ok(b.interval()),
            Err(e) => Err(e),
        }
    }

    /// Unpacks the word into the two-field view, bit for bit.
    pub fn bounds(&self) -> (b: Bounds32)
        ensures
            b.lower == self.lower_bits(),
            b.upper == self.upper_bits(),
            self.wf() ==> b.wf(),
    {
        let w = self.bits;
        proof {
            assert((((w & 0xffff_ffff) as u32) as u64) == (w & 0xffff_ffff) && (((w >> 32) as u32)
                as u64) == (w >> 32)) by (bit_vector);
        }
        Bounds32 { lower: (w & 0xffff_ffff) as u32, upper: (w >> 32) as u32 }
    }

    /// The packed word itself: the in-memory representation.
    pub fn to_bits(self) -> (w: u64)
        ensures
            w == self.bits,
    {
        self.bits
    }

    /// Validated reinterpretation of a packed word: accepted exactly when
    /// the word's two halves are ordered endpoint patterns.
    pub fn from_bits(w: u64) -> (r: Result<Interval32, DomainError>)
        ensures
            ({
                let iv = Interval32 { bits: w };
                &&& r is Ok <==> iv.wf()
                &&& r matches Ok(got) ==> got == iv
                &&& r matches Err(e) ==> e == DomainError::InvalidBounds
            }),
    {
        proof {
            assert((w & 0xffff_ffff) <= 0xffff_ffff && (w >> 32) <= 0xffff_ffff) by (bit_vector);
        }
        let lower = (w & 0xffff_ffff) as u32;
        let upper = (w >> 32) as u32;
        if le_bits(lower, upper) {
            Ok(Interval32 { bits: w })
        } else {
            Err(DomainError::InvalidBounds)
        }
    }

    /// The lower endpoint's bit pattern.
    pub fn min(self) -> (r: u32)
        ensures
            r == self.lower_bits(),
    {
        self.bounds().lower
    }

    /// The upper endpoint's bit pattern.
    pub fn max(self) -> (r: u32)
        ensures
            r == self.upper_bits(),
    {
        self.bounds().upper
    }
}

/// `a` lies entirely below `b`: `a.upper < b.lower`.
pub open spec fn before_spec(a: Interval32, b: Interval32) -> bool {
    f32_lt(a.upper_bits(), b.lower_bits())
}

/// `a` ends exactly where `b` begins: `a.upper == b.lower`.
pub open spec fn meets_spec(a: Interval32, b: Interval32) -> bool {
    f32_eq(a.upper_bits(), b.lower_bits())
}

/// `a` and `b` intersect partially, neither containing the other.
pub open spec fn overlaps_spec(a: Interval32, b: Interval32) -> bool {
    ||| (f32_lt(a.lower_bits(), b.lower_bits()) && f32_lt(a.upper_bits(), b.upper_bits())
        && f32_lt(b.lower_bits(), a.upper_bits()))
    ||| (f32_lt(b.lower_bits(), a.lower_bits()) && f32_lt(b.upper_bits(), a.upper_bits())
        && f32_lt(a.lower_bits(), b.upper_bits()))
}

/// `a` lies strictly inside `b`.
pub open spec fn during_spec(a: Interval32, b: Interval32) -> bool {
    f32_lt(b.lower_bits(), a.lower_bits()) && f32_lt(a.upper_bits(), b.upper_bits())
}

/// `a` and `b` share their lower endpoint and `a` ends strictly earlier.
pub open spec fn starts_spec(a: Interval32, b: Interval32) -> bool {
    f32_eq(a.lower_bits(), b.lower_bits()) && f32_lt(a.upper_bits(), b.upper_bits())
}

/// `a` and `b` share their upper endpoint and `a` begins strictly later.
pub open spec fn finishes_spec(a: Interval32, b: Interval32) -> bool {
    f32_eq(a.upper_bits(), b.upper_bits()) && f32_lt(b.lower_bits(), a.lower_bits())
}

/// `a` and `b` have equal endpoints under IEEE-754 equality.
pub open spec fn equals_spec(a: Interval32, b: Interval32) -> bool {
    f32_eq(a.lower_bits(), b.lower_bits()) && f32_eq(a.upper_bits(), b.upper_bits())
}

impl Interval32 {
    /// Allen relation: `self` lies entirely below `rhs`.
    pub fn before(self, rhs: Interval32) -> (r: bool)
        ensures
            r == before_spec(self, rhs),
    {
        lt_bits(self.bounds().upper, rhs.bounds().lower)
    }

    /// Allen relation: `self` ends exactly where `rhs` begins.
    pub fn meets(self, rhs: Interval32) -> (r: bool)
        ensures
            r == meets_spec(self, rhs),
    {
        eq_bits(self.bounds().upper, rhs.bounds().lower)
    }

    /// Allen relation: partial intersection with neither side contained
    /// in the other.
    pub fn overlaps(self, rhs: Interval32) -> (r: bool)
        ensures
            r == overlaps_spec(self, rhs),
    {
        let a = self.bounds();
        let b = rhs.bounds();
        (lt_bits(a.lower, b.lower) && lt_bits(a.upper, b.upper) && lt_bits(b.lower, a.upper)) || (
        lt_bits(b.lower, a.lower) && lt_bits(b.upper, a.upper) && lt_bits(a.lower, b.upper))
    }

    /// Allen relation: `self` lies strictly inside `rhs`.
    pub fn during(self, rhs: Interval32) -> (r: bool)
        ensures
            r == during_spec(self, rhs),
    {
        let a = self.bounds();
        let b = rhs.bounds();
        lt_bits(b.lower, a.lower) && lt_bits(a.upper, b.upper)
    }

    /// Allen relation: same lower endpoint, `self` strictly shorter at
    /// the top.
    pub fn starts(self, rhs: Interval32) -> (r: bool)
        ensures
            r == starts_spec(self, rhs),
    {
        let a = self.bounds();
        let b = rhs.bounds();
        eq_bits(a.lower, b.lower) && lt_bits(a.upper, b.upper)
    }

    /// Allen relation: same upper endpoint, `self` strictly shorter at
    /// the bottom.
    pub fn finishes(self, rhs: Interval32) -> (r: bool)
        ensures
            r == finishes_spec(self, rhs),
    {
        let a = self.bounds();
        let b = rhs.bounds();
        eq_bits(a.upper, b.upper) && lt_bits(b.lower, a.lower)
    }

    /// Allen relation: endpointwise IEEE-754 equality.
    pub fn eq(self, rhs: Interval32) -> (r: bool)
        ensures
            r == equals_spec(self, rhs),
    {
        let a = self.bounds();
        let b = rhs.bounds();
        eq_bits(a.lower, b.lower) && eq_bits(a.upper, b.upper)
    }
}

/// The pattern `r` is one of the four candidates, is not a NaN, and is
/// least among the candidates that are not NaNs.
pub open spec fn is_min_of(r: u32, c1: u32, c2: u32, c3: u32, c4: u32) -> bool {
    &&& !is_nan(r)
    &&& (r == c1 || r == c2 || r == c3 || r == c4)
    &&& (is_nan(c1) || sval(r) <= sval(c1))
    &&& (is_nan(c2) || sval(r) <= sval(c2))
    &&& (is_nan(c3) || sval(r) <= sval(c3))
    &&& (is_nan(c4) || sval(r) <= sval(c4))
}

/// The pattern `r` is one of the four candidates, is not a NaN, and is
/// greatest among the candidates that are not NaNs.
pub open spec fn is_max_of(r: u32, c1: u32, c2: u32, c3: u32, c4: u32) -> bool {
    &&& !is_nan(r)
    &&& (r == c1 || r == c2 || r == c3 || r == c4)
    &&& (is_nan(c1) || sval(r) >= sval(c1))
    &&& (is_nan(c2) || sval(r) >= sval(c2))
    &&& (is_nan(c3) || sval(r) >= sval(c3))
    &&& (is_nan(c4) || sval(r) >= sval(c4))
}

impl Interval32 {
    /// Extremal-candidate construction, the general step of interval
    /// multiplication and division: the result's endpoints are the least
    /// and greatest of the four candidate patterns, NaN candidates skipped
    /// the way `f32::min` and `f32::max` skip them. Refused with
    /// `InvalidBounds` exactly when every candidate is a NaN.
    pub fn from_candidates(c1: u32, c2: u32, c3: u32, c4: u32) -> (r: Result<
        Interval32,
        DomainError,
    >)
        ensures
            r is Ok <==> !(is_nan(c1) && is_nan(c2) && is_nan(c3) && is_nan(c4)),
            r matches Ok(iv) ==> iv.wf() && is_min_of(iv.lower_bits(), c1, c2, c3, c4)
                && is_max_of(iv.upper_bits(), c1, c2, c3, c4),
            r matches Err(e) ==> e == DomainError::InvalidBounds,
    {
        let lo = min_bits(min_bits(min_bits(c1, c2), c3), c4);
        let hi = max_bits(max_bits(max_bits(c1, c2), c3), c4);
        Interval32::new(lo, hi)
    }

    /// The division-domain decision for this interval taken as a divisor:
    /// refused with `DivisionByZeroInterval` exactly when its endpoints
    /// bracket zero, both ends inclusive, so that even an interval merely
    /// touching zero at one endpoint is no valid divisor.
    pub fn check_divisor(self) -> (r: Result<(), DomainError>)
        ensures
            r is Ok <==> !(f32_le(self.lower_bits(), 0u32) && f32_le(0u32, self.upper_bits())),
            r matches Err(e) ==> e == DomainError::DivisionByZeroInterval,
    {
        let b = self.bounds();
        if le_bits(b.lower, 0) && le_bits(0, b.upper) {
            Err(DomainError::DivisionByZeroInterval)
        } else {
            Ok(())
        }
    }
}

} // verus!
