//! Laws of the interval algebra, stated and proved once for all values.

use vstd::prelude::*;
use crate::fbits::is_nan;
use crate::fbits::sval;
use crate::interval::Bounds32;
use crate::interval::Interval32;
use crate::interval::pack_spec;
use crate::interval::lemma_pack_unpack;
use crate::interval::lemma_unpack_pack;
use crate::interval::before_spec;
use crate::interval::meets_spec;
use crate::interval::overlaps_spec;
use crate::interval::during_spec;
use crate::interval::starts_spec;
use crate::interval::finishes_spec;
use crate::interval::equals_spec;

verus! {

/// Every well-formed interval keeps its endpoints ordered: the lower
/// endpoint is no NaN, the upper endpoint is no NaN, and the lower one's
/// value is at most the upper one's. Every constructor of `Interval32`
/// ensures well-formedness, so this holds after every operation.
pub proof fn lemma_wf_ordered(iv: Interval32)
    requires
        iv.wf(),
    ensures
        !is_nan(iv.lower_bits()),
        !is_nan(iv.upper_bits()),
        sval(iv.lower_bits()) <= sval(iv.upper_bits()),
{
}

/// Packing two endpoint patterns into an interval word and unpacking it
/// again yields the same two patterns, bit for bit.
pub proof fn lemma_bounds_round_trip(b: Bounds32)
    ensures
        ({
            let iv = Interval32 { bits: pack_spec(b.lower, b.upper) };
            iv.lower_bits() == b.lower && iv.upper_bits() == b.upper
        }),
{
    lemma_pack_unpack(b.lower, b.upper);
}

/// Unpacking an interval word into its two endpoint patterns and packing
/// them again yields the same word, bit for bit.
pub proof fn lemma_interval_round_trip(iv: Interval32)
    ensures
        pack_spec(iv.lower_bits(), iv.upper_bits()) == iv.bits,
{
    lemma_unpack_pack(iv.bits);
}

/// `before` is asymmetric on well-formed intervals: an interval that lies
/// entirely below another cannot also lie entirely above it.
pub proof fn lemma_before_asymmetric(a: Interval32, b: Interval32)
    requires
        a.wf(),
        b.wf(),
    ensures
        before_spec(a, b) ==> !before_spec(b, a),
{
}

/// `during` is asymmetric: strict containment cannot hold both ways.
pub proof fn lemma_during_asymmetric(a: Interval32, b: Interval32)
    ensures
        during_spec(a, b) ==> !during_spec(b, a),
{
}

/// `starts` is asymmetric: of two intervals sharing a lower endpoint,
/// only the strictly shorter one starts the other.
pub proof fn lemma_starts_asymmetric(a: Interval32, b: Interval32)
    ensures
        starts_spec(a, b) ==> !starts_spec(b, a),
{
}

/// `finishes` is asymmetric: of two intervals sharing an upper endpoint,
/// only the strictly shorter one finishes the other.
pub proof fn lemma_finishes_asymmetric(a: Interval32, b: Interval32)
    ensures
        finishes_spec(a, b) ==> !finishes_spec(b, a),
{
}

/// `meets` holds in both directions only between two intervals whose four
/// endpoints all sit on one point, and such intervals are IEEE-754 equal;
/// between distinct well-formed intervals the relation is asymmetric.
pub proof fn lemma_meets_antisymmetric(a: Interval32, b: Interval32)
    requires
        a.wf(),
        b.wf(),
    ensures
        meets_spec(a, b) && meets_spec(b, a) ==> equals_spec(a, b),
{
}

/// Two IEEE-754 equal well-formed intervals stand in none of the strict
/// relations: not `before`, `overlaps`, `during`, `starts` or `finishes`.
/// (`meets` is not excluded: an interval of a single point meets itself.)
pub proof fn lemma_equals_excludes_strict(a: Interval32, b: Interval32)
    requires
        a.wf(),
        b.wf(),
    ensures
        equals_spec(a, b) ==> !before_spec(a, b) && !overlaps_spec(a, b) && !during_spec(a, b)
            && !starts_spec(a, b) && !finishes_spec(a, b),
{
}

/// `overlaps` is symmetric: partial intersection does not distinguish the
/// two sides.
pub proof fn lemma_overlaps_symmetric(a: Interval32, b: Interval32)
    ensures
        overlaps_spec(a, b) == overlaps_spec(b, a),
{
}

/// `equals` is symmetric.
pub proof fn lemma_equals_symmetric(a: Interval32, b: Interval32)
    ensures
        equals_spec(a, b) == equals_spec(b, a),
{
}

} // verus!
